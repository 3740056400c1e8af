use trace_collector::config::{
    default_buffer_flush_max_interval, default_host, default_level, default_port,
    default_sample_rate, Config, Dd, Metadata,
};
use trace_collector::level::Level;
use trace_collector::rate::{decide, is_less, AUTO_KEEP, AUTO_REJECT, ONE, ZERO};
use trace_collector::Collector;

fn bits(x: f32) -> u32 {
    x.to_bits()
}

#[test]
fn defaults_are_the_documented_ones() {
    assert_eq!(default_host(), "localhost");
    assert_eq!(default_port(), "8126");
    assert_eq!(default_level(), "info");
    assert_eq!(default_sample_rate(), bits(1.0));
    assert_eq!(default_buffer_flush_max_interval(), 200);
    let dd = Dd::default();
    assert_eq!(dd.service, "");
    assert_eq!(dd.env, "");
    assert_eq!(dd.version, "");
    assert_eq!(dd.host, "localhost");
    assert_eq!(dd.port, "8126");
    assert_eq!(dd.buffer_flush_max_interval, 200);
    let metadata = Metadata::default();
    assert_eq!(metadata.env, "");
    assert_eq!(metadata.image, "");
    let config = Config::default();
    assert_eq!(config.level, "info");
    assert_eq!(config.prefix, "");
    assert_eq!(config.sample_rate, bits(1.0));
    assert_eq!(config.dd.host, "localhost");
    assert_eq!(config.validate(), Ok(()));
}

#[test]
fn validate_names_the_first_fault() {
    let mut config = Config::default();
    config.level = String::new();
    config.sample_rate = bits(2.0);
    config.dd.host = String::new();
    config.dd.port = String::new();
    assert_eq!(config.validate(), Err("Invalid level."));
    config.level = "info".to_string();
    assert_eq!(config.validate(), Err("Invalid sample rate."));
    config.sample_rate = bits(0.5);
    assert_eq!(config.validate(), Err("Invalid host."));
    config.dd.host = "agent".to_string();
    assert_eq!(config.validate(), Err("Invalid port."));
    config.dd.port = "1".to_string();
    assert_eq!(config.validate(), Ok(()));
}

#[test]
fn validate_accepts_rates_from_zero_to_one() {
    for rate in [0.0f32, -0.0, 1e-30, 0.25, 0.999_999_9, 1.0, f32::NAN] {
        let mut config = Config::default();
        config.sample_rate = bits(rate);
        assert_eq!(config.validate(), Ok(()), "rate {}", rate);
    }
    for rate in [-1e-30f32, -0.5, -1.0, 1.000_000_1, 2.0, f32::INFINITY, f32::NEG_INFINITY] {
        let mut config = Config::default();
        config.sample_rate = bits(rate);
        assert_eq!(config.validate(), Err("Invalid sample rate."), "rate {}", rate);
    }
}

#[test]
fn bit_patterns_are_ordered_as_their_numbers() {
    let samples = [
        f32::NEG_INFINITY,
        -3.5,
        -1.0,
        -1e-40,
        -0.0,
        0.0,
        1e-40,
        5.960_464_5e-8,
        0.5,
        0.999_999_94,
        1.0,
        7.25,
        f32::MAX,
        f32::INFINITY,
        f32::NAN,
    ];
    for a in samples {
        for b in samples {
            assert_eq!(is_less(bits(a), bits(b)), a < b, "{} < {}", a, b);
        }
    }
    assert_eq!(ZERO, bits(0.0));
    assert_eq!(ONE, bits(1.0));
}

#[test]
fn sampler_rejects_draws_above_the_rate() {
    assert_eq!(AUTO_REJECT, 0);
    assert_eq!(AUTO_KEEP, 1);
    assert_eq!(decide(bits(0.5), bits(0.25)), AUTO_KEEP);
    assert_eq!(decide(bits(0.5), bits(0.5)), AUTO_KEEP);
    assert_eq!(decide(bits(0.5), bits(0.500_000_06)), AUTO_REJECT);
    assert_eq!(decide(bits(0.5), bits(0.75)), AUTO_REJECT);
}

#[test]
fn rate_zero_rejects_and_rate_one_keeps() {
    let draws = [5.960_464_5e-8f32, 0.001, 0.5, 0.999_999_94];
    for draw in draws {
        assert_eq!(decide(bits(0.0), bits(draw)), AUTO_REJECT);
        assert_eq!(decide(bits(1.0), bits(draw)), AUTO_KEEP);
    }
    assert_eq!(decide(bits(1.0), bits(0.0)), AUTO_KEEP);
    // a draw of exactly 0 is not greater than a rate of 0
    assert_eq!(decide(bits(0.0), bits(0.0)), AUTO_KEEP);
    // nothing is greater than a rate that is no number
    assert_eq!(decide(bits(f32::NAN), bits(0.5)), AUTO_KEEP);
}

#[test]
fn collector_uses_the_configured_rate() {
    let mut config = Config::default();
    config.sample_rate = bits(0.25);
    let collector = Collector::try_new(&config).unwrap_or_else(|e| panic!("{}", e));
    assert_eq!(collector.sample(bits(0.2)), AUTO_KEEP);
    assert_eq!(collector.sample(bits(0.3)), AUTO_REJECT);
}

#[test]
fn try_new_reports_faults_and_unknown_levels() {
    let mut config = Config::default();
    config.dd.port = String::new();
    assert_eq!(Collector::try_new(&config).err(), Some("Invalid port."));
    let mut config = Config::default();
    config.level = "loud".to_string();
    assert_eq!(Collector::try_new(&config).err(), Some("Invalid level."));
    let mut config = Config::default();
    config.level = "0".to_string();
    assert_eq!(Collector::try_new(&config).err(), Some("Invalid level."));
    assert!(Collector::try_new(&Config::default()).is_ok());
}

#[test]
fn new_builds_from_checked_settings() {
    let config = Config::default();
    assert_eq!(config.validate(), Ok(()));
    let collector = Collector::new(&config);
    assert_eq!(collector.next_span_id(), 1);
    assert_eq!(collector.span_count(), 0);
    assert_eq!(collector.trace_count(), 0);
    assert!(collector.enabled(&Level::Info, "anything"));
    assert!(!collector.enabled(&Level::Debug, "anything"));
}

#[test]
fn level_names_and_numbers_are_read_as_tracing_reads_them() {
    let cases = [
        ("error", Level::Error),
        ("WARN", Level::Warn),
        ("Info", Level::Info),
        ("debug", Level::Debug),
        ("trace", Level::Trace),
        ("1", Level::Error),
        ("2", Level::Warn),
        ("3", Level::Info),
        ("4", Level::Debug),
        ("5", Level::Trace),
    ];
    let all = [Level::Error, Level::Warn, Level::Info, Level::Debug, Level::Trace];
    for (name, level) in cases {
        let mut config = Config::default();
        config.level = name.to_string();
        let collector = Collector::try_new(&config).unwrap_or_else(|e| panic!("{}", e));
        for probe in all {
            assert_eq!(collector.enabled(&probe, "x"), probe.le(level), "{} {:?}", name, probe);
        }
    }
}

#[test]
fn levels_are_ordered_from_error_to_trace() {
    let all = [Level::Error, Level::Warn, Level::Info, Level::Debug, Level::Trace];
    for (i, a) in all.iter().enumerate() {
        for (j, b) in all.iter().enumerate() {
            assert_eq!(a.le(*b), i <= j);
        }
    }
    assert_eq!(Level::Error.status(), "error");
    assert_eq!(Level::Warn.status(), "warn");
    assert_eq!(Level::Info.status(), "info");
    assert_eq!(Level::Debug.status(), "debug");
    assert_eq!(Level::Trace.status(), "trace");
}

#[test]
fn enabled_needs_the_prefix_and_the_level() {
    let mut config = Config::default();
    config.prefix = "svc::".to_string();
    config.level = "warn".to_string();
    let collector = Collector::try_new(&config).unwrap_or_else(|e| panic!("{}", e));
    assert!(collector.enabled(&Level::Error, "svc::db"));
    assert!(collector.enabled(&Level::Warn, "svc::"));
    assert!(!collector.enabled(&Level::Info, "svc::db"));
    assert!(!collector.enabled(&Level::Error, "other::svc::db"));
    assert!(!collector.enabled(&Level::Error, "svc"));
}
