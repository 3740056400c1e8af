//! Events: one log record each, built inside the span that the thread is in.

use crate::clock::unix_nanos;
use crate::field::{Field, FieldValue};
use crate::level::Level;
use crate::tags::Tags;
use crate::text::{decimal, decimal_string, same_text};
use vstd::prelude::*;
use vstd::string::*;

verus! {

/// The JSON text that `serde_json::to_string` writes for a map from strings
/// to strings.
pub uninterp spec fn json_object(entries: Map<Seq<char>, Seq<char>>) -> Seq<char>;

/// Calls `serde_json::to_string` on the entries, gathered in a map that is
/// ordered by key, so that the text depends on the entries alone; it is
/// named `json_object`. Should the call fail, the text is empty.
#[verifier::external_body]
fn json_text(entries: &Tags) -> (text: String)
    requires
        entries.wf(),
    ensures
        text@ == json_object(entries@),
{
    let map: std::collections::BTreeMap<&String, &String> =
        entries.entries().iter().map(|pair| (&pair.0, &pair.1)).collect();
    serde_json::to_string(&map).unwrap_or_default()
}

/// The decimal numeral of an identifier, or the empty text for none.
pub open spec fn id_text(id: Option<u64>) -> Seq<char> {
    match id {
        Some(n) => decimal(n as nat),
        None => Seq::empty(),
    }
}

/// What an event is, as plain values.
pub struct EventView {
    pub event: Seq<char>,
    pub function: Seq<char>,
    pub span_id: Seq<char>,
    pub trace_id: Seq<char>,
    pub data: Map<Seq<char>, Seq<char>>,
}

/// What a log record is, as plain values.
pub struct LogRecordView {
    pub event: Seq<char>,
    pub function: Seq<char>,
    pub span_id: Seq<char>,
    pub trace_id: Seq<char>,
    pub time: nat,
    pub status: Seq<char>,
    pub message: Seq<char>,
}

impl EventView {
    /// The event after one field was recorded on it. A string field named
    /// `event` or `function` replaces the event's name or its function; any
    /// other field becomes an entry of the data.
    pub open spec fn with_field(self, field: Field) -> EventView {
        match field.value {
            FieldValue::Str(text) => if field.name@ == "event"@ {
                EventView { event: text@, ..self }
            } else if field.name@ == "function"@ {
                EventView { function: text@, ..self }
            } else {
                EventView { data: self.data.insert(field.name@, text@), ..self }
            },
            FieldValue::Debug(text) => EventView {
                data: self.data.insert(field.name@, text@),
                ..self
            },
        }
    }

    /// The event after a sequence of fields was recorded on it, first to
    /// last.
    pub open spec fn with_fields(self, fields: Seq<Field>) -> EventView
        decreases fields.len(),
    {
        if fields.len() == 0 {
            self
        } else {
            self.with_fields(fields.drop_last()).with_field(fields.last())
        }
    }

    /// The record that is logged for the event at `level`, at `time`
    /// milliseconds since the UNIX epoch.
    pub open spec fn logged(self, level: Level, time: nat) -> LogRecordView {
        LogRecordView {
            event: self.event,
            function: self.function,
            span_id: self.span_id,
            trace_id: self.trace_id,
            time,
            status: level.name(),
            message: json_object(self.data),
        }
    }
}

/// An event as it is being logged. It lives for one notification.
#[derive(Debug)]
pub struct Event {
    event: String,
    function: String,
    span_id: String,
    trace_id: String,
    data: Tags,
}

impl View for Event {
    type V = EventView;

    closed spec fn view(&self) -> EventView {
        EventView {
            event: self.event@,
            function: self.function@,
            span_id: self.span_id@,
            trace_id: self.trace_id@,
            data: self.data@,
        }
    }
}

/// One record for the log sink.
#[derive(Debug)]
pub struct LogRecord {
    pub event: String,
    pub function: String,
    pub span_id: String,
    pub trace_id: String,
    pub time: u128,
    pub status: String,
    pub message: String,
}

impl View for LogRecord {
    type V = LogRecordView;

    open spec fn view(&self) -> LogRecordView {
        LogRecordView {
            event: self.event@,
            function: self.function@,
            span_id: self.span_id@,
            trace_id: self.trace_id@,
            time: self.time as nat,
            status: self.status@,
            message: self.message@,
        }
    }
}

fn id_string(id: Option<u64>) -> (text: String)
    ensures
        text@ == id_text(id),
{
    match id {
        Some(n) => decimal_string(n),
        None => String::new(),
    }
}

impl Event {
    /// The invariant of the type: that of its data.
    pub closed spec fn wf(&self) -> bool {
        self.data.wf()
    }

    /// An event without data, named `event`, inside the function and the
    /// span given.
    pub fn new(
        event: &str,
        function: Option<&str>,
        span_id: Option<u64>,
        trace_id: Option<u64>,
    ) -> (ev: Event)
        ensures
            ev.wf(),
            ev@ == (EventView {
                event: event@,
                function: match function {
                    Some(f) => f@,
                    None => Seq::empty(),
                },
                span_id: id_text(span_id),
                trace_id: id_text(trace_id),
                data: Map::empty(),
            }),
    {
        Event {
            event: String::from_str(event),
            function: match function {
                Some(f) => String::from_str(f),
                None => String::new(),
            },
            span_id: id_string(span_id),
            trace_id: id_string(trace_id),
            data: Tags::new(),
        }
    }

    /// The entries that the event's fields gave.
    pub fn data(&self) -> (data: &Tags)
        ensures
            data@ == self@.data,
            data.wf() == self.wf(),
    {
        &self.data
    }

    /// Records a string field.
    pub fn record_str(&mut self, name: &str, value: &str)
        requires
            old(self).wf(),
        ensures
            final(self).wf(),
            final(self)@ == if name@ == "event"@ {
                EventView { event: value@, ..old(self)@ }
            } else if name@ == "function"@ {
                EventView { function: value@, ..old(self)@ }
            } else {
                EventView { data: old(self)@.data.insert(name@, value@), ..old(self)@ }
            },
    {
        if same_text(name, "event") {
            self.event = String::from_str(value);
        } else if same_text(name, "function") {
            self.function = String::from_str(value);
        } else {
            self.data.insert(String::from_str(name), String::from_str(value));
        }
    }

    /// Records a field that is no string, given the pretty debug rendering
    /// of its value.
    pub fn record_debug(&mut self, name: &str, rendered: &str)
        requires
            old(self).wf(),
        ensures
            final(self).wf(),
            final(self)@ == (EventView {
                data: old(self)@.data.insert(name@, rendered@),
                ..old(self)@
            }),
    {
        self.data.insert(String::from_str(name), String::from_str(rendered));
    }

    /// Records fields on the event, first to last.
    pub fn record(&mut self, fields: &Vec<Field>)
        requires
            old(self).wf(),
        ensures
            final(self).wf(),
            final(self)@ == old(self)@.with_fields(fields@),
    {
        let mut i: usize = 0;
        while i < fields.len()
            invariant
                i <= fields.len(),
                self.wf(),
                self@ == old(self)@.with_fields(fields@.take(i as int)),
            decreases fields.len() - i,
        {
            proof {
                assert(fields@.take(i + 1).drop_last() =~= fields@.take(i as int));
            }
            match &fields[i].value {
                FieldValue::Str(text) => {
                    self.record_str(fields[i].name.as_str(), text.as_str());
                },
                FieldValue::Debug(text) => {
                    self.record_debug(fields[i].name.as_str(), text.as_str());
                },
            }
            i += 1;
        }
        proof {
            assert(fields@.take(fields.len() as int) =~= fields@);
        }
    }

    /// The record to log for the event at `level`, stamped with `time`
    /// milliseconds since the UNIX epoch.
    pub fn log_at(&self, level: &Level, time: u128) -> (record: LogRecord)
        requires
            self.wf(),
        ensures
            record@ == self@.logged(*level, time as nat),
    {
        LogRecord {
            event: self.event.clone(),
            function: self.function.clone(),
            span_id: self.span_id.clone(),
            trace_id: self.trace_id.clone(),
            time,
            status: String::from_str(level.status()),
            message: json_text(&self.data),
        }
    }

    /// The record to log for the event at `level`, stamped with the time of
    /// the system clock.
    pub fn log(&self, level: &Level) -> (record: LogRecord)
        requires
            self.wf(),
        ensures
            exists|time: nat| record@ == #[trigger] self@.logged(*level, time),
    {
        let now: u128 = unix_nanos();
        self.log_at(level, now / 1_000_000)
    }
}

} // verus!
