//! The collector: span registry, trace index, and the operations that the
//! instrumentation calls.

use crate::clock::unix_nanos;
use crate::config::Config;
use crate::event::Event;
use crate::field::{Attributes, Field};
use crate::level::{level_from_text, named_level, parsed_level, Level};
use crate::laws::{change_keeps_wf, close_keeps_wf, span_keeps_rooted, span_keeps_wf};
use crate::model::{assembled, current_span, error_entries, CollectorView, TraceView};
use crate::rate::{decide, decision};
use crate::span::{ExportedSpan, Span, SpanView};
use crate::tags::{distinct_keys, map_of, next_pair_is_insert, Tags};
use crate::text::has_prefix;
use std::collections::HashMap;
use vstd::prelude::*;
use vstd::string::*;

verus! {

broadcast use vstd::std_specs::hash::group_hash_axioms;

/// The spans that one thread has entered and not left, innermost last.
/// Each thread owns one and shares it with nobody.
#[derive(Debug)]
pub struct CurrentSpanPerThread {
    current: Vec<u64>,
}

impl View for CurrentSpanPerThread {
    type V = Seq<u64>;

    closed spec fn view(&self) -> Seq<u64> {
        self.current@
    }
}

impl CurrentSpanPerThread {
    /// The stack of a thread that is in no span.
    pub fn new() -> (stack: CurrentSpanPerThread)
        ensures
            stack@ == Seq::<u64>::empty(),
    {
        CurrentSpanPerThread { current: Vec::new() }
    }

    /// The span that the thread is in, or none where it is in no span.
    pub fn id(&self) -> (id: Option<u64>)
        ensures
            id == current_span(self@),
    {
        let len: usize = self.current.len();
        if len > 0 {
            Some(self.current[len - 1])
        } else {
            None
        }
    }

    /// Notes that the thread entered `span`.
    pub fn enter(&mut self, span: u64)
        ensures
            final(self)@ == old(self)@.push(span),
    {
        self.current.push(span);
    }

    /// Notes that the thread left the span it was in. A thread that is in
    /// no span stays so.
    pub fn exit(&mut self)
        ensures
            final(self)@ == if old(self)@.len() > 0 {
                old(self)@.drop_last()
            } else {
                old(self)@
            },
    {
        let _ = self.current.pop();
    }
}

/// Copies the error entries of `data` to the tags of `span`.
fn copy_errors(span: &mut Span, data: &Tags)
    requires
        old(span).wf(),
        data.wf(),
    ensures
        final(span).wf(),
        final(span)@ == (SpanView {
            tags: old(span)@.tags.union_prefer_right(error_entries(data@)),
            ..old(span)@
        }),
{
    let entries = data.entries();
    let mut i: usize = 0;
    assert(old(span)@.tags.union_prefer_right(error_entries(map_of(entries@.take(0))))
        =~= old(span)@.tags);
    while i < entries.len()
        invariant
            i <= entries.len(),
            distinct_keys(entries@),
            span.wf(),
            span@ == (SpanView {
                tags: old(span)@.tags.union_prefer_right(
                    error_entries(map_of(entries@.take(i as int))),
                ),
                ..old(span)@
            }),
        decreases entries.len() - i,
    {
        proof {
            next_pair_is_insert(entries@, i as int);
        }
        let ghost before = map_of(entries@.take(i as int));
        let ghost key = entries@[i as int].0@;
        let ghost value = entries@[i as int].1@;
        if has_prefix(entries[i].0.as_str(), "error") {
            span.set_tag(entries[i].0.clone(), entries[i].1.clone());
            assert(old(span)@.tags.union_prefer_right(error_entries(before.insert(key, value)))
                =~= old(span)@.tags.union_prefer_right(error_entries(before)).insert(key, value));
        } else {
            assert(error_entries(before.insert(key, value)) =~= error_entries(before));
        }
        i += 1;
    }
    assert(entries@.take(entries.len() as int) =~= entries@);
}

/// A complete trace, as it is handed to the exporter.
#[derive(Debug)]
pub struct Trace {
    pub id: u64,
    pub priority: u32,
    pub spans: Vec<ExportedSpan>,
}

impl View for Trace {
    type V = TraceView;

    open spec fn view(&self) -> TraceView {
        TraceView {
            id: self.id,
            priority: self.priority,
            spans: self.spans@.map_values(|span: ExportedSpan| span@),
        }
    }
}

impl Trace {
    /// The invariant of the type: that of each span's tags.
    pub open spec fn wf(&self) -> bool {
        forall|i: int| 0 <= i < self.spans@.len() ==> (#[trigger] self.spans@[i]).tags.wf()
    }
}

/// The bookkeeping of a tracing collector.
pub struct Collector {
    level: Level,
    prefix: String,
    spans: HashMap<u64, Span>,
    traces: HashMap<u64, Vec<u64>>,
    span_id: u64,
    sample_rate: u32,
}

impl View for Collector {
    type V = CollectorView;

    closed spec fn view(&self) -> CollectorView {
        CollectorView {
            level: self.level,
            prefix: self.prefix@,
            sample_rate: self.sample_rate,
            spans: self.spans@.map_values(|span: Span| span@),
            traces: self.traces@.map_values(|list: Vec<u64>| list@),
            next_span_id: self.span_id as nat,
        }
    }
}

impl Collector {
    /// Every registered span meets the invariant of its type.
    pub closed spec fn spans_wf(&self) -> bool {
        forall|id: u64| #[trigger] self.spans@.contains_key(id) ==> self.spans@[id].wf()
    }

    /// The invariant of the type: that of its spans, and that of the state
    /// they make up.
    pub open spec fn wf(&self) -> bool {
        self.spans_wf() && self@.wf()
    }

    /// A collector that has seen nothing yet, set up as `config` says.
    pub fn new(config: &Config) -> (made: Collector)
        requires
            config.fault() is None,
            parsed_level(config.level@) is Some,
        ensures
            made.wf(),
            made@ == CollectorView::initial(
                parsed_level(config.level@)->0,
                config.prefix@,
                config.sample_rate,
            ),
    {
        let level = match level_from_text(config.level.as_str()) {
            Some(level) => level,
            None => unreached(),
        };
        let made = Collector {
            level,
            prefix: config.prefix.clone(),
            spans: HashMap::new(),
            traces: HashMap::new(),
            span_id: 1,
            sample_rate: config.sample_rate,
        };
        assert(made@.spans =~= Map::<u64, SpanView>::empty());
        assert(made@.traces =~= Map::<u64, Seq<u64>>::empty());
        made
    }

    /// Checks `config` and, where it has no fault and names a level, makes
    /// a collector from it. The error is the fault of the settings, or
    /// `Invalid level.` where their level is not the name of one. Settings
    /// without a fault whose level is one of the five lower-case level names
    /// are always accepted.
    pub fn try_new(config: &Config) -> (made: Result<Collector, &'static str>)
        ensures
            config.fault() is None && named_level(config.level@) is Some ==> made is Ok,
            match made {
                Ok(collector) => {
                    &&& config.fault() is None
                    &&& parsed_level(config.level@) is Some
                    &&& collector.wf()
                    &&& collector@ == CollectorView::initial(
                        parsed_level(config.level@)->0,
                        config.prefix@,
                        config.sample_rate,
                    )
                },
                Err(message) => {
                    ||| config.fault() == Some(message@)
                    ||| {
                        &&& config.fault() is None
                        &&& parsed_level(config.level@) is None
                        &&& message@ == "Invalid level."@
                    }
                },
            },
    {
        match config.validate() {
            Err(message) => Err(message),
            Ok(_) => match level_from_text(config.level.as_str()) {
                None => Err("Invalid level."),
                Some(_) => Ok(Collector::new(config)),
            },
        }
    }

    /// Draws the identifier of a new trace with `rand::random`. Any value
    /// may come back, so nothing is promised of it.
    #[verifier::external_body]
    fn get_next_trace_id() -> (id: u64) {
        rand::random()
    }

    /// Hands out the next span identifier.
    fn get_next_span_id(&mut self) -> (id: u64)
        requires
            old(self).span_id < u64::MAX,
        ensures
            id == old(self).span_id,
            final(self).span_id == id + 1,
            final(self).level == old(self).level,
            final(self).prefix == old(self).prefix,
            final(self).sample_rate == old(self).sample_rate,
            final(self).spans == old(self).spans,
            final(self).traces == old(self).traces,
    {
        let id: u64 = self.span_id;
        self.span_id = id + 1;
        id
    }

    /// The registered span that a thread with this stack is in, with the
    /// trace it belongs to.
    fn enclosing(&self, current: &CurrentSpanPerThread) -> (found: Option<(u64, u64)>)
        requires
            self.wf(),
        ensures
            match found {
                Some((parent, trace_id)) => self@.parent_for(current@) == Some(parent)
                    && trace_id == self@.spans[parent].trace_id,
                None => self@.parent_for(current@) is None,
            },
    {
        match current.id() {
            Some(parent) => match self.spans.get(&parent) {
                Some(span) => Some((parent, span.trace_id())),
                None => None,
            },
            None => None,
        }
    }

    /// Registers a new span under `parent` in the trace `trace_id`.
    fn insert_span(&mut self, parent: Option<u64>, trace_id: u64, attrs: &Attributes) -> (id: u64)
        requires
            old(self).spans_wf(),
            old(self).span_id < u64::MAX,
        ensures
            final(self).spans_wf(),
            id == old(self)@.next_span_id,
            final(self)@ == (CollectorView {
                spans: old(self)@.spans.insert(
                    id,
                    SpanView {
                        parent,
                        trace_id,
                        handlers: 1,
                        name: attrs.name@,
                        resource: attrs.target@,
                        start: None,
                        duration: None,
                        tags: crate::span::recorded(Map::empty(), attrs.fields@),
                    },
                ),
                traces: old(self)@.traces.insert(trace_id, old(self)@.list_of(trace_id).push(id)),
                next_span_id: old(self)@.next_span_id + 1,
                ..old(self)@
            }),
    {
        let mut list: Vec<u64> = match self.traces.remove(&trace_id) {
            Some(list) => list,
            None => Vec::new(),
        };
        let id: u64 = self.get_next_span_id();
        let span = Span::new(parent, trace_id, attrs);
        self.spans.insert(id, span);
        list.push(id);
        self.traces.insert(trace_id, list);
        proof {
            assert(final(self)@.spans =~= old(self)@.spans.insert(id, span@));
            assert(final(self)@.traces =~= old(self)@.traces.insert(
                trace_id,
                old(self)@.list_of(trace_id).push(id),
            ));
        }
        id
    }

    /// Creates a span for a thread with the stack `current`. The span is a
    /// child of the span that the thread is in and belongs to its trace; where
    /// the thread is in no span, or in one that is not registered, the span
    /// is a root and starts the trace `fresh`.
    pub fn new_span_with(
        &mut self,
        current: &CurrentSpanPerThread,
        attrs: &Attributes,
        fresh: u64,
    ) -> (id: u64)
        requires
            old(self).wf(),
            old(self)@.next_span_id < u64::MAX,
        ensures
            final(self).wf(),
            id == old(self)@.next_span_id,
            final(self)@ == old(self)@.with_span(current@, *attrs, fresh),
            old(self)@.rooted() && (old(self)@.parent_for(current@) is Some
                || !old(self)@.traces.contains_key(fresh)) ==> final(self)@.rooted(),
    {
        proof {
            span_keeps_wf(self@, current@, *attrs, fresh);
            if self@.rooted() && (self@.parent_for(current@) is Some || !self@.traces.contains_key(
                fresh,
            )) {
                span_keeps_rooted(self@, current@, *attrs, fresh);
            }
        }
        match self.enclosing(current) {
            Some((parent, trace_id)) => self.insert_span(Some(parent), trace_id, attrs),
            None => self.insert_span(None, fresh, attrs),
        }
    }

    /// Creates a span for a thread with the stack `current`, as
    /// `new_span_with` does, with a random identifier for the trace that a
    /// root span starts.
    pub fn new_span(&mut self, current: &CurrentSpanPerThread, attrs: &Attributes) -> (id: u64)
        requires
            old(self).wf(),
            old(self)@.next_span_id < u64::MAX,
        ensures
            final(self).wf(),
            id == old(self)@.next_span_id,
            exists|fresh: u64| final(self)@ == #[trigger] old(self)@.with_span(current@, *attrs, fresh),
    {
        match self.enclosing(current) {
            Some((parent, trace_id)) => {
                proof {
                    span_keeps_wf(self@, current@, *attrs, 0);
                }
                let id: u64 = self.insert_span(Some(parent), trace_id, attrs);
                assert(final(self)@ == old(self)@.with_span(current@, *attrs, 0));
                id
            },
            None => {
                let fresh: u64 = Collector::get_next_trace_id();
                proof {
                    span_keeps_wf(self@, current@, *attrs, fresh);
                }
                let id: u64 = self.insert_span(None, fresh, attrs);
                assert(final(self)@ == old(self)@.with_span(current@, *attrs, fresh));
                id
            },
        }
    }

    /// Applies the outcome of a change to the span `id`: puts the changed
    /// span back under its identifier.
    fn put_back(&mut self, id: u64, span: Span)
        requires
            old(self).spans_wf(),
            span.wf(),
        ensures
            final(self).spans_wf(),
            final(self)@ == (CollectorView {
                spans: old(self)@.spans.insert(id, span@),
                ..old(self)@
            }),
    {
        self.spans.insert(id, span);
        assert(final(self)@.spans =~= old(self)@.spans.insert(id, span@));
    }

    /// Takes the span `id` out of the registry to change it.
    fn take_out(&mut self, id: u64) -> (span: Option<Span>)
        requires
            old(self).spans_wf(),
        ensures
            final(self).spans_wf(),
            final(self)@ == (CollectorView { spans: old(self)@.spans.remove(id), ..old(self)@ }),
            match span {
                Some(s) => old(self)@.spans.contains_key(id) && s@ == old(self)@.spans[id]
                    && s.wf(),
                None => !old(self)@.spans.contains_key(id),
            },
    {
        let span = self.spans.remove(&id);
        assert(final(self)@.spans =~= old(self)@.spans.remove(id));
        span
    }

    /// Records fields on the span `span_id`: each field becomes a tag and
    /// replaces the tag of the same key. Does nothing where no such span is
    /// registered.
    pub fn record(&mut self, span_id: u64, fields: &Vec<Field>)
        requires
            old(self).wf(),
        ensures
            final(self).wf(),
            final(self)@ == old(self)@.with_record(span_id, fields@),
            old(self)@.rooted() ==> final(self)@.rooted(),
    {
        proof {
            change_keeps_wf(self@, span_id, self@.spans[span_id].with_fields(fields@));
        }
        match self.take_out(span_id) {
            Some(mut span) => {
                span.record(fields);
                self.put_back(span_id, span);
                assert(final(self)@.spans =~= old(self)@.with_record(span_id, fields@).spans);
            },
            None => {
                assert(final(self)@.spans =~= old(self)@.spans);
            },
        }
    }

    /// Notes that the thread with the stack `current` entered the span
    /// `span_id` at `now`: the span goes on top of the stack, and where it is
    /// registered and was never entered, `now` becomes its start.
    pub fn enter_at(&mut self, current: &mut CurrentSpanPerThread, span_id: u64, now: u128)
        requires
            old(self).wf(),
        ensures
            final(self).wf(),
            final(current)@ == old(current)@.push(span_id),
            final(self)@ == old(self)@.with_entry(span_id, now as nat),
            old(self)@.rooted() ==> final(self)@.rooted(),
    {
        proof {
            change_keeps_wf(self@, span_id, self@.spans[span_id].entered(now as nat));
        }
        current.enter(span_id);
        match self.take_out(span_id) {
            Some(mut span) => {
                span.set_time_at(now);
                self.put_back(span_id, span);
                assert(final(self)@.spans =~= old(self)@.with_entry(span_id, now as nat).spans);
            },
            None => {
                assert(final(self)@.spans =~= old(self)@.spans);
            },
        }
    }

    /// Notes that the thread with the stack `current` entered the span
    /// `span_id` now, by the system clock.
    pub fn enter(&mut self, current: &mut CurrentSpanPerThread, span_id: u64)
        requires
            old(self).wf(),
        ensures
            final(self).wf(),
            final(current)@ == old(current)@.push(span_id),
            exists|now: nat| final(self)@ == #[trigger] old(self)@.with_entry(span_id, now),
            old(self)@.rooted() ==> final(self)@.rooted(),
    {
        let now: u128 = unix_nanos();
        self.enter_at(current, span_id, now);
        assert(final(self)@ == old(self)@.with_entry(span_id, now as nat));
    }

    /// Notes that the thread with the stack `current` left the span it was
    /// in. The collector's own state does not change.
    pub fn exit(&self, current: &mut CurrentSpanPerThread)
        ensures
            final(current)@ == if old(current)@.len() > 0 {
                old(current)@.drop_last()
            } else {
                old(current)@
            },
    {
        current.exit();
    }

    /// Counts one more handle on the span `span_id` and hands the identifier
    /// back. Does nothing where no such span is registered.
    pub fn clone_span(&mut self, span_id: u64) -> (id: u64)
        requires
            old(self).wf(),
            old(self)@.spans.contains_key(span_id) ==> old(self)@.spans[span_id].handlers
                < u64::MAX,
        ensures
            final(self).wf(),
            id == span_id,
            final(self)@ == old(self)@.with_clone(span_id),
            old(self)@.rooted() ==> final(self)@.rooted(),
    {
        proof {
            change_keeps_wf(self@, span_id, self@.spans[span_id].cloned());
        }
        match self.take_out(span_id) {
            Some(mut span) => {
                span.increment_handlers();
                self.put_back(span_id, span);
                assert(final(self)@.spans =~= old(self)@.with_clone(span_id).spans);
            },
            None => {
                assert(final(self)@.spans =~= old(self)@.spans);
            },
        }
        span_id
    }

    /// Takes the notification of an event that a thread with the stack
    /// `current` emitted, and hands back the event to log. The event names
    /// the registered span that the thread is in. Where its level is a
    /// warning or an error, its error entries become tags of that span.
    pub fn event(
        &mut self,
        current: &CurrentSpanPerThread,
        target: &str,
        level: &Level,
        fields: &Vec<Field>,
    ) -> (ev: Event)
        requires
            old(self).wf(),
        ensures
            final(self).wf(),
            ev.wf(),
            ev@ == old(self)@.event_for(current@, target@, fields@),
            final(self)@ == old(self)@.with_event(current@, *level, ev@.data),
            old(self)@.rooted() ==> final(self)@.rooted(),
    {
        let parent_id = current.id();
        match self.enclosing(current) {
            Some((parent, trace_id)) => {
                match self.take_out(parent) {
                    Some(mut span) => {
                        let mut ev = Event::new(
                            target,
                            Some(span.name()),
                            parent_id,
                            Some(trace_id),
                        );
                        ev.record(fields);
                        if level.le(Level::Warn) {
                            copy_errors(&mut span, ev.data());
                        }
                        proof {
                            change_keeps_wf(old(self)@, parent, span@);
                        }
                        self.put_back(parent, span);
                        assert(final(self)@.spans =~= old(self)@.with_event(
                            current@,
                            *level,
                            ev@.data,
                        ).spans);
                        ev
                    },
                    None => unreached(),
                }
            },
            None => {
                let mut ev = Event::new(target, None, parent_id, None);
                ev.record(fields);
                ev
            },
        }
    }

    /// Takes the registered spans of `list` out of the registry and turns
    /// each into the record that is exported.
    fn assemble(&mut self, list: &Vec<u64>, now: u128) -> (out: Vec<ExportedSpan>)
        requires
            old(self).spans_wf(),
            list@.no_duplicates(),
        ensures
            final(self).spans_wf(),
            final(self)@ == (CollectorView {
                spans: old(self)@.spans.remove_keys(list@.to_set()),
                ..old(self)@
            }),
            out@.map_values(|span: ExportedSpan| span@) == assembled(
                list@,
                old(self)@.spans,
                now as nat,
            ),
            forall|i: int| 0 <= i < out@.len() ==> (#[trigger] out@[i]).tags.wf(),
    {
        let mut out: Vec<ExportedSpan> = Vec::new();
        let mut i: usize = 0;
        assert(self@.spans =~= old(self)@.spans.remove_keys(list@.take(0).to_set()));
        assert(out@.map_values(|span: ExportedSpan| span@) =~= assembled(
            list@.take(0),
            old(self)@.spans,
            now as nat,
        ));
        while i < list.len()
            invariant
                i <= list.len(),
                list@.no_duplicates(),
                self.spans_wf(),
                self@ == (CollectorView {
                    spans: old(self)@.spans.remove_keys(list@.take(i as int).to_set()),
                    ..old(self)@
                }),
                out@.map_values(|span: ExportedSpan| span@) == assembled(
                    list@.take(i as int),
                    old(self)@.spans,
                    now as nat,
                ),
                forall|j: int| 0 <= j < out@.len() ==> (#[trigger] out@[j]).tags.wf(),
            decreases list.len() - i,
        {
            let id: u64 = list[i];
            let ghost done = list@.take(i as int);
            let ghost before = out@.map_values(|span: ExportedSpan| span@);
            proof {
                assert(list@.take(i + 1).drop_last() =~= done);
                assert(list@.take(i + 1).last() == id);
                assert(!done.to_set().contains(id)) by {
                    if done.contains(id) {
                        let at = choose|j: int| 0 <= j < done.len() && done[j] == id;
                        assert(list@[at] == id);
                    }
                }
                let next = list@.take(i + 1);
                assert(next =~= done.push(id));
                assert(next.to_set() =~= done.to_set().insert(id)) by {
                    assert forall|x: u64| next.to_set().contains(x) implies done.to_set().insert(
                        id,
                    ).contains(x) by {
                        let at = choose|j: int| 0 <= j < next.len() && next[j] == x;
                        if at < done.len() {
                            assert(done[at] == x);
                        }
                    }
                    assert forall|x: u64| done.to_set().insert(id).contains(x) implies next.to_set().contains(
                        x,
                    ) by {
                        if x == id {
                            assert(next[done.len() as int] == x);
                        } else {
                            let at = choose|j: int| 0 <= j < done.len() && done[j] == x;
                            assert(next[at] == x);
                        }
                    }
                }
            }
            match self.take_out(id) {
                Some(span) => {
                    let exported = Span::into_at(id, span, now);
                    out.push(exported);
                    assert(out@.map_values(|span: ExportedSpan| span@) =~= before.push(exported@));
                },
                None => {},
            }
            assert(self@.spans =~= old(self)@.spans.remove_keys(list@.take(i + 1).to_set()));
            i += 1;
        }
        assert(list@.take(list.len() as int) =~= list@);
        out
    }

    /// Drops one handle on the span `span_id` at `now`, and says whether
    /// that closed the span. A span closes when its last handle is dropped:
    /// its duration is then finalized. Where the span that closes is a root
    /// whose trace is live, the trace is complete: it leaves the index, its
    /// spans leave the registry, and the trace is handed back, sampled with
    /// `draw`. Does nothing where no such span is registered or no handle is
    /// left on it.
    pub fn try_close_at(&mut self, span_id: u64, now: u128, draw: u32) -> (out: (
        bool,
        Option<Trace>,
    ))
        requires
            old(self).wf(),
        ensures
            final(self).wf(),
            out.0 == old(self)@.closes(span_id),
            final(self)@ == old(self)@.with_close(span_id, now as nat),
            match out.1 {
                Some(trace) => trace.wf() && Some(trace@) == old(self)@.completed(
                    span_id,
                    now as nat,
                    draw,
                ),
                None => old(self)@.completed(span_id, now as nat, draw) is None,
            },
            old(self)@.rooted() ==> final(self)@.rooted(),
    {
        proof {
            close_keeps_wf(self@, span_id, now as nat);
        }
        let mut span = match self.take_out(span_id) {
            Some(span) => span,
            None => {
                assert(final(self)@.spans =~= old(self)@.spans);
                return (false, None);
            },
        };
        if span.is_closed() {
            self.put_back(span_id, span);
            assert(final(self)@.spans =~= old(self)@.spans);
            return (false, None);
        }
        span.decrement_handlers();
        if !span.is_closed() {
            self.put_back(span_id, span);
            assert(final(self)@.spans =~= old(self)@.with_drop(span_id, now as nat).spans);
            return (false, None);
        }
        span.set_duration_at(now);
        let is_root: bool = span.parent().is_none();
        let trace_id: u64 = span.trace_id();
        self.put_back(span_id, span);
        assert(self@.spans =~= old(self)@.with_drop(span_id, now as nat).spans);
        if !is_root {
            return (true, None);
        }
        match self.traces.remove(&trace_id) {
            Some(list) => {
                assert(list@ == old(self)@.traces[trace_id]);
                assert(self@.traces =~= old(self)@.traces.remove(trace_id));
                let spans = self.assemble(&list, now);
                let priority: u32 = self.sample(draw);
                let trace = Trace { id: trace_id, priority, spans };
                (true, Some(trace))
            },
            None => (true, None),
        }
    }

    /// Drops one handle on the span `span_id` now, by the system clock, as
    /// `try_close_at` does.
    pub fn try_close(&mut self, span_id: u64, draw: u32) -> (out: (bool, Option<Trace>))
        requires
            old(self).wf(),
        ensures
            final(self).wf(),
            out.0 == old(self)@.closes(span_id),
            exists|now: nat|
                final(self)@ == #[trigger] old(self)@.with_close(span_id, now) && (match out.1 {
                    Some(trace) => trace.wf() && Some(trace@) == old(self)@.completed(
                        span_id,
                        now,
                        draw,
                    ),
                    None => old(self)@.completed(span_id, now, draw) is None,
                }),
            old(self)@.rooted() ==> final(self)@.rooted(),
    {
        let now: u128 = unix_nanos();
        let out = self.try_close_at(span_id, now, draw);
        assert(final(self)@ == old(self)@.with_close(span_id, now as nat));
        out
    }

    /// The sampling decision for one trace, given a uniform draw from the
    /// unit interval as a bit pattern.
    pub fn sample(&self, draw: u32) -> (priority: u32)
        ensures
            priority == decision(self@.sample_rate, draw),
    {
        decide(self.sample_rate, draw)
    }

    /// Whether spans and events of this level and target are collected:
    /// the level is at most as verbose as the collector's, and the target
    /// starts with the collector's prefix.
    pub fn enabled(&self, level: &Level, target: &str) -> (yes: bool)
        ensures
            yes == (level.at_most(self@.level) && self@.prefix.is_prefix_of(target@)),
    {
        level.le(self.level) && has_prefix(target, self.prefix.as_str())
    }

    /// The identifier that the next span gets.
    pub fn next_span_id(&self) -> (id: u64)
        ensures
            id == self@.next_span_id,
    {
        self.span_id
    }

    /// The registered span with this identifier.
    pub fn span(&self, id: u64) -> (span: Option<&Span>)
        requires
            self.wf(),
        ensures
            match span {
                Some(s) => self@.spans.contains_key(id) && s@ == self@.spans[id] && s.wf(),
                None => !self@.spans.contains_key(id),
            },
    {
        self.spans.get(&id)
    }

    /// The spans created under a live trace, in the order of their
    /// creation.
    pub fn trace(&self, trace_id: u64) -> (list: Option<&Vec<u64>>)
        ensures
            match list {
                Some(l) => self@.traces.contains_key(trace_id) && l@ == self@.traces[trace_id],
                None => !self@.traces.contains_key(trace_id),
            },
    {
        self.traces.get(&trace_id)
    }

    /// The number of registered spans.
    pub fn span_count(&self) -> (count: usize)
        ensures
            count == self@.spans.len(),
    {
        assert(self@.spans.dom() =~= self.spans@.dom());
        self.spans.len()
    }

    /// The number of live traces.
    pub fn trace_count(&self) -> (count: usize)
        ensures
            count == self@.traces.len(),
    {
        assert(self@.traces.dom() =~= self.traces@.dom());
        self.traces.len()
    }
}

} // verus!
