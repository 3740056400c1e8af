//! The collector as a mathematical state machine: its state as plain
//! values, each operation as a function on states, and the invariant that
//! the operations keep.

use crate::event::{id_text, EventView};
use crate::field::{Attributes, Field};
use crate::level::Level;
use crate::rate::decision;
use crate::span::{recorded, ExportedSpanView, SpanView};
use vstd::prelude::*;

verus! {

/// The span that a thread is in: the top of its stack of entered spans.
pub open spec fn current_span(stack: Seq<u64>) -> Option<u64> {
    if stack.len() > 0 {
        Some(stack.last())
    } else {
        None
    }
}

/// The entries of an event's data that are copied to the enclosing span:
/// those whose key starts with `error`.
pub open spec fn error_entries(data: Map<Seq<char>, Seq<char>>) -> Map<Seq<char>, Seq<char>> {
    data.restrict(Set::new(|key: Seq<char>| "error"@.is_prefix_of(key)))
}

/// The spans of `list` that are registered, each as it is exported at
/// `now`, in the order of the list.
pub open spec fn assembled(list: Seq<u64>, spans: Map<u64, SpanView>, now: nat) -> Seq<
    ExportedSpanView,
>
    decreases list.len(),
{
    if list.len() == 0 {
        Seq::empty()
    } else {
        let before = assembled(list.drop_last(), spans, now);
        let id = list.last();
        if spans.contains_key(id) {
            before.push(spans[id].exported(id, now))
        } else {
            before
        }
    }
}

/// A complete trace as it is handed to the exporter, as plain values.
pub struct TraceView {
    pub id: u64,
    pub priority: u32,
    pub spans: Seq<ExportedSpanView>,
}

/// The state of a collector, as plain values.
pub struct CollectorView {
    /// The most verbose level that is collected.
    pub level: Level,
    /// The prefix that collected targets start with.
    pub prefix: Seq<char>,
    /// The sample rate, as a bit pattern.
    pub sample_rate: u32,
    /// The span registry: every live span under its identifier.
    pub spans: Map<u64, SpanView>,
    /// The trace index: for each live trace the spans created under it, in
    /// the order of their creation.
    pub traces: Map<u64, Seq<u64>>,
    /// The identifier that the next span gets.
    pub next_span_id: nat,
}

impl CollectorView {
    /// The state of a collector that has seen nothing yet.
    pub open spec fn initial(level: Level, prefix: Seq<char>, sample_rate: u32) -> CollectorView {
        CollectorView {
            level,
            prefix,
            sample_rate,
            spans: Map::empty(),
            traces: Map::empty(),
            next_span_id: 1,
        }
    }

    /// Whether `id` is listed under the trace `trace_id`.
    pub open spec fn listed(self, trace_id: u64, id: u64) -> bool {
        self.traces.contains_key(trace_id) && self.traces[trace_id].contains(id)
    }

    /// What holds of every registered span: its identifier was handed out,
    /// it is listed under its trace, and its parent, if it has one, is
    /// registered and belongs to the same trace.
    pub open spec fn span_ok(self, id: u64) -> bool {
        &&& id < self.next_span_id
        &&& self.listed(self.spans[id].trace_id, id)
        &&& match self.spans[id].parent {
            Some(p) => self.spans.contains_key(p) && self.spans[p].trace_id
                == self.spans[id].trace_id,
            None => true,
        }
    }

    /// What holds of every entry of the trace index: the span is registered
    /// and carries the trace's identifier.
    pub open spec fn entry_ok(self, trace_id: u64, i: int) -> bool {
        let id = self.traces[trace_id][i];
        self.spans.contains_key(id) && self.spans[id].trace_id == trace_id
    }

    /// The invariant of the collector.
    pub open spec fn wf(self) -> bool {
        &&& 1 <= self.next_span_id <= u64::MAX
        &&& forall|id: u64| #[trigger] self.spans.contains_key(id) ==> self.span_ok(id)
        &&& forall|t: u64, i: int|
            self.traces.contains_key(t) && 0 <= i < self.traces[t].len() ==> #[trigger] self.entry_ok(
                t,
                i,
            )
        &&& forall|t: u64| #[trigger]
            self.traces.contains_key(t) ==> self.traces[t].no_duplicates()
    }

    /// Each trace starts with a root span and holds no other root. This
    /// holds as long as no root span was given the identifier of a trace
    /// that was live already.
    pub open spec fn rooted(self) -> bool {
        forall|t: u64| #[trigger]
            self.traces.contains_key(t) ==> {
                &&& self.traces[t].len() > 0
                &&& forall|i: int|
                    0 <= i < self.traces[t].len() ==> (#[trigger] self.spans[self.traces[t][i]].parent
                        is None <==> i == 0)
            }
    }

    /// The parent of a span created by a thread with this stack: the span
    /// on top of it, if that span is registered.
    pub open spec fn parent_for(self, stack: Seq<u64>) -> Option<u64> {
        match current_span(stack) {
            Some(p) => if self.spans.contains_key(p) {
                Some(p)
            } else {
                None
            },
            None => None,
        }
    }

    /// The trace of a span created by a thread with this stack: that of its
    /// parent, or `fresh` for a span without one.
    pub open spec fn trace_for(self, stack: Seq<u64>, fresh: u64) -> u64 {
        match self.parent_for(stack) {
            Some(p) => self.spans[p].trace_id,
            None => fresh,
        }
    }

    /// The spans listed under a trace; none for a trace that is not live.
    pub open spec fn list_of(self, trace_id: u64) -> Seq<u64> {
        if self.traces.contains_key(trace_id) {
            self.traces[trace_id]
        } else {
            Seq::empty()
        }
    }

    /// The state after a span was created.
    pub open spec fn with_span(self, stack: Seq<u64>, attrs: Attributes, fresh: u64) -> CollectorView {
        let id = self.next_span_id as u64;
        let trace_id = self.trace_for(stack, fresh);
        let span = SpanView {
            parent: self.parent_for(stack),
            trace_id,
            handlers: 1,
            name: attrs.name@,
            resource: attrs.target@,
            start: None,
            duration: None,
            tags: recorded(Map::empty(), attrs.fields@),
        };
        CollectorView {
            spans: self.spans.insert(id, span),
            traces: self.traces.insert(trace_id, self.list_of(trace_id).push(id)),
            next_span_id: self.next_span_id + 1,
            ..self
        }
    }

    /// The state after `change` was applied to the span `id`; the same
    /// state where no such span is registered.
    pub open spec fn with_changed(self, id: u64, changed: SpanView) -> CollectorView {
        if self.spans.contains_key(id) {
            CollectorView { spans: self.spans.insert(id, changed), ..self }
        } else {
            self
        }
    }

    /// The state after fields were recorded on the span `id`.
    pub open spec fn with_record(self, id: u64, fields: Seq<Field>) -> CollectorView {
        self.with_changed(id, self.spans[id].with_fields(fields))
    }

    /// The state after the span `id` was entered at `now`.
    pub open spec fn with_entry(self, id: u64, now: nat) -> CollectorView {
        self.with_changed(id, self.spans[id].entered(now))
    }

    /// The state after a handle on the span `id` was cloned.
    pub open spec fn with_clone(self, id: u64) -> CollectorView {
        self.with_changed(id, self.spans[id].cloned())
    }

    /// The event that a thread with this stack emits.
    pub open spec fn event_for(self, stack: Seq<u64>, target: Seq<char>, fields: Seq<Field>) -> EventView {
        let parent = self.parent_for(stack);
        EventView {
            event: target,
            function: match parent {
                Some(p) => self.spans[p].name,
                None => Seq::empty(),
            },
            span_id: id_text(current_span(stack)),
            trace_id: id_text(
                match parent {
                    Some(p) => Some(self.spans[p].trace_id),
                    None => None,
                },
            ),
            data: Map::empty(),
        }.with_fields(fields)
    }

    /// The state after an event with this data was emitted at `level`: a
    /// warning or an error leaves its error entries as tags on the span
    /// that the thread is in.
    pub open spec fn with_event(
        self,
        stack: Seq<u64>,
        level: Level,
        data: Map<Seq<char>, Seq<char>>,
    ) -> CollectorView {
        match self.parent_for(stack) {
            Some(p) => if level.is_warning() {
                let span = self.spans[p];
                self.with_changed(
                    p,
                    SpanView { tags: span.tags.union_prefer_right(error_entries(data)), ..span },
                )
            } else {
                self
            },
            None => self,
        }
    }

    /// Whether dropping a handle on `id` closes the span: it is registered
    /// and exactly one handle is left on it.
    pub open spec fn closes(self, id: u64) -> bool {
        self.spans.contains_key(id) && self.spans[id].handlers == 1
    }

    /// Whether dropping a handle on `id` completes a trace: it closes a root
    /// span whose trace is live.
    pub open spec fn completes(self, id: u64) -> bool {
        &&& self.closes(id)
        &&& self.spans[id].parent is None
        &&& self.traces.contains_key(self.spans[id].trace_id)
    }

    /// The state after a handle on `id` was dropped, but before a completed
    /// trace is taken out: the count goes down by one, and the span that
    /// closes gets its duration. A span without handles is left as it is.
    pub open spec fn with_drop(self, id: u64, now: nat) -> CollectorView {
        if self.closes(id) {
            self.with_changed(id, self.spans[id].dropped().finalized(now))
        } else if self.spans.contains_key(id) && self.spans[id].handlers > 0 {
            self.with_changed(id, self.spans[id].dropped())
        } else {
            self
        }
    }

    /// The state after a handle on `id` was dropped at `now`. Where this
    /// completes a trace, the trace leaves the index and its spans leave the
    /// registry.
    pub open spec fn with_close(self, id: u64, now: nat) -> CollectorView {
        let dropped = self.with_drop(id, now);
        if self.completes(id) {
            let trace_id = self.spans[id].trace_id;
            CollectorView {
                spans: dropped.spans.remove_keys(self.traces[trace_id].to_set()),
                traces: self.traces.remove(trace_id),
                ..dropped
            }
        } else {
            dropped
        }
    }

    /// The trace that dropping a handle on `id` at `now` completes, if it
    /// completes one, sampled with `draw`.
    pub open spec fn completed(self, id: u64, now: nat, draw: u32) -> Option<TraceView> {
        if self.completes(id) {
            let trace_id = self.spans[id].trace_id;
            Some(
                TraceView {
                    id: trace_id,
                    priority: decision(self.sample_rate, draw),
                    spans: assembled(self.traces[trace_id], self.with_drop(id, now).spans, now),
                },
            )
        } else {
            None
        }
    }
}

} // verus!
