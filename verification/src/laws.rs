//! What holds of the collector's state machine: its operations keep the
//! invariant, and a completed trace is made of the spans that were created
//! under it.

use crate::field::Attributes;
use crate::level::Level;
use crate::model::{assembled, CollectorView};
use crate::span::SpanView;
use vstd::prelude::*;

verus! {

/// A collector that has seen nothing yet meets the invariant, and its
/// traces, of which there are none, are rooted.
pub proof fn initial_is_wf(level: Level, prefix: Seq<char>, sample_rate: u32)
    ensures
        CollectorView::initial(level, prefix, sample_rate).wf(),
        CollectorView::initial(level, prefix, sample_rate).rooted(),
{
}

/// Creating a span keeps the invariant, as long as an identifier is left
/// for it.
pub proof fn span_keeps_wf(c: CollectorView, stack: Seq<u64>, attrs: Attributes, fresh: u64)
    requires
        c.wf(),
        c.next_span_id < u64::MAX,
    ensures
        c.with_span(stack, attrs, fresh).wf(),
{
    let next = c.with_span(stack, attrs, fresh);
    let id = c.next_span_id as u64;
    let t = c.trace_for(stack, fresh);
    let list = c.list_of(t);
    let grown = list.push(id);
    assert(!c.spans.contains_key(id)) by {
        if c.spans.contains_key(id) {
            assert(c.span_ok(id));
        }
    }
    assert forall|i: int| 0 <= i < list.len() implies list[i] != id by {
        assert(c.entry_ok(t, i));
    }
    assert(grown[list.len() as int] == id);
    assert forall|x: u64| #[trigger] next.spans.contains_key(x) implies next.span_ok(x) by {
        if x == id {
            assert(next.traces[t] == grown);
        } else {
            assert(c.span_ok(x));
            let tx = c.spans[x].trace_id;
            let at = choose|i: int| 0 <= i < c.traces[tx].len() && c.traces[tx][i] == x;
            if tx == t {
                assert(grown[at] == x);
            }
        }
    }
    assert forall|tr: u64, i: int|
        next.traces.contains_key(tr) && 0 <= i < next.traces[tr].len() implies #[trigger] next.entry_ok(
        tr,
        i,
    ) by {
        if tr == t {
            if i < list.len() {
                assert(c.entry_ok(t, i));
            }
        } else {
            assert(c.entry_ok(tr, i));
        }
    }
    assert forall|tr: u64| #[trigger] next.traces.contains_key(tr) implies next.traces[tr].no_duplicates() by {
        if tr == t {
            if c.traces.contains_key(t) {
                assert(c.traces[t].no_duplicates());
            }
        } else {
            assert(c.traces[tr].no_duplicates());
        }
    }
}

/// Creating a span keeps each trace rooted, unless a span without a parent
/// is given the identifier of a live trace.
pub proof fn span_keeps_rooted(c: CollectorView, stack: Seq<u64>, attrs: Attributes, fresh: u64)
    requires
        c.wf(),
        c.rooted(),
        c.next_span_id < u64::MAX,
        c.parent_for(stack) is Some || !c.traces.contains_key(fresh),
    ensures
        c.with_span(stack, attrs, fresh).rooted(),
{
    let next = c.with_span(stack, attrs, fresh);
    let id = c.next_span_id as u64;
    let t = c.trace_for(stack, fresh);
    let list = c.list_of(t);
    assert(!c.spans.contains_key(id)) by {
        if c.spans.contains_key(id) {
            assert(c.span_ok(id));
        }
    }
    if c.parent_for(stack) is Some {
        assert(c.span_ok(c.parent_for(stack)->0));
    }
    assert forall|tr: u64| #[trigger] next.traces.contains_key(tr) implies {
        &&& next.traces[tr].len() > 0
        &&& forall|i: int|
            0 <= i < next.traces[tr].len() ==> (#[trigger] next.spans[next.traces[tr][i]].parent
                is None <==> i == 0)
    } by {
        assert forall|i: int| 0 <= i < next.traces[tr].len() implies (
        #[trigger] next.spans[next.traces[tr][i]].parent is None <==> i == 0) by {
            if tr == t && i == list.len() {
            } else {
                assert(c.traces.contains_key(tr));
                assert(c.entry_ok(tr, i));
                assert(c.spans[c.traces[tr][i]].parent is None <==> i == 0);
            }
        }
    }
}

/// A change to a span that keeps its parent and its trace keeps the
/// invariant, and keeps each trace rooted.
pub proof fn change_keeps_wf(c: CollectorView, id: u64, changed: SpanView)
    requires
        c.wf(),
        c.spans.contains_key(id) ==> changed.parent == c.spans[id].parent && changed.trace_id
            == c.spans[id].trace_id,
    ensures
        c.with_changed(id, changed).wf(),
        c.rooted() ==> c.with_changed(id, changed).rooted(),
{
    let next = c.with_changed(id, changed);
    if c.spans.contains_key(id) {
        assert forall|x: u64| #[trigger] next.spans.contains_key(x) implies next.span_ok(x) by {
            assert(c.span_ok(x));
        }
        assert forall|tr: u64, i: int|
            next.traces.contains_key(tr) && 0 <= i < next.traces[tr].len() implies #[trigger] next.entry_ok(
            tr,
            i,
        ) by {
            assert(c.entry_ok(tr, i));
        }
        if c.rooted() {
            assert forall|tr: u64| #[trigger] next.traces.contains_key(tr) implies {
                &&& next.traces[tr].len() > 0
                &&& forall|i: int|
                    0 <= i < next.traces[tr].len() ==> (
                    #[trigger] next.spans[next.traces[tr][i]].parent is None <==> i == 0)
            } by {
                assert(c.traces.contains_key(tr));
                assert forall|i: int| 0 <= i < next.traces[tr].len() implies (
                #[trigger] next.spans[next.traces[tr][i]].parent is None <==> i == 0) by {
                    assert(c.spans[c.traces[tr][i]].parent is None <==> i == 0);
                }
            }
        }
    }
}

/// Dropping a handle keeps the invariant, and keeps each trace rooted.
pub proof fn close_keeps_wf(c: CollectorView, id: u64, now: nat)
    requires
        c.wf(),
    ensures
        c.with_drop(id, now).wf(),
        c.with_close(id, now).wf(),
        c.rooted() ==> c.with_close(id, now).rooted(),
{
    let dropped = c.with_drop(id, now);
    if c.spans.contains_key(id) {
        change_keeps_wf(c, id, c.spans[id].dropped().finalized(now));
        change_keeps_wf(c, id, c.spans[id].dropped());
    }
    if c.completes(id) {
        let next = c.with_close(id, now);
        let t = c.spans[id].trace_id;
        let list = c.traces[t];
        assert forall|x: u64| #[trigger] next.spans.contains_key(x) implies next.span_ok(x) by {
            assert(dropped.span_ok(x));
            let tx = dropped.spans[x].trace_id;
            assert(tx != t);
            match dropped.spans[x].parent {
                Some(p) => {
                    if list.contains(p) {
                        let at = choose|i: int| 0 <= i < list.len() && list[i] == p;
                        assert(dropped.entry_ok(t, at));
                    }
                },
                None => {},
            }
        }
        assert forall|tr: u64, i: int|
            next.traces.contains_key(tr) && 0 <= i < next.traces[tr].len() implies #[trigger] next.entry_ok(
            tr,
            i,
        ) by {
            assert(dropped.entry_ok(tr, i));
            let e = dropped.traces[tr][i];
            if list.contains(e) {
                let at = choose|j: int| 0 <= j < list.len() && list[j] == e;
                assert(dropped.entry_ok(t, at));
            }
        }
        if c.rooted() {
            assert(dropped.rooted());
            assert forall|tr: u64| #[trigger] next.traces.contains_key(tr) implies {
                &&& next.traces[tr].len() > 0
                &&& forall|i: int|
                    0 <= i < next.traces[tr].len() ==> (
                    #[trigger] next.spans[next.traces[tr][i]].parent is None <==> i == 0)
            } by {
                assert(dropped.traces.contains_key(tr));
                assert forall|i: int| 0 <= i < next.traces[tr].len() implies (
                #[trigger] next.spans[next.traces[tr][i]].parent is None <==> i == 0) by {
                    assert(next.entry_ok(tr, i));
                    assert(dropped.spans[dropped.traces[tr][i]].parent is None <==> i == 0);
                }
            }
        }
    }
}

/// Where every span of the list is registered, each is assembled, in the
/// order of the list.
pub proof fn assembled_all(list: Seq<u64>, spans: Map<u64, SpanView>, now: nat)
    requires
        forall|i: int| 0 <= i < list.len() ==> spans.contains_key(#[trigger] list[i]),
    ensures
        assembled(list, spans, now).len() == list.len(),
        forall|i: int|
            0 <= i < list.len() ==> #[trigger] assembled(list, spans, now)[i] == spans[list[i]].exported(
                list[i],
                now,
            ),
    decreases list.len(),
{
    if list.len() > 0 {
        let front = list.drop_last();
        assert forall|i: int| 0 <= i < front.len() implies spans.contains_key(
            #[trigger] front[i],
        ) by {
            assert(front[i] == list[i]);
        }
        assembled_all(front, spans, now);
        assert(spans.contains_key(list[list.len() - 1]));
    }
}

/// A completed trace holds the spans listed under it, each once and in the
/// order of the list, as they are after the last handle was dropped.
pub proof fn completed_trace_is_list(c: CollectorView, id: u64, now: nat, draw: u32)
    requires
        c.wf(),
        c.completes(id),
    ensures
        ({
            let trace = c.completed(id, now, draw)->0;
            let list = c.traces[c.spans[id].trace_id];
            let spans = c.with_drop(id, now).spans;
            &&& trace.id == c.spans[id].trace_id
            &&& trace.spans.len() == list.len()
            &&& forall|i: int|
                0 <= i < list.len() ==> spans.contains_key(list[i]) && #[trigger] trace.spans[i]
                    == spans[list[i]].exported(list[i], now)
        }),
{
    let t = c.spans[id].trace_id;
    let list = c.traces[t];
    let spans = c.with_drop(id, now).spans;
    assert forall|i: int| 0 <= i < list.len() implies spans.contains_key(#[trigger] list[i]) by {
        assert(c.entry_ok(t, i));
    }
    assembled_all(list, spans, now);
}

/// No span occurs twice in a completed trace.
pub proof fn completed_spans_are_distinct(
    c: CollectorView,
    id: u64,
    now: nat,
    draw: u32,
    i: int,
    j: int,
)
    requires
        c.wf(),
        c.completes(id),
        0 <= i < j < c.completed(id, now, draw)->0.spans.len(),
    ensures
        c.completed(id, now, draw)->0.spans[i].id != c.completed(id, now, draw)->0.spans[j].id,
{
    completed_trace_is_list(c, id, now, draw);
    let list = c.traces[c.spans[id].trace_id];
    assert(list.no_duplicates());
    let trace = c.completed(id, now, draw)->0;
    assert(trace.spans[i].id == list[i]);
    assert(trace.spans[j].id == list[j]);
}

/// In a collector whose traces are rooted, a completed trace starts with
/// the root span whose last handle was dropped: the first span that was
/// created under the trace.
pub proof fn completed_trace_starts_with_root(c: CollectorView, id: u64, now: nat, draw: u32)
    requires
        c.wf(),
        c.rooted(),
        c.completes(id),
    ensures
        c.completed(id, now, draw)->0.spans.len() > 0,
        c.completed(id, now, draw)->0.spans[0].id == id,
        c.completed(id, now, draw)->0.spans[0].parent_id is None,
        c.traces[c.spans[id].trace_id][0] == id,
{
    completed_trace_is_list(c, id, now, draw);
    let t = c.spans[id].trace_id;
    let list = c.traces[t];
    assert(c.span_ok(id));
    let at = choose|i: int| 0 <= i < list.len() && list[i] == id;
    assert(c.spans[list[at]].parent is None <==> at == 0);
    let trace = c.completed(id, now, draw)->0;
    assert(trace.spans[0].id == list[0]);
}

/// The parent of a span of a completed trace is a span of that trace.
pub proof fn completed_parent_is_in_trace(c: CollectorView, id: u64, now: nat, draw: u32, i: int)
    requires
        c.wf(),
        c.completes(id),
        0 <= i < c.completed(id, now, draw)->0.spans.len(),
        c.completed(id, now, draw)->0.spans[i].parent_id is Some,
    ensures
        exists|j: int|
            0 <= j < c.completed(id, now, draw)->0.spans.len() && #[trigger] c.completed(
                id,
                now,
                draw,
            )->0.spans[j].id == c.completed(id, now, draw)->0.spans[i].parent_id->0,
{
    completed_trace_is_list(c, id, now, draw);
    close_keeps_wf(c, id, now);
    let dropped = c.with_drop(id, now);
    let t = c.spans[id].trace_id;
    let list = c.traces[t];
    let trace = c.completed(id, now, draw)->0;
    assert(dropped.entry_ok(t, i));
    assert(dropped.span_ok(list[i]));
    let p = dropped.spans[list[i]].parent->0;
    assert(trace.spans[i].parent_id == Some(p));
    assert(dropped.span_ok(p));
    let j = choose|j: int| 0 <= j < list.len() && list[j] == p;
    assert(trace.spans[j].id == p);
}

/// A completed trace leaves as a whole: it is no longer in the index, and
/// no span of it stays registered, closed or not.
pub proof fn completed_trace_leaves_whole(c: CollectorView, id: u64, now: nat, x: u64)
    requires
        c.wf(),
        c.completes(id),
        c.with_close(id, now).spans.contains_key(x),
    ensures
        !c.with_close(id, now).traces.contains_key(c.spans[id].trace_id),
        c.with_close(id, now).spans[x].trace_id != c.spans[id].trace_id,
        !c.traces[c.spans[id].trace_id].contains(x),
{
    close_keeps_wf(c, id, now);
    assert(c.with_drop(id, now).span_ok(x));
}

/// The parent of a registered span is registered and belongs to the same
/// trace.
pub proof fn parent_shares_trace(c: CollectorView, id: u64)
    requires
        c.wf(),
        c.spans.contains_key(id),
        c.spans[id].parent is Some,
    ensures
        c.spans.contains_key(c.spans[id].parent->0),
        c.spans[c.spans[id].parent->0].trace_id == c.spans[id].trace_id,
{
    assert(c.span_ok(id));
}

/// Dropping a handle on a span that has none left changes nothing, closes
/// nothing and completes no trace.
pub proof fn closed_span_stays(c: CollectorView, id: u64, now: nat, draw: u32)
    requires
        c.spans.contains_key(id),
        c.spans[id].handlers == 0,
    ensures
        c.with_close(id, now) == c,
        !c.closes(id),
        c.completed(id, now, draw) is None,
{
}

/// A span is created in the trace of the registered span that the thread
/// is in.
pub proof fn child_joins_trace(c: CollectorView, stack: Seq<u64>, attrs: Attributes, fresh: u64)
    requires
        c.wf(),
        c.next_span_id < u64::MAX,
        c.parent_for(stack) is Some,
    ensures
        ({
            let next = c.with_span(stack, attrs, fresh);
            let id = c.next_span_id as u64;
            let parent = c.parent_for(stack)->0;
            &&& next.spans[id].parent == Some(parent)
            &&& next.spans[id].trace_id == next.spans[parent].trace_id
            &&& next.traces[next.spans[id].trace_id].last() == id
        }),
{
    let id = c.next_span_id as u64;
    let parent = c.parent_for(stack)->0;
    assert(c.span_ok(parent));
}

} // verus!
