//! Span records and the spans that are handed out for export.

use crate::clock::unix_nanos;
use crate::field::{Attributes, Field, FieldValue};
use crate::tags::Tags;
use crate::text::{has_prefix, same_text};
use vstd::prelude::*;
use vstd::string::*;

verus! {

/// The tag key under which a field of a span is stored: a leading `grpc_`
/// becomes `grpc.`, any other name is kept.
pub open spec fn tag_key(name: Seq<char>) -> Seq<char> {
    if "grpc_"@.is_prefix_of(name) {
        "grpc."@ + name.skip(5)
    } else {
        name
    }
}

/// The tags after one field was recorded on a span. A value that is no
/// string is dropped when its field is named `callsite`.
pub open spec fn record_one(tags: Map<Seq<char>, Seq<char>>, field: Field) -> Map<
    Seq<char>,
    Seq<char>,
> {
    match field.value {
        FieldValue::Str(text) => tags.insert(tag_key(field.name@), text@),
        FieldValue::Debug(text) => if field.name@ == "callsite"@ {
            tags
        } else {
            tags.insert(tag_key(field.name@), text@)
        },
    }
}

/// The tags after a sequence of fields was recorded on a span, first to
/// last.
pub open spec fn recorded(tags: Map<Seq<char>, Seq<char>>, fields: Seq<Field>) -> Map<
    Seq<char>,
    Seq<char>,
>
    decreases fields.len(),
{
    if fields.len() == 0 {
        tags
    } else {
        record_one(recorded(tags, fields.drop_last()), fields.last())
    }
}

/// The duration that closing at `now` gives a span entered at `start`: the
/// time between the two, zero for a span that was never entered, and none
/// where the clock went backwards.
pub open spec fn closing_duration(start: Option<nat>, now: nat) -> Option<nat> {
    match start {
        None => Some(0nat),
        Some(s) => if s <= now {
            Some((now - s) as nat)
        } else {
            None
        },
    }
}

/// The fixed kind that every exported span carries.
pub open spec fn span_kind() -> Seq<char> {
    "web"@
}

/// What a span is, as plain values.
pub struct SpanView {
    pub parent: Option<u64>,
    pub trace_id: u64,
    pub handlers: nat,
    pub name: Seq<char>,
    pub resource: Seq<char>,
    pub start: Option<nat>,
    pub duration: Option<nat>,
    pub tags: Map<Seq<char>, Seq<char>>,
}

/// What an exported span is, as plain values.
pub struct ExportedSpanView {
    pub id: u64,
    pub parent_id: Option<u64>,
    pub name: Seq<char>,
    pub resource: Seq<char>,
    pub kind: Seq<char>,
    pub start: nat,
    pub duration: nat,
    pub tags: Map<Seq<char>, Seq<char>>,
}

impl SpanView {
    /// The span after it was entered at `now`: the first entry sets the
    /// start, a later one changes nothing.
    pub open spec fn entered(self, now: nat) -> SpanView {
        SpanView { start: if self.start is None { Some(now) } else { self.start }, ..self }
    }

    /// The span after its duration was finalized at `now`.
    pub open spec fn finalized(self, now: nat) -> SpanView {
        SpanView { duration: closing_duration(self.start, now), ..self }
    }

    /// The span after one more handle was taken.
    pub open spec fn cloned(self) -> SpanView {
        SpanView { handlers: self.handlers + 1, ..self }
    }

    /// The span after one handle was dropped; the count never goes below
    /// zero.
    pub open spec fn dropped(self) -> SpanView {
        SpanView { handlers: if self.handlers > 0 { (self.handlers - 1) as nat } else { 0 }, ..self }
    }

    /// The span with one tag set.
    pub open spec fn tagged(self, name: Seq<char>, value: Seq<char>) -> SpanView {
        SpanView { tags: self.tags.insert(name, value), ..self }
    }

    /// The span after fields were recorded on it.
    pub open spec fn with_fields(self, fields: Seq<Field>) -> SpanView {
        SpanView { tags: recorded(self.tags, fields), ..self }
    }

    /// The span as it is exported under `id` at `now`. A span that was never
    /// entered starts at `now`; one without a duration lasts until `now`, or
    /// not at all where `now` lies before its start.
    pub open spec fn exported(self, id: u64, now: nat) -> ExportedSpanView {
        let start = match self.start {
            Some(s) => s,
            None => now,
        };
        let duration = match self.duration {
            Some(d) => d,
            None => if start <= now {
                (now - start) as nat
            } else {
                0nat
            },
        };
        ExportedSpanView {
            id,
            parent_id: self.parent,
            name: self.name,
            resource: self.resource,
            kind: span_kind(),
            start,
            duration,
            tags: self.tags,
        }
    }
}

fn tag_key_of(name: &str) -> (key: String)
    ensures
        key@ == tag_key(name@),
{
    if has_prefix(name, "grpc_") {
        proof {
            reveal_strlit("grpc_");
        }
        let len: usize = name.unicode_len();
        let rest = name.substring_char(5, len);
        let key = String::from_str("grpc.").concat(rest);
        assert(key@ =~= "grpc."@ + name@.skip(5));
        key
    } else {
        String::from_str(name)
    }
}

/// Name, resource, times and tags of a span.
#[derive(Debug)]
pub struct SpanData {
    name: String,
    resource: String,
    start: Option<u128>,
    duration: Option<u128>,
    tags: Tags,
}

impl SpanData {
    /// Data of a span that was not entered yet and has no tags.
    pub fn new(name: &str, resource: &str) -> (data: SpanData)
        ensures
            data.wf(),
            data.name_text() == name@,
            data.resource_text() == resource@,
            data.start_time() is None,
            data.duration_time() is None,
            data.tag_map() == Map::<Seq<char>, Seq<char>>::empty(),
    {
        SpanData {
            name: String::from_str(name),
            resource: String::from_str(resource),
            start: None,
            duration: None,
            tags: Tags::new(),
        }
    }

    /// The invariant of the type: that of its tags.
    pub closed spec fn wf(&self) -> bool {
        self.tags.wf()
    }

    /// The name of the span.
    pub closed spec fn name_text(&self) -> Seq<char> {
        self.name@
    }

    /// The resource that the span works on: the target it was declared
    /// under.
    pub closed spec fn resource_text(&self) -> Seq<char> {
        self.resource@
    }

    /// When the span was first entered, in nanoseconds since the UNIX
    /// epoch.
    pub closed spec fn start_time(&self) -> Option<nat> {
        match self.start {
            Some(s) => Some(s as nat),
            None => None,
        }
    }

    /// How long the span lasted, in nanoseconds, once it is closed.
    pub closed spec fn duration_time(&self) -> Option<nat> {
        match self.duration {
            Some(d) => Some(d as nat),
            None => None,
        }
    }

    /// The tags of the span.
    pub closed spec fn tag_map(&self) -> Map<Seq<char>, Seq<char>> {
        self.tags@
    }
}

/// A live span: its place in the trace, the number of handles on it, and
/// its data.
#[derive(Debug)]
pub struct Span {
    pub parent: Option<u64>,
    pub trace_id: u64,
    handlers: u64,
    data: SpanData,
}

impl View for Span {
    type V = SpanView;

    closed spec fn view(&self) -> SpanView {
        SpanView {
            parent: self.parent,
            trace_id: self.trace_id,
            handlers: self.handlers as nat,
            name: self.data.name_text(),
            resource: self.data.resource_text(),
            start: self.data.start_time(),
            duration: self.data.duration_time(),
            tags: self.data.tag_map(),
        }
    }
}

/// A span as it leaves the collector.
#[derive(Debug)]
pub struct ExportedSpan {
    pub id: u64,
    pub parent_id: Option<u64>,
    pub name: String,
    pub resource: String,
    pub kind: String,
    pub start: u128,
    pub duration: u128,
    pub tags: Tags,
}

impl View for ExportedSpan {
    type V = ExportedSpanView;

    open spec fn view(&self) -> ExportedSpanView {
        ExportedSpanView {
            id: self.id,
            parent_id: self.parent_id,
            name: self.name@,
            resource: self.resource@,
            kind: self.kind@,
            start: self.start as nat,
            duration: self.duration as nat,
            tags: self.tags@,
        }
    }
}

impl Span {
    /// The invariant of the type: that of its tags.
    pub closed spec fn wf(&self) -> bool {
        self.data.wf()
    }

    /// The span under which this one was created, if there was one.
    pub fn parent(&self) -> (parent: Option<u64>)
        ensures
            parent == self@.parent,
    {
        self.parent
    }

    /// The trace that the span belongs to.
    pub fn trace_id(&self) -> (trace_id: u64)
        ensures
            trace_id == self@.trace_id,
    {
        self.trace_id
    }

    /// A span named and tagged as `attrs` says, with one handle on it.
    pub fn new(parent: Option<u64>, trace_id: u64, attrs: &Attributes) -> (span: Span)
        ensures
            span.wf(),
            span@ == (SpanView {
                parent,
                trace_id,
                handlers: 1,
                name: attrs.name@,
                resource: attrs.target@,
                start: None,
                duration: None,
                tags: recorded(Map::empty(), attrs.fields@),
            }),
    {
        let mut span = Span {
            parent,
            trace_id,
            handlers: 1,
            data: SpanData::new(attrs.name.as_str(), attrs.target.as_str()),
        };
        span.record(&attrs.fields);
        span
    }

    /// Records fields on the span, first to last.
    pub fn record(&mut self, fields: &Vec<Field>)
        requires
            old(self).wf(),
        ensures
            final(self).wf(),
            final(self)@ == old(self)@.with_fields(fields@),
    {
        let mut i: usize = 0;
        while i < fields.len()
            invariant
                i <= fields.len(),
                self.wf(),
                self@ == old(self)@.with_fields(fields@.take(i as int)),
            decreases fields.len() - i,
        {
            proof {
                assert(fields@.take(i + 1).drop_last() =~= fields@.take(i as int));
            }
            match &fields[i].value {
                FieldValue::Str(text) => {
                    self.record_str(fields[i].name.as_str(), text.as_str());
                },
                FieldValue::Debug(text) => {
                    self.record_debug(fields[i].name.as_str(), text.as_str());
                },
            }
            i += 1;
        }
        proof {
            assert(fields@.take(fields.len() as int) =~= fields@);
        }
    }

    /// Records a string field: stores the value under the tag key of the
    /// field's name.
    pub fn record_str(&mut self, name: &str, value: &str)
        requires
            old(self).wf(),
        ensures
            final(self).wf(),
            final(self)@ == old(self)@.tagged(tag_key(name@), value@),
    {
        self.data.tags.insert(tag_key_of(name), String::from_str(value));
    }

    /// Records a field that is no string, given the pretty debug rendering
    /// of its value: stores the rendering under the tag key of the field's
    /// name, unless the field is named `callsite`.
    pub fn record_debug(&mut self, name: &str, rendered: &str)
        requires
            old(self).wf(),
        ensures
            final(self).wf(),
            final(self)@ == if name@ == "callsite"@ {
                old(self)@
            } else {
                old(self)@.tagged(tag_key(name@), rendered@)
            },
    {
        if !same_text(name, "callsite") {
            self.data.tags.insert(tag_key_of(name), String::from_str(rendered));
        }
    }

    /// Sets a tag under the given name, as it is.
    pub fn set_tag(&mut self, name: String, value: String)
        requires
            old(self).wf(),
        ensures
            final(self).wf(),
            final(self)@ == old(self)@.tagged(name@, value@),
    {
        self.data.tags.insert(name, value);
    }

    /// Marks the span as entered at `now`.
    pub fn set_time_at(&mut self, now: u128)
        ensures
            final(self).wf() == old(self).wf(),
            final(self)@ == old(self)@.entered(now as nat),
    {
        if self.data.start.is_none() {
            self.data.start = Some(now);
        }
    }

    /// Marks the span as entered now, by the system clock.
    pub fn set_time(&mut self)
        ensures
            final(self).wf() == old(self).wf(),
            exists|now: nat| final(self)@ == #[trigger] old(self)@.entered(now),
    {
        let now: u128 = unix_nanos();
        self.set_time_at(now);
    }

    /// Finalizes the duration of the span at `now`.
    pub fn set_duration_at(&mut self, now: u128)
        ensures
            final(self).wf() == old(self).wf(),
            final(self)@ == old(self)@.finalized(now as nat),
    {
        self.data.duration = match self.data.start {
            None => Some(0),
            Some(start) => if start <= now {
                Some(now - start)
            } else {
                None
            },
        };
    }

    /// Finalizes the duration of the span now, by the system clock.
    pub fn set_duration(&mut self)
        ensures
            final(self).wf() == old(self).wf(),
            exists|now: nat| final(self)@ == #[trigger] old(self)@.finalized(now),
    {
        let now: u128 = unix_nanos();
        self.set_duration_at(now);
    }

    /// The name of the span.
    pub fn name(&self) -> (name: &str)
        ensures
            name@ == self@.name,
    {
        self.data.name.as_str()
    }

    /// The number of handles on the span.
    pub fn handlers(&self) -> (count: u64)
        ensures
            count == self@.handlers,
    {
        self.handlers
    }

    /// Counts one more handle.
    pub fn increment_handlers(&mut self)
        requires
            old(self)@.handlers < u64::MAX,
        ensures
            final(self).wf() == old(self).wf(),
            final(self)@ == old(self)@.cloned(),
    {
        self.handlers += 1
    }

    /// Counts one handle less, but never below zero.
    pub fn decrement_handlers(&mut self)
        ensures
            final(self).wf() == old(self).wf(),
            final(self)@ == old(self)@.dropped(),
    {
        if self.handlers > 0 {
            self.handlers -= 1
        }
    }

    /// Whether no handle is left on the span.
    pub fn is_closed(&self) -> (closed: bool)
        ensures
            closed == (self@.handlers == 0),
    {
        self.handlers == 0
    }

    /// Turns the span into the record that is exported under `id`, with
    /// `now` standing in for a start or a duration that was never set.
    pub fn into_at(id: u64, span: Span, now: u128) -> (out: ExportedSpan)
        requires
            span.wf(),
        ensures
            out.tags.wf(),
            out@ == span@.exported(id, now as nat),
    {
        let Span { parent, data, .. } = span;
        let start: u128 = match data.start {
            Some(s) => s,
            None => now,
        };
        let duration: u128 = match data.duration {
            Some(d) => d,
            None => if start <= now {
                now - start
            } else {
                0
            },
        };
        ExportedSpan {
            id,
            parent_id: parent,
            name: data.name,
            resource: data.resource,
            kind: String::from_str("web"),
            start,
            duration,
            tags: data.tags,
        }
    }

    /// Turns the span into the record that is exported under `id`, reading
    /// the system clock for a start or a duration that was never set.
    pub fn into(id: u64, span: Span) -> (out: ExportedSpan)
        requires
            span.wf(),
        ensures
            out.tags.wf(),
            exists|now: nat| out@ == #[trigger] span@.exported(id, now),
    {
        let now: u128 = unix_nanos();
        Span::into_at(id, span, now)
    }
}

} // verus!
