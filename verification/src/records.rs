//! Span records: the immutable snapshots that collection produces.

use vstd::prelude::*;

use crate::ids::SpanContext;
use crate::ids::SpanId;
use crate::ids::TraceId;
use crate::model::SpanView;

verus! {

/// An immutable snapshot of one finished span, produced at collection time.
/// The properties and events are ordered and possibly empty; nothing in this
/// library ever attaches one, so here they are always empty.
#[derive(Debug)]
pub struct SpanRecord {
    pub trace_id: TraceId,
    pub span_id: SpanId,
    pub parent_id: SpanId,
    pub begin_time_unix_ns: u64,
    pub duration_ns: u64,
    pub name: String,
    pub properties: Vec<(String, String)>,
    pub events: Vec<String>,
}

/// The model of a span record.
#[verifier::ext_equal]
pub struct RecordView {
    pub trace_id: TraceId,
    pub span_id: SpanId,
    pub parent_id: SpanId,
    pub begin_time_unix_ns: u64,
    pub duration_ns: u64,
    pub name: Seq<char>,
    pub properties: Seq<(Seq<char>, Seq<char>)>,
    pub events: Seq<Seq<char>>,
}

impl View for SpanRecord {
    type V = RecordView;

    open spec fn view(&self) -> RecordView {
        RecordView {
            trace_id: self.trace_id,
            span_id: self.span_id,
            parent_id: self.parent_id,
            begin_time_unix_ns: self.begin_time_unix_ns,
            duration_ns: self.duration_ns,
            name: self.name@,
            properties: self.properties@.map_values(|p: (String, String)| (p.0@, p.1@)),
            events: self.events@.map_values(|e: String| e@),
        }
    }
}

/// The record that collection makes of the finished span `s` under the
/// supplied ancestry pair `ctx`: the pair's trace id is stamped on the
/// record, and a span with no recorded parent is parented to the pair's
/// span id.
pub open spec fn record_of(s: SpanView, ctx: SpanContext) -> RecordView {
    RecordView {
        trace_id: ctx.trace_id,
        span_id: SpanId(s.span_id),
        parent_id: match s.parent {
            Some(p) => SpanId(p),
            None => ctx.span_id,
        },
        begin_time_unix_ns: s.begin_time_unix_ns,
        duration_ns: s.duration_ns,
        name: s.name,
        properties: Seq::empty(),
        events: Seq::empty(),
    }
}

/// Law: the ancestry pair supplied at collection time is applied uniformly —
/// every record carries the pair's trace id, every span that finished with a
/// recorded parent keeps it, and every span that finished without one is
/// parented to the pair's span id.
pub proof fn lemma_context_applied_uniformly(spans: Seq<SpanView>, ctx: SpanContext)
    ensures
        forall|i: int| 0 <= i < spans.len() ==> (#[trigger] record_of(spans[i], ctx)).trace_id
            == ctx.trace_id,
        forall|i: int| 0 <= i < spans.len() && spans[i].parent is None ==> (#[trigger] record_of(
            spans[i],
            ctx,
        )).parent_id == ctx.span_id,
        forall|i: int| 0 <= i < spans.len() && spans[i].parent is Some ==> (#[trigger] record_of(
            spans[i],
            ctx,
        )).parent_id == SpanId(spans[i].parent->0),
{
}

} // verus!
