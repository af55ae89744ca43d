//! Trace and span identifiers, and the ancestry pair supplied at collection
//! time.

use vstd::prelude::*;

verus! {

/// Identifies one end-to-end trace; all records of one collection share it.
#[derive(Clone, Copy, PartialEq, Eq, Structural, Debug)]
pub struct TraceId(pub u128);

/// Identifies one span within a trace; assigned by the collector, not by the
/// caller.
#[derive(Clone, Copy, PartialEq, Eq, Structural, Debug)]
pub struct SpanId(pub u64);

/// The trace/span pair supplied at collection time: every record is stamped
/// with `trace_id`, and `span_id` becomes the parent of the spans that have
/// no recorded parent of their own.
#[derive(Clone, Copy, PartialEq, Eq, Structural, Debug)]
pub struct SpanContext {
    pub trace_id: TraceId,
    pub span_id: SpanId,
}

impl SpanContext {
    pub fn new(trace_id: TraceId, span_id: SpanId) -> (ctx: SpanContext)
        ensures
            ctx.trace_id == trace_id,
            ctx.span_id == span_id,
    {
        SpanContext { trace_id, span_id }
    }
}

} // verus!
