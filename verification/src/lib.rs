//! A span-tracking model for a single-task trace collector.
//!
//! The library models two ways of entering a span around a unit of work:
//! a context-local scoped entry, which registers the span with the ambient
//! collection context, and a future-attached entry, which participates in
//! parent tracking but never registers with the context. The collector
//! accumulates the context-local spans and drains them on demand into span
//! records under a caller-supplied trace/span ancestry pair.

pub mod collector;
pub mod hook;
pub mod ids;
pub mod laws;
pub mod model;
pub mod records;
pub mod scenario;

pub use collector::LocalCollector;
pub use collector::LocalSpans;
pub use hook::PanicHookState;
pub use ids::SpanContext;
pub use ids::SpanId;
pub use ids::TraceId;
pub use records::SpanRecord;
pub use scenario::func_with_trace;
pub use scenario::handle_fetch;
