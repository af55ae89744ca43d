//! The mathematical model of one span-collection context.
//!
//! A context is a stack of entered-but-not-exited spans, a list of finished
//! context-local spans awaiting collection, and a counter from which span
//! identifiers are assigned. Every operation of the executable collector is
//! specified as a function on this model.

use vstd::prelude::*;

verus! {

/// How a span was entered.
#[derive(Clone, Copy, PartialEq, Eq, Structural, Debug)]
pub enum Mechanism {
    /// Context-local scoped entry: the span registers with the ambient
    /// collection context and is recorded when its scope is exited.
    ContextLocal,
    /// Future-attached entry: the span brackets an asynchronous operation via
    /// a combinator. It takes its parent from the context-local chain but
    /// never registers with the collection context, so exiting it records
    /// nothing. That silent drop is the behaviour under study, preserved
    /// deliberately.
    FutureAttached,
}

/// One entered span: the model of a stack frame of the context.
#[verifier::ext_equal]
pub struct FrameView {
    pub span_id: u64,
    /// The span that was current when this one was entered; `None` when no
    /// context-local span was active.
    pub parent: Option<u64>,
    pub name: Seq<char>,
    pub begin_time_unix_ns: u64,
    pub mechanism: Mechanism,
}

/// One finished context-local span, awaiting collection.
#[verifier::ext_equal]
pub struct SpanView {
    pub span_id: u64,
    pub parent: Option<u64>,
    pub name: Seq<char>,
    pub begin_time_unix_ns: u64,
    pub duration_ns: u64,
}

/// The whole state of one collection context.
#[verifier::ext_equal]
pub struct CollectorView {
    /// The next span identifier to assign; identifiers only grow.
    pub next_span_id: u64,
    /// Entered spans, innermost last.
    pub stack: Seq<FrameView>,
    /// Finished context-local spans, in exit order, not yet drained.
    pub finished: Seq<SpanView>,
}

/// The state of a freshly started context.
pub open spec fn spec_start() -> CollectorView {
    CollectorView { next_span_id: 1, stack: Seq::empty(), finished: Seq::empty() }
}

/// The span that is current for parent linkage: the innermost entered span
/// that was entered context-locally. Future-attached frames are invisible to
/// this chain.
pub open spec fn current_local_parent(stack: Seq<FrameView>) -> Option<u64>
    decreases stack.len(),
{
    if stack.len() == 0 {
        None
    } else if stack.last().mechanism is ContextLocal {
        Some(stack.last().span_id)
    } else {
        current_local_parent(stack.drop_last())
    }
}

/// The frame that entering a span from state `c` pushes.
pub open spec fn enter_frame(c: CollectorView, mech: Mechanism, name: Seq<char>, now_ns: u64) -> FrameView {
    FrameView {
        span_id: c.next_span_id,
        parent: current_local_parent(c.stack),
        name: name,
        begin_time_unix_ns: now_ns,
        mechanism: mech,
    }
}

/// Entering a span: a fresh identifier is assigned, the parent is whichever
/// span is current, and the frame goes on the stack. Meaningful only while
/// `c.next_span_id` has room to grow, which every entry operation requires.
pub open spec fn spec_enter(c: CollectorView, mech: Mechanism, name: Seq<char>, now_ns: u64) -> CollectorView {
    CollectorView {
        next_span_id: (c.next_span_id + 1) as u64,
        stack: c.stack.push(enter_frame(c, mech, name, now_ns)),
        finished: c.finished,
    }
}

/// A span's duration once it exits at `end_ns`: elapsed time, or zero if the
/// clock ran backwards.
pub open spec fn dur_ns(begin_ns: u64, end_ns: u64) -> u64 {
    if end_ns >= begin_ns {
        (end_ns - begin_ns) as u64
    } else {
        0
    }
}

/// The finished span that exiting frame `f` at `now_ns` produces.
pub open spec fn finish_frame(f: FrameView, now_ns: u64) -> SpanView {
    SpanView {
        span_id: f.span_id,
        parent: f.parent,
        name: f.name,
        begin_time_unix_ns: f.begin_time_unix_ns,
        duration_ns: dur_ns(f.begin_time_unix_ns, now_ns),
    }
}

/// Exiting the innermost span when it was entered context-locally: the frame
/// leaves the stack and its finished span joins the records awaiting
/// collection.
pub open spec fn spec_exit_local(c: CollectorView, now_ns: u64) -> CollectorView {
    CollectorView {
        next_span_id: c.next_span_id,
        stack: c.stack.drop_last(),
        finished: c.finished.push(finish_frame(c.stack.last(), now_ns)),
    }
}

/// Exiting the innermost span when it was entered future-attached: the frame
/// leaves the stack and nothing is recorded anywhere — the silent drop.
pub open spec fn spec_exit_attached(c: CollectorView, now_ns: u64) -> CollectorView {
    CollectorView { next_span_id: c.next_span_id, stack: c.stack.drop_last(), finished: c.finished }
}

/// Collecting drains the finished spans and leaves everything else in place.
pub open spec fn spec_collect(c: CollectorView) -> CollectorView {
    CollectorView { next_span_id: c.next_span_id, stack: c.stack, finished: Seq::empty() }
}

/// Well-formedness: every identifier in the context was assigned from the
/// counter, so identifiers not yet assigned occur nowhere.
pub open spec fn wf(c: CollectorView) -> bool {
    &&& (forall|i: int| 0 <= i < c.stack.len() ==> (#[trigger] c.stack[i]).span_id < c.next_span_id)
    &&& (forall|i: int| 0 <= i < c.finished.len() ==> (#[trigger] c.finished[i]).span_id < c.next_span_id)
}

} // verus!
