//! The span life cycle over arbitrary interleavings of entries and exits,
//! and the laws the collection context obeys across them.
//!
//! A [`Step`] is one transition of a context between its start and its
//! collection. The laws here quantify over every allowed sequence of steps:
//! a context-local span is always captured, exactly once and correctly
//! parented; a future-attached span is always dropped, silently; collection
//! drains what it returns.

use vstd::prelude::*;

use crate::model::CollectorView;
use crate::model::FrameView;
use crate::model::Mechanism;
use crate::model::SpanView;
use crate::model::enter_frame;
use crate::model::finish_frame;
use crate::model::spec_collect;
use crate::model::spec_enter;
use crate::model::wf;

verus! {

/// One transition of a collection context: a span entry or exit, through
/// either mechanism.
pub enum Step {
    EnterLocal { name: Seq<char>, now_ns: u64 },
    ExitLocal { now_ns: u64 },
    EnterAttached { name: Seq<char>, now_ns: u64 },
    ExitAttached { now_ns: u64 },
}

/// When a step may be taken from state `c`: an entry needs room in the
/// identifier counter, an exit needs the innermost span to have been entered
/// through the matching mechanism.
pub open spec fn step_allowed(c: CollectorView, s: Step) -> bool {
    match s {
        Step::EnterLocal { .. } => c.next_span_id < u64::MAX,
        Step::EnterAttached { .. } => c.next_span_id < u64::MAX,
        Step::ExitLocal { .. } => c.stack.len() > 0 && c.stack.last().mechanism is ContextLocal,
        Step::ExitAttached { .. } => c.stack.len() > 0 && c.stack.last().mechanism
            is FutureAttached,
    }
}

/// The state a step leads to.
pub open spec fn step_apply(c: CollectorView, s: Step) -> CollectorView {
    match s {
        Step::EnterLocal { name, now_ns } => spec_enter(c, Mechanism::ContextLocal, name, now_ns),
        Step::ExitLocal { now_ns } => crate::model::spec_exit_local(c, now_ns),
        Step::EnterAttached { name, now_ns } => spec_enter(
            c,
            Mechanism::FutureAttached,
            name,
            now_ns,
        ),
        Step::ExitAttached { now_ns } => crate::model::spec_exit_attached(c, now_ns),
    }
}

/// Every step of the sequence is allowed where it stands.
pub open spec fn steps_allowed(c: CollectorView, ss: Seq<Step>) -> bool
    decreases ss.len(),
{
    ss.len() == 0 || (step_allowed(c, ss.first()) && steps_allowed(
        step_apply(c, ss.first()),
        ss.drop_first(),
    ))
}

/// The state a sequence of steps leads to.
pub open spec fn apply_steps(c: CollectorView, ss: Seq<Step>) -> CollectorView
    decreases ss.len(),
{
    if ss.len() == 0 {
        c
    } else {
        apply_steps(step_apply(c, ss.first()), ss.drop_first())
    }
}

/// How many entered spans carry the identifier `id`.
pub open spec fn stack_count(stack: Seq<FrameView>, id: u64) -> nat
    decreases stack.len(),
{
    if stack.len() == 0 {
        0
    } else {
        stack_count(stack.drop_last(), id) + (if stack.last().span_id == id {
            1nat
        } else {
            0nat
        })
    }
}

/// How many finished spans awaiting collection carry the identifier `id`.
pub open spec fn finished_count(finished: Seq<SpanView>, id: u64) -> nat
    decreases finished.len(),
{
    if finished.len() == 0 {
        0
    } else {
        finished_count(finished.drop_last(), id) + (if finished.last().span_id == id {
            1nat
        } else {
            0nat
        })
    }
}

/// The finished span `s` is the record of frame `f`: same identifier, parent
/// linkage, name and begin time (the duration is fixed only at exit).
pub open spec fn span_matches_frame(s: SpanView, f: FrameView) -> bool {
    &&& s.span_id == f.span_id
    &&& s.parent == f.parent
    &&& s.name == f.name
    &&& s.begin_time_unix_ns == f.begin_time_unix_ns
}

/// The span of frame `f`, entered at stack depth `d`, is still entered: it
/// sits at its entry depth, nothing else carries its identifier, and nothing
/// with its identifier has finished.
pub open spec fn still_entered(c: CollectorView, d: int, f: FrameView) -> bool {
    &&& 0 <= d < c.stack.len()
    &&& c.stack[d] == f
    &&& stack_count(c.stack, f.span_id) == 1
    &&& finished_count(c.finished, f.span_id) == 0
}

/// The span of frame `f` is recorded exactly once: one finished span awaiting
/// collection matches it, no other span anywhere carries its identifier.
pub open spec fn recorded_once(c: CollectorView, f: FrameView) -> bool {
    &&& stack_count(c.stack, f.span_id) == 0
    &&& finished_count(c.finished, f.span_id) == 1
    &&& exists|j: int|
        0 <= j < c.finished.len() && span_matches_frame(#[trigger] c.finished[j], f)
}

/// The span with identifier `id` has left no trace: it is no longer entered
/// and nothing awaiting collection carries its identifier.
pub open spec fn dropped_silently(c: CollectorView, id: u64) -> bool {
    &&& stack_count(c.stack, id) == 0
    &&& finished_count(c.finished, id) == 0
}

/// A context-local span is, at every moment after its entry, either still
/// entered or recorded exactly once; its identifier stays below the counter.
pub open spec fn tracked_local(c: CollectorView, d: int, f: FrameView) -> bool {
    &&& f.mechanism is ContextLocal
    &&& f.span_id < c.next_span_id
    &&& (still_entered(c, d, f) || recorded_once(c, f))
}

/// A future-attached span is, at every moment after its entry, either still
/// entered or gone without a trace; its identifier stays below the counter.
pub open spec fn tracked_attached(c: CollectorView, d: int, f: FrameView) -> bool {
    &&& f.mechanism is FutureAttached
    &&& f.span_id < c.next_span_id
    &&& (still_entered(c, d, f) || dropped_silently(c, f.span_id))
}

/// A count of zero over the entered spans means no entered span carries the
/// identifier, and conversely.
pub proof fn lemma_stack_count_zero(stack: Seq<FrameView>, id: u64)
    ensures
        stack_count(stack, id) == 0 <==> (forall|i: int|
            0 <= i < stack.len() ==> (#[trigger] stack[i]).span_id != id),
    decreases stack.len(),
{
    if stack.len() > 0 {
        lemma_stack_count_zero(stack.drop_last(), id);
        assert(forall|i: int|
            0 <= i < stack.len() - 1 ==> (#[trigger] stack[i]) == stack.drop_last()[i]);
    }
}

/// A count of zero over the finished spans means none carries the identifier,
/// and conversely.
pub proof fn lemma_finished_count_zero(finished: Seq<SpanView>, id: u64)
    ensures
        finished_count(finished, id) == 0 <==> (forall|i: int|
            0 <= i < finished.len() ==> (#[trigger] finished[i]).span_id != id),
    decreases finished.len(),
{
    if finished.len() > 0 {
        lemma_finished_count_zero(finished.drop_last(), id);
        assert(forall|i: int|
            0 <= i < finished.len() - 1 ==> (#[trigger] finished[i]) == finished.drop_last()[i]);
    }
}

/// A count of one over the finished spans names a single index.
pub proof fn lemma_finished_count_one(finished: Seq<SpanView>, id: u64, j: int, k: int)
    requires
        finished_count(finished, id) == 1,
        0 <= j < finished.len(),
        0 <= k < finished.len(),
        finished[j].span_id == id,
        finished[k].span_id == id,
    ensures
        j == k,
    decreases finished.len(),
{
    let dl = finished.drop_last();
    assert(forall|i: int| 0 <= i < finished.len() - 1 ==> (#[trigger] finished[i]) == dl[i]);
    if finished.last().span_id == id {
        lemma_finished_count_zero(dl, id);
        assert(j == finished.len() - 1 && k == finished.len() - 1);
    } else {
        lemma_finished_count_one(dl, id, j, k);
    }
}

/// Entering a new span keeps a tracked span's place or its single record:
/// the fresh identifier differs from every identifier already assigned.
proof fn lemma_enter_keeps_disjuncts(
    c: CollectorView,
    mech: Mechanism,
    name: Seq<char>,
    now_ns: u64,
    d: int,
    f: FrameView,
)
    requires
        f.span_id < c.next_span_id,
    ensures
        still_entered(c, d, f) ==> still_entered(spec_enter(c, mech, name, now_ns), d, f),
        recorded_once(c, f) ==> recorded_once(spec_enter(c, mech, name, now_ns), f),
        dropped_silently(c, f.span_id) ==> dropped_silently(
            spec_enter(c, mech, name, now_ns),
            f.span_id,
        ),
{
    let id = f.span_id;
    let g = enter_frame(c, mech, name, now_ns);
    let c2 = spec_enter(c, mech, name, now_ns);
    lemma_stack_count_push(c.stack, g, id);
    if still_entered(c, d, f) {
        assert(c2.stack[d] == f);
    }
    if recorded_once(c, f) {
        let j = choose|j: int|
            0 <= j < c.finished.len() && span_matches_frame(#[trigger] c.finished[j], f);
        assert(c2.finished[j] == c.finished[j]);
    }
}

/// Pushing a frame changes the count by one exactly for its own identifier.
proof fn lemma_stack_count_push(stack: Seq<FrameView>, f: FrameView, id: u64)
    ensures
        stack_count(stack.push(f), id) == stack_count(stack, id) + (if f.span_id == id {
            1nat
        } else {
            0nat
        }),
{
    assert(stack.push(f).drop_last() =~= stack);
}

/// Appending a finished span changes the count by one exactly for its own
/// identifier.
proof fn lemma_finished_count_push(finished: Seq<SpanView>, s: SpanView, id: u64)
    ensures
        finished_count(finished.push(s), id) == finished_count(finished, id) + (
        if s.span_id == id {
            1nat
        } else {
            0nat
        }),
{
    assert(finished.push(s).drop_last() =~= finished);
}

/// One step preserves the life-cycle invariant of a context-local span:
/// entered once, then recorded exactly once, never lost and never duplicated.
proof fn lemma_tracked_local_step(c: CollectorView, s: Step, d: int, f: FrameView)
    requires
        tracked_local(c, d, f),
        step_allowed(c, s),
    ensures
        tracked_local(step_apply(c, s), d, f),
{
    let id = f.span_id;
    let c2 = step_apply(c, s);
    match s {
        Step::EnterLocal { name, now_ns } => {
            lemma_stack_count_push(c.stack, enter_frame(c, Mechanism::ContextLocal, name, now_ns), id);
            lemma_enter_keeps_disjuncts(c, Mechanism::ContextLocal, name, now_ns, d, f);
        },
        Step::EnterAttached { name, now_ns } => {
            lemma_stack_count_push(c.stack, enter_frame(c, Mechanism::FutureAttached, name, now_ns), id);
            lemma_enter_keeps_disjuncts(c, Mechanism::FutureAttached, name, now_ns, d, f);
        },
        Step::ExitLocal { now_ns } => {
            let last = c.stack.last();
            let rec = finish_frame(last, now_ns);
            lemma_finished_count_push(c.finished, rec, id);
            if still_entered(c, d, f) {
                if d == c.stack.len() - 1 {
                    // The tracked span itself exits: it moves, once, into the
                    // finished spans.
                    assert(last == f);
                    assert(span_matches_frame(rec, f));
                    assert(c2.finished[c.finished.len() as int] == rec);
                    assert(stack_count(c.stack, id) == stack_count(c.stack.drop_last(), id) + 1);
                    assert(recorded_once(c2, f));
                } else {
                    // Some deeper span exits; the tracked one keeps its place.
                    if last.span_id == id {
                        lemma_stack_count_zero(c.stack.drop_last(), id);
                        assert(c.stack.drop_last()[d].span_id == id);
                        assert(false);
                    }
                    assert(c2.stack[d] == f);
                    assert(still_entered(c2, d, f));
                }
            } else {
                // Already recorded: the exiting span is some other one.
                lemma_stack_count_zero(c.stack, id);
                assert(last.span_id != id);
                assert(stack_count(c.stack, id) == stack_count(c.stack.drop_last(), id));
                lemma_stack_count_zero(c.stack.drop_last(), id);
                let j = choose|j: int|
                    0 <= j < c.finished.len() && span_matches_frame(#[trigger] c.finished[j], f);
                assert(c2.finished[j] == c.finished[j]);
                assert(recorded_once(c2, f));
            }
        },
        Step::ExitAttached { now_ns } => {
            let last = c.stack.last();
            if still_entered(c, d, f) {
                // The tracked span is context-local, the exiting one is
                // future-attached, so they differ; the tracked one keeps its
                // place.
                assert(d != c.stack.len() - 1);
                if last.span_id == id {
                    lemma_stack_count_zero(c.stack.drop_last(), id);
                    assert(c.stack.drop_last()[d].span_id == id);
                    assert(false);
                }
                assert(c2.stack[d] == f);
                assert(still_entered(c2, d, f));
            } else {
                lemma_stack_count_zero(c.stack, id);
                assert(last.span_id != id);
                assert(stack_count(c.stack, id) == stack_count(c.stack.drop_last(), id));
                lemma_stack_count_zero(c.stack.drop_last(), id);
                let j = choose|j: int|
                    0 <= j < c.finished.len() && span_matches_frame(#[trigger] c.finished[j], f);
                assert(c2.finished[j] == c.finished[j]);
                assert(recorded_once(c2, f));
            }
        },
    }
}

/// One step preserves the life-cycle invariant of a future-attached span:
/// entered once, then gone without a trace.
proof fn lemma_tracked_attached_step(c: CollectorView, s: Step, d: int, f: FrameView)
    requires
        tracked_attached(c, d, f),
        step_allowed(c, s),
    ensures
        tracked_attached(step_apply(c, s), d, f),
{
    let id = f.span_id;
    let c2 = step_apply(c, s);
    match s {
        Step::EnterLocal { name, now_ns } => {
            lemma_stack_count_push(c.stack, enter_frame(c, Mechanism::ContextLocal, name, now_ns), id);
            lemma_enter_keeps_disjuncts(c, Mechanism::ContextLocal, name, now_ns, d, f);
        },
        Step::EnterAttached { name, now_ns } => {
            lemma_stack_count_push(c.stack, enter_frame(c, Mechanism::FutureAttached, name, now_ns), id);
            lemma_enter_keeps_disjuncts(c, Mechanism::FutureAttached, name, now_ns, d, f);
        },
        Step::ExitLocal { now_ns } => {
            let last = c.stack.last();
            let rec = finish_frame(last, now_ns);
            lemma_finished_count_push(c.finished, rec, id);
            if still_entered(c, d, f) {
                // The tracked span is future-attached, the exiting one is
                // context-local, so they differ.
                assert(d != c.stack.len() - 1);
                if last.span_id == id {
                    lemma_stack_count_zero(c.stack.drop_last(), id);
                    assert(c.stack.drop_last()[d].span_id == id);
                    assert(false);
                }
                assert(c2.stack[d] == f);
                assert(still_entered(c2, d, f));
            } else {
                lemma_stack_count_zero(c.stack, id);
                assert(last.span_id != id);
                assert(stack_count(c.stack, id) == stack_count(c.stack.drop_last(), id));
                lemma_stack_count_zero(c.stack.drop_last(), id);
                assert(dropped_silently(c2, id));
            }
        },
        Step::ExitAttached { now_ns } => {
            let last = c.stack.last();
            if still_entered(c, d, f) {
                if d == c.stack.len() - 1 {
                    // The tracked span itself exits: nothing is recorded
                    // anywhere. This is the silent drop.
                    assert(stack_count(c.stack, id) == stack_count(c.stack.drop_last(), id) + 1);
                    assert(dropped_silently(c2, id));
                } else {
                    if last.span_id == id {
                        lemma_stack_count_zero(c.stack.drop_last(), id);
                        assert(c.stack.drop_last()[d].span_id == id);
                        assert(false);
                    }
                    assert(c2.stack[d] == f);
                    assert(still_entered(c2, d, f));
                }
            } else {
                lemma_stack_count_zero(c.stack, id);
                assert(last.span_id != id);
                assert(stack_count(c.stack, id) == stack_count(c.stack.drop_last(), id));
                lemma_stack_count_zero(c.stack.drop_last(), id);
                assert(dropped_silently(c2, id));
            }
        },
    }
}

/// The context-local invariant holds across any allowed sequence of steps.
proof fn lemma_tracked_local_steps(c: CollectorView, ss: Seq<Step>, d: int, f: FrameView)
    requires
        tracked_local(c, d, f),
        steps_allowed(c, ss),
    ensures
        tracked_local(apply_steps(c, ss), d, f),
    decreases ss.len(),
{
    if ss.len() > 0 {
        lemma_tracked_local_step(c, ss.first(), d, f);
        lemma_tracked_local_steps(step_apply(c, ss.first()), ss.drop_first(), d, f);
    }
}

/// The future-attached invariant holds across any allowed sequence of steps.
proof fn lemma_tracked_attached_steps(c: CollectorView, ss: Seq<Step>, d: int, f: FrameView)
    requires
        tracked_attached(c, d, f),
        steps_allowed(c, ss),
    ensures
        tracked_attached(apply_steps(c, ss), d, f),
    decreases ss.len(),
{
    if ss.len() > 0 {
        lemma_tracked_attached_step(c, ss.first(), d, f);
        lemma_tracked_attached_steps(step_apply(c, ss.first()), ss.drop_first(), d, f);
    }
}

/// Law (context-local capture): from any well-formed state, a span entered
/// through the context-local mechanism is — once the stack has unwound to its
/// entry depth, after any allowed interleaving of entries and exits — present
/// exactly once among the spans the next collection returns, under its name
/// and begin time, with its parent the span that was current at its entry.
pub proof fn lemma_local_span_recorded(
    c0: CollectorView,
    name: Seq<char>,
    t_ns: u64,
    ss: Seq<Step>,
)
    requires
        wf(c0),
        c0.next_span_id < u64::MAX,
        steps_allowed(spec_enter(c0, Mechanism::ContextLocal, name, t_ns), ss),
        apply_steps(spec_enter(c0, Mechanism::ContextLocal, name, t_ns), ss).stack.len()
            <= c0.stack.len(),
    ensures
        recorded_once(
            apply_steps(spec_enter(c0, Mechanism::ContextLocal, name, t_ns), ss),
            enter_frame(c0, Mechanism::ContextLocal, name, t_ns),
        ),
{
    let f = enter_frame(c0, Mechanism::ContextLocal, name, t_ns);
    let c1 = spec_enter(c0, Mechanism::ContextLocal, name, t_ns);
    let d = c0.stack.len() as int;
    lemma_stack_count_zero(c0.stack, f.span_id);
    lemma_finished_count_zero(c0.finished, f.span_id);
    lemma_stack_count_push(c0.stack, f, f.span_id);
    assert(still_entered(c1, d, f));
    lemma_tracked_local_steps(c1, ss, d, f);
}

/// Companion to the capture law: "recorded exactly once" pins a single index,
/// so any two finished spans carrying the tracked identifier coincide.
pub proof fn lemma_recorded_once_is_unique(c: CollectorView, f: FrameView, j: int, k: int)
    requires
        recorded_once(c, f),
        0 <= j < c.finished.len(),
        0 <= k < c.finished.len(),
        c.finished[j].span_id == f.span_id,
        c.finished[k].span_id == f.span_id,
    ensures
        j == k,
{
    lemma_finished_count_one(c.finished, f.span_id, j, k);
}

/// Law (future-attached silent drop): from any well-formed state, a span
/// entered through the future-attached mechanism has — once the stack has
/// unwound to its entry depth, after any allowed interleaving — left no
/// trace: no span awaiting collection carries its identifier, so no
/// collection ever returns a record of it. Nothing signals the loss.
pub proof fn lemma_attached_span_dropped(
    c0: CollectorView,
    name: Seq<char>,
    t_ns: u64,
    ss: Seq<Step>,
)
    requires
        wf(c0),
        c0.next_span_id < u64::MAX,
        steps_allowed(spec_enter(c0, Mechanism::FutureAttached, name, t_ns), ss),
        apply_steps(spec_enter(c0, Mechanism::FutureAttached, name, t_ns), ss).stack.len()
            <= c0.stack.len(),
    ensures
        dropped_silently(
            apply_steps(spec_enter(c0, Mechanism::FutureAttached, name, t_ns), ss),
            c0.next_span_id,
        ),
        forall|j: int|
            0 <= j < apply_steps(
                spec_enter(c0, Mechanism::FutureAttached, name, t_ns),
                ss,
            ).finished.len() ==> (#[trigger] apply_steps(
                spec_enter(c0, Mechanism::FutureAttached, name, t_ns),
                ss,
            ).finished[j]).span_id != c0.next_span_id,
{
    let f = enter_frame(c0, Mechanism::FutureAttached, name, t_ns);
    let c1 = spec_enter(c0, Mechanism::FutureAttached, name, t_ns);
    let d = c0.stack.len() as int;
    lemma_stack_count_zero(c0.stack, f.span_id);
    lemma_finished_count_zero(c0.finished, f.span_id);
    lemma_stack_count_push(c0.stack, f, f.span_id);
    assert(still_entered(c1, d, f));
    lemma_tracked_attached_steps(c1, ss, d, f);
    let c2 = apply_steps(c1, ss);
    lemma_finished_count_zero(c2.finished, c0.next_span_id);
}

/// Law (drain semantics): collecting empties the context, so a second
/// collection with nothing exited in between returns the empty set — the
/// spans of one collection are handed out exactly once.
pub proof fn lemma_collect_drains(c: CollectorView)
    ensures
        spec_collect(c).finished =~= Seq::<SpanView>::empty(),
        spec_collect(spec_collect(c)).finished =~= Seq::<SpanView>::empty(),
{
}

/// Every step preserves well-formedness: identifiers only ever move from the
/// counter into the state, and the counter never goes back.
pub proof fn lemma_wf_step(c: CollectorView, s: Step)
    requires
        wf(c),
        step_allowed(c, s),
    ensures
        wf(step_apply(c, s)),
        c.next_span_id <= step_apply(c, s).next_span_id,
{
    let c2 = step_apply(c, s);
    match s {
        Step::EnterLocal { name, now_ns } => {
            assert(forall|i: int|
                0 <= i < c.stack.len() ==> c2.stack[i] == (#[trigger] c.stack[i]));
        },
        Step::EnterAttached { name, now_ns } => {
            assert(forall|i: int|
                0 <= i < c.stack.len() ==> c2.stack[i] == (#[trigger] c.stack[i]));
        },
        Step::ExitLocal { now_ns } => {
            assert(forall|i: int|
                0 <= i < c2.stack.len() ==> c2.stack[i] == (#[trigger] c.stack[i]));
        },
        Step::ExitAttached { now_ns } => {
            assert(forall|i: int|
                0 <= i < c2.stack.len() ==> c2.stack[i] == (#[trigger] c.stack[i]));
        },
    }
}

/// Well-formedness holds across any allowed sequence of steps.
pub proof fn lemma_wf_steps(c: CollectorView, ss: Seq<Step>)
    requires
        wf(c),
        steps_allowed(c, ss),
    ensures
        wf(apply_steps(c, ss)),
        c.next_span_id <= apply_steps(c, ss).next_span_id,
    decreases ss.len(),
{
    if ss.len() > 0 {
        lemma_wf_step(c, ss.first());
        lemma_wf_steps(step_apply(c, ss.first()), ss.drop_first());
    }
}

} // verus!
