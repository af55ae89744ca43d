//! The demonstration scenario: one fixed nesting of spans, entered through
//! both mechanisms, whose collected outcome the contracts pin down exactly.

use vstd::prelude::*;

use crate::collector::LocalCollector;
use crate::ids::SpanContext;
use crate::ids::SpanId;
use crate::model::CollectorView;
use crate::model::current_local_parent;
use crate::model::dur_ns;
use crate::records::RecordView;
use crate::records::SpanRecord;
use crate::records::record_of;

verus! {

/// The first nested asynchronous helper, the one bracketed by a
/// future-attached span at its call site; it does no traced work of its own,
/// so the context is untouched.
pub fn call_nested_future_ext(c: &mut LocalCollector)
    ensures
        *final(c) == *old(c),
{
}

/// The second nested asynchronous helper, the one wrapped in a context-local
/// span at its call site; it does no traced work of its own, so the context
/// is untouched.
pub fn nested_wrapped(c: &mut LocalCollector)
    ensures
        *final(c) == *old(c),
{
}

/// The "child" span as the traced operation finishes it, when the operation
/// starts from state `c` and reads the clock values `t[base ..]`: the second
/// identifier assigned, parented to whichever span was current around the
/// whole operation — the future-attached wrapping is invisible to the parent
/// chain.
pub open spec fn child_span(c: CollectorView, t: Seq<u64>, base: int) -> crate::model::SpanView {
    crate::model::SpanView {
        span_id: (c.next_span_id + 1) as u64,
        parent: current_local_parent(c.stack),
        name: "child"@,
        begin_time_unix_ns: t[base + 1],
        duration_ns: dur_ns(t[base + 1], t[base + 6]),
    }
}

/// The "nested_wrapped" span as the traced operation finishes it: the fourth
/// identifier assigned, parented to "child".
pub open spec fn nested_wrapped_span(
    c: CollectorView,
    t: Seq<u64>,
    base: int,
) -> crate::model::SpanView {
    crate::model::SpanView {
        span_id: (c.next_span_id + 3) as u64,
        parent: Some((c.next_span_id + 1) as u64),
        name: "nested_wrapped"@,
        begin_time_unix_ns: t[base + 4],
        duration_ns: dur_ns(t[base + 4], t[base + 5]),
    }
}

/// The traced asynchronous operation. An annotation wraps its whole body in a
/// future-attached span named after the operation; inside, a context-local
/// "child" span covers the body, a future-attached "in_span_async" span
/// brackets the first nested helper, and a context-local "nested_wrapped"
/// span wraps the second. The clock is read from `times[base ..= base + 7]`
/// in order.
///
/// Exactly the two context-local spans join the spans awaiting collection,
/// in exit order: "nested_wrapped" first, then "child". The two
/// future-attached spans each consume an identifier and vanish without a
/// trace, and the stack comes back as it was.
pub fn func_with_trace(c: &mut LocalCollector, times: &Vec<u64>, base: usize)
    requires
        base + 8 <= times@.len(),
        old(c)@.next_span_id + 4 <= u64::MAX,
    ensures
        final(c)@.next_span_id == old(c)@.next_span_id + 4,
        final(c)@.stack == old(c)@.stack,
        final(c)@.finished == old(c)@.finished.push(
            nested_wrapped_span(old(c)@, times@, base as int),
        ).push(child_span(old(c)@, times@, base as int)),
{
    // Binding the length bounds it by the machine word, so the index
    // arithmetic below cannot overflow.
    let _n: usize = times.len();
    let ghost s0 = c@;
    c.enter_attached("func_with_trace".to_owned(), times[base]);
    let ghost s1 = c@;
    c.enter_local("child".to_owned(), times[base + 1]);
    let ghost s2 = c@;
    c.enter_attached("in_span_async".to_owned(), times[base + 2]);
    call_nested_future_ext(c);
    c.exit_attached(times[base + 3]);
    proof {
        assert(c@.stack =~= s2.stack);
        assert(s1.stack.drop_last() =~= s0.stack);
    }
    let ghost s3 = c@;
    c.enter_local("nested_wrapped".to_owned(), times[base + 4]);
    nested_wrapped(c);
    c.exit_local(times[base + 5]);
    proof {
        assert(c@.stack =~= s3.stack);
    }
    c.exit_local(times[base + 6]);
    proof {
        assert(c@.stack =~= s1.stack);
    }
    c.exit_attached(times[base + 7]);
    proof {
        assert(c@.stack =~= s0.stack);
        assert(current_local_parent(s1.stack) == current_local_parent(s0.stack));
        assert(current_local_parent(s3.stack) == current_local_parent(s2.stack));
        assert(c@.finished =~= s0.finished.push(
            nested_wrapped_span(s0, times@, base as int),
        ).push(child_span(s0, times@, base as int)));
    }
}

/// The three records that handling one request returns, in exit order, under
/// the ancestry pair `ctx`: "nested_wrapped" under "child", "child" under
/// "root", and "root" under the pair itself.
pub open spec fn scenario_records(t: Seq<u64>, ctx: SpanContext) -> Seq<RecordView> {
    seq![
        RecordView {
            trace_id: ctx.trace_id,
            span_id: SpanId(5),
            parent_id: SpanId(3),
            begin_time_unix_ns: t[5],
            duration_ns: dur_ns(t[5], t[6]),
            name: "nested_wrapped"@,
            properties: Seq::empty(),
            events: Seq::empty(),
        },
        RecordView {
            trace_id: ctx.trace_id,
            span_id: SpanId(3),
            parent_id: SpanId(1),
            begin_time_unix_ns: t[2],
            duration_ns: dur_ns(t[2], t[7]),
            name: "child"@,
            properties: Seq::empty(),
            events: Seq::empty(),
        },
        RecordView {
            trace_id: ctx.trace_id,
            span_id: SpanId(1),
            parent_id: ctx.span_id,
            begin_time_unix_ns: t[0],
            duration_ns: dur_ns(t[0], t[9]),
            name: "root"@,
            properties: Seq::empty(),
            events: Seq::empty(),
        },
    ]
}

/// Handles one request: starts a fresh collection context, enters the
/// context-local "root" span, runs the traced operation, exits "root",
/// collects, and converts the drained spans under `ctx`. The clock is read
/// from `times[0 ..= 9]` in order.
///
/// Exactly "root", "child" and "nested_wrapped" come back, correctly
/// parented. The future-attached spans "func_with_trace" and "in_span_async"
/// are absent — they consumed the identifiers 2 and 4, which appear on no
/// record.
pub fn handle_fetch(times: &Vec<u64>, ctx: SpanContext) -> (records: Vec<SpanRecord>)
    requires
        times@.len() >= 10,
    ensures
        records@.map_values(|r: SpanRecord| r@) == scenario_records(times@, ctx),
        records@.len() == 3,
        forall|i: int|
            0 <= i < records@.len() ==> (#[trigger] records@[i]@).name != "func_with_trace"@
                && records@[i]@.name != "in_span_async"@,
        forall|i: int|
            0 <= i < records@.len() ==> (#[trigger] records@[i]@).span_id != SpanId(2)
                && records@[i]@.span_id != SpanId(4),
{
    let mut c = LocalCollector::start();
    c.enter_local("root".to_owned(), times[0]);
    func_with_trace(&mut c, times, 1);
    c.exit_local(times[9]);
    let spans = c.collect();
    let records = spans.to_span_records(ctx);
    proof {
        assert(spans@.len() == 3);
        assert(record_of(spans@[0], ctx) == scenario_records(times@, ctx)[0]);
        assert(record_of(spans@[1], ctx) == scenario_records(times@, ctx)[1]);
        assert(record_of(spans@[2], ctx) == scenario_records(times@, ctx)[2]);
        assert(spans@.map_values(|s: crate::model::SpanView| record_of(s, ctx)) =~= scenario_records(
            times@,
            ctx,
        ));
        reveal_strlit("nested_wrapped");
        reveal_strlit("child");
        reveal_strlit("root");
        reveal_strlit("func_with_trace");
        reveal_strlit("in_span_async");
        assert("nested_wrapped"@.len() == 14);
        assert("child"@.len() == 5);
        assert("root"@.len() == 4);
        assert("func_with_trace"@.len() == 15);
        assert("in_span_async"@.len() == 13);
    }
    records
}

} // verus!
