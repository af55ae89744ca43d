use span_collect::LocalCollector;
use span_collect::SpanContext;
use span_collect::SpanId;
use span_collect::TraceId;
use span_collect::func_with_trace;
use span_collect::handle_fetch;

fn times() -> Vec<u64> {
    vec![1000, 1100, 1200, 1300, 1400, 1500, 1600, 1700, 1800, 1900]
}

#[test]
fn scenario_collects_exactly_root_child_and_nested_wrapped() {
    let records = handle_fetch(&times(), SpanContext::new(TraceId(1), SpanId(1)));
    assert_eq!(records.len(), 3);
    let names: Vec<&str> = records.iter().map(|r| r.name.as_str()).collect();
    assert_eq!(names, ["nested_wrapped", "child", "root"]);
    assert!(records.iter().all(|r| r.name != "func_with_trace"));
    assert!(records.iter().all(|r| r.name != "in_span_async"));
}

#[test]
fn scenario_parent_chain_is_root_child_nested() {
    let records = handle_fetch(&times(), SpanContext::new(TraceId(1), SpanId(1)));
    let nested = &records[0];
    let child = &records[1];
    let root = &records[2];
    assert_eq!(child.parent_id, root.span_id);
    assert_eq!(nested.parent_id, child.span_id);
    // The root span has no recorded parent of its own, so it is parented to
    // the supplied pair.
    assert_eq!(root.parent_id, SpanId(1));
}

#[test]
fn scenario_attached_identifiers_appear_on_no_record() {
    let records = handle_fetch(&times(), SpanContext::new(TraceId(1), SpanId(1)));
    // Entry order assigns: root = 1, func_with_trace = 2, child = 3,
    // in_span_async = 4, nested_wrapped = 5. The future-attached spans
    // consumed 2 and 4, which are absent.
    assert_eq!(records[2].span_id, SpanId(1));
    assert_eq!(records[1].span_id, SpanId(3));
    assert_eq!(records[0].span_id, SpanId(5));
    assert!(records.iter().all(|r| r.span_id != SpanId(2)));
    assert!(records.iter().all(|r| r.span_id != SpanId(4)));
}

#[test]
fn scenario_records_carry_begin_times_and_durations() {
    let records = handle_fetch(&times(), SpanContext::new(TraceId(9), SpanId(9)));
    let nested = &records[0];
    let child = &records[1];
    let root = &records[2];
    assert_eq!(root.begin_time_unix_ns, 1000);
    assert_eq!(root.duration_ns, 900);
    assert_eq!(child.begin_time_unix_ns, 1200);
    assert_eq!(child.duration_ns, 500);
    assert_eq!(nested.begin_time_unix_ns, 1500);
    assert_eq!(nested.duration_ns, 100);
    for r in &records {
        assert_eq!(r.trace_id, TraceId(9));
        assert!(r.properties.is_empty());
        assert!(r.events.is_empty());
    }
}

#[test]
fn traced_operation_alone_yields_child_and_nested_wrapped() {
    let mut c = LocalCollector::start();
    let t: Vec<u64> = vec![10, 20, 30, 40, 50, 60, 70, 80];
    func_with_trace(&mut c, &t, 0);
    let records = c.collect().to_span_records(SpanContext::new(TraceId(2), SpanId(99)));
    assert_eq!(records.len(), 2);
    // With no enclosing span, identifiers run: func_with_trace = 1 (dropped),
    // child = 2, in_span_async = 3 (dropped), nested_wrapped = 4.
    assert_eq!(records[0].name, "nested_wrapped");
    assert_eq!(records[0].span_id, SpanId(4));
    assert_eq!(records[0].parent_id, SpanId(2));
    assert_eq!(records[1].name, "child");
    assert_eq!(records[1].span_id, SpanId(2));
    // The child had no context-local parent: the future-attached wrapping is
    // invisible, so it is parented to the supplied pair.
    assert_eq!(records[1].parent_id, SpanId(99));
}
