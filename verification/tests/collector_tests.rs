use span_collect::LocalCollector;
use span_collect::SpanContext;
use span_collect::SpanId;
use span_collect::TraceId;

#[test]
fn single_local_span_is_collected() {
    let mut c = LocalCollector::start();
    let sid = c.enter_local("root".to_string(), 100);
    assert_eq!(sid, SpanId(1));
    c.exit_local(250);
    let spans = c.collect();
    assert_eq!(spans.len(), 1);
    let records = spans.to_span_records(SpanContext::new(TraceId(7), SpanId(9)));
    assert_eq!(records.len(), 1);
    let r = &records[0];
    assert_eq!(r.trace_id, TraceId(7));
    assert_eq!(r.span_id, SpanId(1));
    assert_eq!(r.parent_id, SpanId(9));
    assert_eq!(r.begin_time_unix_ns, 100);
    assert_eq!(r.duration_ns, 150);
    assert_eq!(r.name, "root");
    assert!(r.properties.is_empty());
    assert!(r.events.is_empty());
}

#[test]
fn nested_local_spans_keep_parent_linkage() {
    let mut c = LocalCollector::start();
    let root = c.enter_local("root".to_string(), 10);
    let child = c.enter_local("child".to_string(), 20);
    c.exit_local(30);
    c.exit_local(40);
    let records = c.collect().to_span_records(SpanContext::new(TraceId(1), SpanId(1)));
    assert_eq!(records.len(), 2);
    // Exit order: the child first, then the root.
    assert_eq!(records[0].name, "child");
    assert_eq!(records[0].span_id, child);
    assert_eq!(records[0].parent_id, root);
    assert_eq!(records[1].name, "root");
    assert_eq!(records[1].span_id, root);
    assert_eq!(records[1].parent_id, SpanId(1));
}

#[test]
fn attached_span_is_absent_from_records() {
    let mut c = LocalCollector::start();
    c.enter_local("root".to_string(), 10);
    let attached = c.enter_attached("attached".to_string(), 20);
    c.exit_attached(30);
    c.exit_local(40);
    let records = c.collect().to_span_records(SpanContext::new(TraceId(1), SpanId(1)));
    assert_eq!(records.len(), 1);
    assert_eq!(records[0].name, "root");
    assert!(records.iter().all(|r| r.span_id != attached));
    assert!(records.iter().all(|r| r.name != "attached"));
}

#[test]
fn attached_span_consumes_an_identifier() {
    let mut c = LocalCollector::start();
    let first = c.enter_local("first".to_string(), 10);
    c.exit_local(20);
    let attached = c.enter_attached("attached".to_string(), 30);
    c.exit_attached(40);
    let third = c.enter_local("third".to_string(), 50);
    c.exit_local(60);
    assert_eq!(first, SpanId(1));
    assert_eq!(attached, SpanId(2));
    assert_eq!(third, SpanId(3));
    let records = c.collect().to_span_records(SpanContext::new(TraceId(1), SpanId(1)));
    assert_eq!(records.len(), 2);
    assert!(records.iter().all(|r| r.span_id != SpanId(2)));
}

#[test]
fn attached_span_is_invisible_to_the_parent_chain() {
    let mut c = LocalCollector::start();
    let root = c.enter_local("root".to_string(), 10);
    let attached = c.enter_attached("attached".to_string(), 20);
    let inner = c.enter_local("inner".to_string(), 30);
    c.exit_local(40);
    c.exit_attached(50);
    c.exit_local(60);
    let records = c.collect().to_span_records(SpanContext::new(TraceId(1), SpanId(1)));
    assert_eq!(records.len(), 2);
    assert_eq!(records[0].name, "inner");
    assert_eq!(records[0].span_id, inner);
    // The inner span is parented straight to the root: the future-attached
    // span in between is not part of the context-local chain.
    assert_eq!(records[0].parent_id, root);
    assert_ne!(records[0].parent_id, attached);
}

#[test]
fn collect_twice_returns_empty_the_second_time() {
    let mut c = LocalCollector::start();
    c.enter_local("root".to_string(), 10);
    c.exit_local(20);
    let first = c.collect();
    assert_eq!(first.len(), 1);
    let second = c.collect();
    assert_eq!(second.len(), 0);
    let records = second.to_span_records(SpanContext::new(TraceId(1), SpanId(1)));
    assert!(records.is_empty());
}

#[test]
fn collect_on_a_fresh_context_is_empty() {
    let mut c = LocalCollector::start();
    let spans = c.collect();
    assert_eq!(spans.len(), 0);
}

#[test]
fn spans_exited_after_a_collection_reach_the_next_one() {
    let mut c = LocalCollector::start();
    c.enter_local("early".to_string(), 10);
    c.exit_local(20);
    assert_eq!(c.collect().len(), 1);
    c.enter_local("late".to_string(), 30);
    c.exit_local(40);
    let records = c.collect().to_span_records(SpanContext::new(TraceId(1), SpanId(1)));
    assert_eq!(records.len(), 1);
    assert_eq!(records[0].name, "late");
}

#[test]
fn duration_is_zero_when_the_clock_runs_backwards() {
    let mut c = LocalCollector::start();
    c.enter_local("skewed".to_string(), 500);
    c.exit_local(400);
    let records = c.collect().to_span_records(SpanContext::new(TraceId(1), SpanId(1)));
    assert_eq!(records[0].duration_ns, 0);
}

#[test]
fn duration_is_zero_for_equal_timestamps() {
    let mut c = LocalCollector::start();
    c.enter_local("instant".to_string(), 700);
    c.exit_local(700);
    let records = c.collect().to_span_records(SpanContext::new(TraceId(1), SpanId(1)));
    assert_eq!(records[0].duration_ns, 0);
}

#[test]
fn context_pair_is_applied_uniformly_to_top_level_spans() {
    let mut c = LocalCollector::start();
    c.enter_local("one".to_string(), 10);
    c.exit_local(20);
    c.enter_local("two".to_string(), 30);
    c.exit_local(40);
    let ctx = SpanContext::new(TraceId(42), SpanId(77));
    let records = c.collect().to_span_records(ctx);
    assert_eq!(records.len(), 2);
    for r in &records {
        assert_eq!(r.trace_id, TraceId(42));
        assert_eq!(r.parent_id, SpanId(77));
    }
}
