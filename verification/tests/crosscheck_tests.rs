//! The model beside the tracing crate it describes: the context-local
//! mechanism, run through the real crate's task-local collector, captures the
//! same spans with the same parent linkage as the library's model.

use minitrace::collector::SpanContext as MtSpanContext;
use minitrace::collector::SpanId as MtSpanId;
use minitrace::collector::TraceId as MtTraceId;
use minitrace::local::LocalCollector as MtLocalCollector;
use minitrace::local::LocalSpan;

use span_collect::LocalCollector;
use span_collect::SpanContext;
use span_collect::SpanId;
use span_collect::TraceId;

#[test]
fn future_attached_entry_is_dropped_by_the_real_collector_too() {
    // The real crate: a span of the future-attached kind entered between two
    // context-local spans. The task-local collection must not contain it, and
    // the inner context-local span must be parented straight to the outer one.
    let collector = MtLocalCollector::start();
    {
        let _root = LocalSpan::enter_with_local_parent("root");
        let attached = minitrace::Span::enter_with_local_parent("attached");
        {
            let _child = LocalSpan::enter_with_local_parent("child");
        }
        drop(attached);
    }
    let real = collector
        .collect()
        .to_span_records(MtSpanContext::new(MtTraceId(1), MtSpanId(1)));

    assert_eq!(real.len(), 2);
    assert!(real.iter().all(|r| r.name != "attached"));
    let real_root = real.iter().find(|r| r.name == "root").unwrap();
    let real_child = real.iter().find(|r| r.name == "child").unwrap();
    assert_eq!(real_child.parent_id, real_root.span_id);

    // The model: the same nesting, the same outcome.
    let mut c = LocalCollector::start();
    let root = c.enter_local("root".to_string(), 10);
    c.enter_attached("attached".to_string(), 20);
    c.enter_local("child".to_string(), 30);
    c.exit_local(40);
    c.exit_attached(50);
    c.exit_local(60);
    let model = c
        .collect()
        .to_span_records(SpanContext::new(TraceId(1), SpanId(1)));

    assert_eq!(model.len(), 2);
    assert!(model.iter().all(|r| r.name != "attached"));
    let model_child = model.iter().find(|r| r.name == "child").unwrap();
    assert_eq!(model_child.parent_id, root);
}

#[test]
fn context_local_nesting_matches_the_real_collector() {
    // The real crate: two nested context-local spans under one collection.
    let collector = MtLocalCollector::start();
    {
        let _root = LocalSpan::enter_with_local_parent("root");
        let _child = LocalSpan::enter_with_local_parent("child");
    }
    let real = collector
        .collect()
        .to_span_records(MtSpanContext::new(MtTraceId(1), MtSpanId(1)));

    // The model: the same nesting.
    let mut c = LocalCollector::start();
    let root = c.enter_local("root".to_string(), 10);
    c.enter_local("child".to_string(), 20);
    c.exit_local(30);
    c.exit_local(40);
    let model = c
        .collect()
        .to_span_records(SpanContext::new(TraceId(1), SpanId(1)));

    // Identifier values and record order are the collector's own business on
    // both sides; the captured set and its parent linkage must agree.
    assert_eq!(real.len(), 2);
    assert_eq!(model.len(), 2);

    let real_root = real.iter().find(|r| r.name == "root").unwrap();
    let real_child = real.iter().find(|r| r.name == "child").unwrap();
    assert_eq!(real_child.parent_id, real_root.span_id);
    assert_eq!(real_root.parent_id, MtSpanId(1));
    assert_eq!(real_root.trace_id, MtTraceId(1));
    assert_eq!(real_child.trace_id, MtTraceId(1));

    let model_root = model.iter().find(|r| r.name == "root").unwrap();
    let model_child = model.iter().find(|r| r.name == "child").unwrap();
    assert_eq!(model_child.parent_id, model_root.span_id);
    assert_eq!(model_root.span_id, root);
    assert_eq!(model_root.parent_id, SpanId(1));
    assert_eq!(model_root.trace_id, TraceId(1));
    assert_eq!(model_child.trace_id, TraceId(1));
}
