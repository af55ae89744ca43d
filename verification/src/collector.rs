//! The executable collection context: a stack of entered spans, the finished
//! context-local spans awaiting collection, and the identifier counter.

use vstd::prelude::*;

use crate::ids::SpanContext;
use crate::ids::SpanId;
use crate::laws::Step;
use crate::laws::lemma_wf_step;
use crate::model::CollectorView;
use crate::model::FrameView;
use crate::model::Mechanism;
use crate::model::SpanView;
use crate::model::current_local_parent;
use crate::model::enter_frame;
use crate::model::finish_frame;
use crate::model::spec_collect;
use crate::model::spec_enter;
use crate::model::spec_exit_attached;
use crate::model::spec_exit_local;
use crate::model::spec_start;
use crate::model::wf;
use crate::records::SpanRecord;
use crate::records::record_of;

verus! {

/// One entered-but-not-exited span.
#[derive(Debug)]
pub(crate) struct ActiveSpan {
    pub(crate) span_id: u64,
    pub(crate) parent: Option<u64>,
    pub(crate) name: String,
    pub(crate) begin_time_unix_ns: u64,
    pub(crate) mechanism: Mechanism,
}

impl View for ActiveSpan {
    type V = FrameView;

    closed spec fn view(&self) -> FrameView {
        FrameView {
            span_id: self.span_id,
            parent: self.parent,
            name: self.name@,
            begin_time_unix_ns: self.begin_time_unix_ns,
            mechanism: self.mechanism,
        }
    }
}

/// One finished context-local span, not yet drained.
#[derive(Debug)]
pub(crate) struct RawSpan {
    pub(crate) span_id: u64,
    pub(crate) parent: Option<u64>,
    pub(crate) name: String,
    pub(crate) begin_time_unix_ns: u64,
    pub(crate) duration_ns: u64,
}

impl View for RawSpan {
    type V = SpanView;

    closed spec fn view(&self) -> SpanView {
        SpanView {
            span_id: self.span_id,
            parent: self.parent,
            name: self.name@,
            begin_time_unix_ns: self.begin_time_unix_ns,
            duration_ns: self.duration_ns,
        }
    }
}

/// A task-local collection context. It accumulates every span exited through
/// the context-local mechanism and hands them out, once, on [`collect`].
///
/// [`collect`]: LocalCollector::collect
#[derive(Debug)]
pub struct LocalCollector {
    next_span_id: u64,
    stack: Vec<ActiveSpan>,
    finished: Vec<RawSpan>,
}

impl View for LocalCollector {
    type V = CollectorView;

    closed spec fn view(&self) -> CollectorView {
        CollectorView {
            next_span_id: self.next_span_id,
            stack: self.stack@.map_values(|a: ActiveSpan| a@),
            finished: self.finished@.map_values(|r: RawSpan| r@),
        }
    }
}

/// The finished spans that one collection drained, ready to be turned into
/// span records under a caller-supplied ancestry pair.
#[derive(Debug)]
pub struct LocalSpans {
    spans: Vec<RawSpan>,
}

impl View for LocalSpans {
    type V = Seq<SpanView>;

    closed spec fn view(&self) -> Seq<SpanView> {
        self.spans@.map_values(|r: RawSpan| r@)
    }
}

impl LocalCollector {
    /// Starts a new, empty collection context.
    pub fn start() -> (c: LocalCollector)
        ensures
            c@ == spec_start(),
            wf(c@),
    {
        let c = LocalCollector { next_span_id: 1, stack: Vec::new(), finished: Vec::new() };
        proof {
            assert(c@.stack =~= Seq::<FrameView>::empty());
            assert(c@.finished =~= Seq::<SpanView>::empty());
        }
        c
    }

    /// The span that is current for parent linkage: the innermost entered
    /// span that was entered context-locally, if any.
    fn current_parent(&self) -> (p: Option<u64>)
        ensures
            p == current_local_parent(self@.stack),
    {
        let mut i: usize = self.stack.len();
        proof {
            assert(self@.stack.take(i as int) =~= self@.stack);
        }
        while i > 0
            invariant
                i <= self.stack.len(),
                self@.stack.len() == self.stack@.len(),
                current_local_parent(self@.stack) == current_local_parent(
                    self@.stack.take(i as int),
                ),
            decreases i,
        {
            let frame = &self.stack[i - 1];
            proof {
                assert(self@.stack[i - 1] == self.stack@[i - 1]@);
                assert(self@.stack.take(i as int).last() == self@.stack[i - 1]);
            }
            if frame.mechanism == Mechanism::ContextLocal {
                return Some(frame.span_id);
            }
            proof {
                assert(self@.stack.take(i as int).drop_last() =~= self@.stack.take(i - 1));
            }
            i = i - 1;
        }
        proof {
            assert(self@.stack.take(0) =~= Seq::<FrameView>::empty());
        }
        None
    }

    /// Enters a span: assigns the next identifier, links it to whichever span
    /// is current, and pushes it on the stack.
    fn enter(&mut self, name: String, now_ns: u64, mechanism: Mechanism) -> (sid: SpanId)
        requires
            old(self)@.next_span_id < u64::MAX,
        ensures
            final(self)@ == spec_enter(old(self)@, mechanism, name@, now_ns),
            sid == SpanId(old(self)@.next_span_id),
            wf(old(self)@) ==> wf(final(self)@),
    {
        let ghost pre = self@;
        let ghost n = name@;
        let id = self.next_span_id;
        let parent = self.current_parent();
        self.stack.push(
            ActiveSpan { span_id: id, parent, name, begin_time_unix_ns: now_ns, mechanism },
        );
        self.next_span_id = id + 1;
        proof {
            assert(self@.stack =~= pre.stack.push(enter_frame(pre, mechanism, n, now_ns)));
            assert(self@.finished =~= pre.finished);
            assert(self@ =~= spec_enter(pre, mechanism, n, now_ns));
            if wf(pre) {
                match mechanism {
                    Mechanism::ContextLocal => lemma_wf_step(
                        pre,
                        Step::EnterLocal { name: n, now_ns },
                    ),
                    Mechanism::FutureAttached => lemma_wf_step(
                        pre,
                        Step::EnterAttached { name: n, now_ns },
                    ),
                }
            }
        }
        SpanId(id)
    }

    /// Enters a span through the context-local scoped mechanism. The span is
    /// current for parent linkage until it exits, and exiting it records it
    /// with this context.
    pub fn enter_local(&mut self, name: String, now_ns: u64) -> (sid: SpanId)
        requires
            old(self)@.next_span_id < u64::MAX,
        ensures
            final(self)@ == spec_enter(old(self)@, Mechanism::ContextLocal, name@, now_ns),
            sid == SpanId(old(self)@.next_span_id),
            wf(old(self)@) ==> wf(final(self)@),
    {
        self.enter(name, now_ns, Mechanism::ContextLocal)
    }

    /// Enters a span through the future-attached mechanism: it takes its
    /// parent from the context-local chain but stays invisible to that chain
    /// and to this context's records.
    pub fn enter_attached(&mut self, name: String, now_ns: u64) -> (sid: SpanId)
        requires
            old(self)@.next_span_id < u64::MAX,
        ensures
            final(self)@ == spec_enter(old(self)@, Mechanism::FutureAttached, name@, now_ns),
            sid == SpanId(old(self)@.next_span_id),
            wf(old(self)@) ==> wf(final(self)@),
    {
        self.enter(name, now_ns, Mechanism::FutureAttached)
    }

    /// Exits the innermost span, which must have been entered context-locally:
    /// its duration is finalized and it joins the spans awaiting collection.
    pub fn exit_local(&mut self, now_ns: u64)
        requires
            old(self)@.stack.len() > 0,
            old(self)@.stack.last().mechanism is ContextLocal,
        ensures
            final(self)@ == spec_exit_local(old(self)@, now_ns),
            wf(old(self)@) ==> wf(final(self)@),
    {
        let ghost pre = self@;
        let frame = self.stack.pop().unwrap();
        let duration_ns = if now_ns >= frame.begin_time_unix_ns {
            now_ns - frame.begin_time_unix_ns
        } else {
            0
        };
        self.finished.push(
            RawSpan {
                span_id: frame.span_id,
                parent: frame.parent,
                name: frame.name,
                begin_time_unix_ns: frame.begin_time_unix_ns,
                duration_ns,
            },
        );
        proof {
            assert(self@.stack =~= pre.stack.drop_last());
            assert(self@.finished =~= pre.finished.push(finish_frame(pre.stack.last(), now_ns)));
            assert(self@ =~= spec_exit_local(pre, now_ns));
            if wf(pre) {
                lemma_wf_step(pre, Step::ExitLocal { now_ns });
            }
        }
    }

    /// Exits the innermost span, which must have been entered future-attached.
    /// Nothing is recorded anywhere: the span is dropped silently, with no
    /// observable transition. This is the behaviour under study.
    pub fn exit_attached(&mut self, now_ns: u64)
        requires
            old(self)@.stack.len() > 0,
            old(self)@.stack.last().mechanism is FutureAttached,
        ensures
            final(self)@ == spec_exit_attached(old(self)@, now_ns),
            wf(old(self)@) ==> wf(final(self)@),
    {
        let ghost pre = self@;
        let _ = self.stack.pop();
        proof {
            assert(self@.stack =~= pre.stack.drop_last());
            assert(self@.finished =~= pre.finished);
            assert(self@ =~= spec_exit_attached(pre, now_ns));
            if wf(pre) {
                lemma_wf_step(pre, Step::ExitAttached { now_ns });
            }
        }
    }

    /// Drains every span captured through the context-local mechanism since
    /// the context started or was last collected. A second collection with
    /// nothing exited in between returns an empty set: the records are handed
    /// out exactly once.
    pub fn collect(&mut self) -> (spans: LocalSpans)
        ensures
            spans@ == old(self)@.finished,
            final(self)@ == spec_collect(old(self)@),
            wf(old(self)@) ==> wf(final(self)@),
    {
        let ghost pre = self@;
        let mut drained: Vec<RawSpan> = Vec::new();
        std::mem::swap(&mut drained, &mut self.finished);
        proof {
            assert(self@.finished =~= Seq::<SpanView>::empty());
            assert(self@ =~= spec_collect(pre));
        }
        LocalSpans { spans: drained }
    }
}

impl LocalSpans {
    /// The number of spans that the collection drained.
    pub fn len(&self) -> (n: usize)
        ensures
            n == self@.len(),
    {
        self.spans.len()
    }

    /// Turns the drained spans into span records under the supplied ancestry
    /// pair: each record carries the pair's trace id, and a span that
    /// finished without a recorded parent is parented to the pair's span id.
    pub fn to_span_records(&self, ctx: SpanContext) -> (records: Vec<SpanRecord>)
        ensures
            records@.map_values(|r: SpanRecord| r@) == self@.map_values(
                |s: SpanView| record_of(s, ctx),
            ),
    {
        let ghost goal = self@.map_values(|s: SpanView| record_of(s, ctx));
        let mut records: Vec<SpanRecord> = Vec::new();
        let mut i: usize = 0;
        proof {
            assert(records@.map_values(|r: SpanRecord| r@) =~= goal.take(0));
        }
        while i < self.spans.len()
            invariant
                i <= self.spans.len(),
                self@.len() == self.spans@.len(),
                goal == self@.map_values(|s: SpanView| record_of(s, ctx)),
                records@.map_values(|r: SpanRecord| r@) =~= goal.take(i as int),
            decreases self.spans.len() - i,
        {
            let s = &self.spans[i];
            let parent_id = match s.parent {
                Some(p) => SpanId(p),
                None => ctx.span_id,
            };
            let rec = SpanRecord {
                trace_id: ctx.trace_id,
                span_id: SpanId(s.span_id),
                parent_id,
                begin_time_unix_ns: s.begin_time_unix_ns,
                duration_ns: s.duration_ns,
                name: s.name.clone(),
                properties: Vec::new(),
                events: Vec::new(),
            };
            let ghost prev = records@.map_values(|r: SpanRecord| r@);
            records.push(rec);
            proof {
                assert(self@[i as int] == self.spans@[i as int]@);
                assert(rec@.properties =~= Seq::<(Seq<char>, Seq<char>)>::empty());
                assert(rec@.events =~= Seq::<Seq<char>>::empty());
                assert(rec@ =~= record_of(self@[i as int], ctx));
                assert(records@.map_values(|r: SpanRecord| r@) =~= prev.push(rec@));
                assert(records@.map_values(|r: SpanRecord| r@) =~= goal.take(i + 1));
            }
            i = i + 1;
        }
        proof {
            assert(goal.take(i as int) =~= goal);
        }
        records
    }
}

} // verus!
