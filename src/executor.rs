//! The executor's decisions for one unit of work:
//! `Received -> Executing -> Completed | Failed`.

use vstd::prelude::*;
use crate::carrier::{extract, extract_allows, injected, propagation_key, Carrier};
use crate::context::TraceContext;
use crate::ids::draw_below;
use crate::span::{child_context, count_value, AttrValue, AttrView, Span, SpanStatus};
use crate::types::{WorkerRequest, WorkerResponse};

verus! {

/// Percentage of units of work that take the slow path.
pub const SLOW_PERCENT: u64 = 5;

/// Percentage of units of work that fail.
pub const FAILURE_PERCENT: u64 = 10;

/// Why a unit of work failed.
#[derive(Clone, Copy, Debug, PartialEq, Eq, Structural)]
pub enum FailureCause {
    Timeout,
    MalformedData,
    RateLimited,
}

/// How one unit of work will go: how long it takes, and whether it fails.
#[derive(Clone, Copy, Debug, PartialEq, Eq, Structural)]
pub struct WorkPlan {
    pub sleep_ms: u64,
    pub failure: Option<FailureCause>,
}

pub open spec fn cause_text(c: FailureCause) -> Seq<char> {
    match c {
        FailureCause::Timeout => "connection timeout: database did not respond within 5000ms"@,
        FailureCause::MalformedData => "deserialization error: unexpected null in response payload"@,
        FailureCause::RateLimited => "rate limited: upstream returned 429"@,
    }
}

impl FailureCause {
    /// The status message of a failure with this cause.
    pub fn message(&self) -> (r: String)
        ensures
            r@ == cause_text(*self),
    {
        match self {
            FailureCause::Timeout => String::from_str(
                "connection timeout: database did not respond within 5000ms",
            ),
            FailureCause::MalformedData => String::from_str(
                "deserialization error: unexpected null in response payload",
            ),
            FailureCause::RateLimited => String::from_str("rate limited: upstream returned 429"),
        }
    }
}

/// The plan that four draws select: slow (500 to 799 ms) when `slow_roll % 100`
/// is below the slow percentage, fast (50 to 149 ms) otherwise; failing when
/// `fail_roll % 100` is below the failure percentage, with the cause picked by
/// `cause_roll % 3`.
pub open spec fn plan_of(slow_roll: u64, latency_roll: u64, fail_roll: u64, cause_roll: u64) -> WorkPlan {
    WorkPlan {
        sleep_ms: if slow_roll % 100 < SLOW_PERCENT {
            (500 + latency_roll % 300) as u64
        } else {
            (50 + latency_roll % 100) as u64
        },
        failure: if fail_roll % 100 < FAILURE_PERCENT {
            Some(
                if cause_roll % 3 == 0 {
                    FailureCause::Timeout
                } else if cause_roll % 3 == 1 {
                    FailureCause::MalformedData
                } else {
                    FailureCause::RateLimited
                },
            )
        } else {
            None
        },
    }
}

pub fn plan_work(slow_roll: u64, latency_roll: u64, fail_roll: u64, cause_roll: u64) -> (r: WorkPlan)
    ensures
        r == plan_of(slow_roll, latency_roll, fail_roll, cause_roll),
        50 <= r.sleep_ms < 150 || 500 <= r.sleep_ms < 800,
{
    let sleep_ms = if slow_roll % 100 < SLOW_PERCENT {
        500 + latency_roll % 300
    } else {
        50 + latency_roll % 100
    };
    let failure = if fail_roll % 100 < FAILURE_PERCENT {
        let k = cause_roll % 3;
        Some(
            if k == 0 {
                FailureCause::Timeout
            } else if k == 1 {
                FailureCause::MalformedData
            } else {
                FailureCause::RateLimited
            },
        )
    } else {
        None
    };
    WorkPlan { sleep_ms, failure }
}

/// Draws a plan at random from the thread-local random source.
pub fn draw_work_plan() -> (r: WorkPlan)
    ensures
        50 <= r.sleep_ms < 150 || 500 <= r.sleep_ms < 800,
        exists|a: u64, b: u64, c: u64, d: u64| r == #[trigger] plan_of(a, b, c, d),
{
    let a = draw_below(100);
    let b = draw_below(300);
    let c = draw_below(100);
    let d = draw_below(3);
    plan_work(a, b, c, d)
}

/// Opens the executor's span for `req`: a child of the context that the
/// carrier holds, with a span id of its own, or a new root when it holds none
/// that decodes.
pub fn begin_work(carrier: &Carrier, req: &WorkerRequest, now: u64) -> (r: Span)
    requires
        carrier.wf(),
    ensures
        r.wf(),
        exists|parent: Option<TraceContext>, t: u128, s: u64|
            t != 0 && s != 0 && extract_allows(carrier@, parent) && (parent matches Some(p)
                ==> s != p.span_id) && r@.started(
                "process_payload"@,
                #[trigger] child_context(parent, t, s),
                now,
                Map::<Seq<char>, AttrView>::empty().insert("payload.id"@, AttrView::Str(req.id@)),
            ),
{
    let parent = extract(carrier);
    let mut span = Span::start_span(String::from_str("process_payload"), parent, now);
    let ghost ctx = span@.context;
    span.record_attribute(String::from_str("payload.id"), AttrValue::Str(req.id.clone()));
    proof {
        let (t, w) = choose|t: u128, s: u64| t != 0 && s != 0 && #[trigger] child_context(parent, t, s) == ctx;
        assert(span@.attributes =~= Map::<Seq<char>, AttrView>::empty().insert("payload.id"@, AttrView::Str(req.id@)));
        assert(span@.started(
            "process_payload"@,
            child_context(parent, t, w),
            now,
            Map::<Seq<char>, AttrView>::empty().insert("payload.id"@, AttrView::Str(req.id@)),
        ));
    }
    span
}

/// The executor's message for a unit of work with id `id`.
pub open spec fn work_message(id: Seq<char>, failure: Option<FailureCause>) -> Seq<char> {
    match failure {
        None => "processed "@ + id,
        Some(c) => "failed to process "@ + id + ": "@ + cause_text(c),
    }
}

/// Reports the outcome of a unit of work. The response's flag and message
/// mirror the span: `Success`, or `Error` with the same message. The duration
/// is recorded and the span closed.
pub fn finish_work(span: &mut Span, id: &String, failure: Option<FailureCause>, duration_ms: u64, now: u64) -> (r: WorkerResponse)
    requires
        old(span).wf(),
        !old(span)@.closed(),
        old(span)@.status == SpanStatus::Unset,
    ensures
        final(span).wf(),
        final(span)@.closed(),
        final(span)@.context == old(span)@.context,
        r.success == failure is None,
        r.message@ == work_message(id@, failure),
        final(span)@.status == (if r.success { SpanStatus::Success } else { SpanStatus::Error }),
        final(span)@.status_message == (if r.success { None } else { Some(r.message@) }),
        final(span)@.attributes == old(span)@.attributes.insert(
            "processing.duration_ms"@,
            count_value(duration_ms),
        ),
{
    span.record_attribute(String::from_str("processing.duration_ms"), AttrValue::count(duration_ms));
    match failure {
        None => {
            let mut m = String::from_str("processed ");
            m.append(id.as_str());
            span.set_status(SpanStatus::Success, None);
            span.close(now);
            WorkerResponse { success: true, message: m }
        },
        Some(c) => {
            let mut m = String::from_str("failed to process ");
            m.append(id.as_str());
            m.append(": ");
            let t = c.message();
            m.append(t.as_str());
            span.set_status(SpanStatus::Error, Some(m.clone()));
            span.close(now);
            WorkerResponse { success: false, message: m }
        },
    }
}

/// The executor's span, opened from the carrier that a dispatcher span
/// produced, lies in the same trace as a child of that span.
pub proof fn lemma_parent_linkage(dispatcher: TraceContext, parent: Option<TraceContext>, trace_id: u128, span_id: u64)
    requires
        dispatcher.valid(),
        extract_allows(injected(dispatcher, Map::empty()), parent),
    ensures
        child_context(parent, trace_id, span_id).trace_id == dispatcher.trace_id,
        child_context(parent, trace_id, span_id).parent_span_id == Some(dispatcher.span_id),
{
    assert(injected(dispatcher, Map::empty()) == injected(dispatcher, Map::<Seq<char>, Seq<char>>::empty()));
}

/// A carrier without the propagation key yields no parent, and the span
/// opened from it is a valid root.
pub proof fn lemma_unknown_parent_gives_root(
    m: Map<Seq<char>, Seq<char>>,
    parent: Option<TraceContext>,
    trace_id: u128,
    span_id: u64,
)
    requires
        !m.contains_key(propagation_key()),
        extract_allows(m, parent),
        trace_id != 0,
        span_id != 0,
    ensures
        parent is None,
        child_context(parent, trace_id, span_id).parent_span_id is None,
        child_context(parent, trace_id, span_id).valid(),
{
}

} // verus!
