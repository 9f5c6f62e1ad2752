//! The dispatcher's decisions for one inbound request:
//! `Received -> Validated | Rejected -> Dispatched -> Succeeded | Failed`.

use vstd::prelude::*;
use crate::carrier::{inject, injected, Carrier};
use crate::span::{count_value, AttrValue, AttrView, Span, SpanStatus, child_context};
use crate::types::{ProcessRequest, ProcessResponse, WorkerRequest, WorkerResponse};

verus! {

/// How the downstream call ended, as the transport saw it.
pub enum DownstreamOutcome {
    /// The executor could not be reached; the transport's error text.
    Unavailable(String),
    /// The executor answered with a body that did not decode.
    Malformed,
    /// The executor answered.
    Replied(WorkerResponse),
}

/// What to do once a request has been received and checked.
pub enum DispatchStep {
    /// Answer the caller now; nothing goes downstream.
    Respond(ProcessResponse),
    /// Send this work downstream with this metadata, under this open child
    /// span of the request, whose context the metadata carries.
    Forward(WorkerRequest, Carrier, Span),
}

/// A request is valid when both its id and its payload are non-empty.
pub open spec fn request_valid(req: ProcessRequest) -> bool {
    req.id@.len() > 0 && req.payload@.len() > 0
}

pub fn validate_input(req: &ProcessRequest) -> (r: bool)
    ensures
        r == request_valid(*req),
{
    !req.id.as_str().is_empty() && !req.payload.as_str().is_empty()
}

/// Attributes of a request span when it opens.
pub open spec fn request_attributes(req: ProcessRequest) -> Map<Seq<char>, AttrView> {
    Map::<Seq<char>, AttrView>::empty().insert("http.method"@, AttrView::Str("POST"@)).insert(
        "http.route"@,
        AttrView::Str("/process"@),
    ).insert("request_id"@, AttrView::Str(req.id@)).insert("payload_size"@, count_value(vstd::utf8::encode_utf8(req.payload@).len() as u64))
}

/// Opens the root span of an inbound request, recording its method, route,
/// id and payload size in bytes (UTF-8).
pub fn open_request_span(req: &ProcessRequest, now: u64) -> (r: Span)
    ensures
        r.wf(),
        r@.context.parent_span_id is None,
        exists|t: u128, s: u64|
            t != 0 && s != 0 && r@.started(
                "http_request"@,
                #[trigger] child_context(None, t, s),
                now,
                request_attributes(*req),
            ),
{
    let mut span = Span::start_span(String::from_str("http_request"), None, now);
    let ghost ctx = span@.context;
    span.record_attribute(String::from_str("http.method"), AttrValue::Str(String::from_str("POST")));
    span.record_attribute(String::from_str("http.route"), AttrValue::Str(String::from_str("/process")));
    span.record_attribute(String::from_str("request_id"), AttrValue::Str(req.id.clone()));
    span.record_attribute(String::from_str("payload_size"), AttrValue::count(req.payload.as_str().as_bytes().len() as u64));
    proof {
        broadcast use vstd::string::group_string_axioms;
        assert(span@.attributes =~= request_attributes(*req));
        let (t, w) = choose|t: u128, s: u64| t != 0 && s != 0 && #[trigger] child_context(None, t, s) == ctx;
        assert(span@.started("http_request"@, child_context(None, t, w), now, request_attributes(*req)));
    }
    span
}

/// The message of a rejected request.
pub open spec fn invalid_input_message() -> Seq<char> {
    "invalid input"@
}

/// Validates `req` on its open span. An invalid request is answered at once
/// with `invalid input`, mirrored as the span's error status, and the span is
/// closed; a valid one is forwarded under a new child span
/// `dispatch_to_worker`, whose context goes in the carrier.
pub fn receive(span: &mut Span, req: ProcessRequest, now: u64) -> (r: DispatchStep)
    requires
        old(span).wf(),
        !old(span)@.closed(),
        old(span)@.status == SpanStatus::Unset,
    ensures
        final(span).wf(),
        !request_valid(req) ==> match r {
            DispatchStep::Respond(resp) => {
                &&& resp.id@ == req.id@
                &&& resp.status@ == "error"@
                &&& resp.message@ == invalid_input_message()
                &&& final(span)@.status == SpanStatus::Error
                &&& final(span)@.status_message == Some(invalid_input_message())
                &&& final(span)@.closed()
                &&& final(span)@.context == old(span)@.context
                &&& final(span)@.attributes == old(span)@.attributes.insert(
                    "http.status_code"@,
                    AttrView::Int(400),
                )
            },
            DispatchStep::Forward(_, _, _) => false,
        },
        request_valid(req) ==> match r {
            DispatchStep::Respond(_) => false,
            DispatchStep::Forward(w, c, d) => {
                &&& w.id@ == req.id@
                &&& w.payload@ == req.payload@
                &&& d.wf()
                &&& d@.context.span_id != old(span)@.context.span_id
                &&& exists|t: u128, s: u64|
                    t != 0 && s != 0 && d@.fresh(
                        "dispatch_to_worker"@,
                        #[trigger] child_context(Some(old(span)@.context), t, s),
                        now,
                    )
                &&& c.wf()
                &&& c@ == injected(d@.context, Map::empty())
                &&& final(span)@ == old(span)@
            },
        },
{
    if !validate_input(&req) {
        span.record_attribute(String::from_str("http.status_code"), AttrValue::Int(400));
        span.set_status(SpanStatus::Error, Some(String::from_str("invalid input")));
        span.close(now);
        let resp = ProcessResponse {
            id: req.id,
            status: String::from_str("error"),
            message: String::from_str("invalid input"),
        };
        return DispatchStep::Respond(resp);
    }
    let dispatch = Span::start_span(String::from_str("dispatch_to_worker"), Some(span.context()), now);
    let mut carrier = Carrier::new();
    let cx = dispatch.context();
    inject(&cx, &mut carrier);
    DispatchStep::Forward(WorkerRequest { id: req.id, payload: req.payload }, carrier, dispatch)
}

/// Whether the downstream outcome is a success.
pub open spec fn outcome_succeeded(o: DownstreamOutcome) -> bool {
    o matches DownstreamOutcome::Replied(w) && w.success
}

/// The message reported to the caller for a downstream outcome.
pub open spec fn outcome_message(o: DownstreamOutcome) -> Seq<char> {
    match o {
        DownstreamOutcome::Unavailable(e) => "worker unavailable: "@ + e@,
        DownstreamOutcome::Malformed => "failed to parse worker response"@,
        DownstreamOutcome::Replied(w) => w.message@,
    }
}

/// Maps the downstream outcome to the caller's response, mirroring it on the
/// request span (status `200` and `Success`, or `500` and `Error` with the
/// same message) and on the dispatch span, and closes both.
pub fn conclude(span: &mut Span, dispatch: &mut Span, id: String, outcome: DownstreamOutcome, now: u64) -> (r: ProcessResponse)
    requires
        old(span).wf(),
        !old(span)@.closed(),
        old(span)@.status == SpanStatus::Unset,
        old(dispatch).wf(),
        !old(dispatch)@.closed(),
        old(dispatch)@.status == SpanStatus::Unset,
    ensures
        final(dispatch).wf(),
        final(dispatch)@.closed(),
        final(dispatch)@.context == old(dispatch)@.context,
        final(dispatch)@.attributes == old(dispatch)@.attributes,
        final(dispatch)@.status == final(span)@.status,
        final(dispatch)@.status_message == final(span)@.status_message,
        final(span).wf(),
        final(span)@.closed(),
        r.id@ == id@,
        r.message@ == outcome_message(outcome),
        r.status@ == (if outcome_succeeded(outcome) { "success"@ } else { "error"@ }),
        final(span)@.status == (if outcome_succeeded(outcome) { SpanStatus::Success } else { SpanStatus::Error }),
        final(span)@.status_message == (if outcome_succeeded(outcome) { None } else { Some(r.message@) }),
        final(span)@.attributes == old(span)@.attributes.insert(
            "http.status_code"@,
            AttrView::Int(if outcome_succeeded(outcome) { 200 } else { 500 }),
        ),
        final(span)@.context == old(span)@.context,
        r.status@ == "error"@ ==> final(span)@.status == SpanStatus::Error
            && final(span)@.status_message == Some(r.message@),
{
    proof {
        reveal_strlit("success");
        reveal_strlit("error");
        assert("success"@[0] != "error"@[0]);
    }
    let (success, message) = match outcome {
        DownstreamOutcome::Unavailable(e) => {
            let mut m = String::from_str("worker unavailable: ");
            m.append(e.as_str());
            (false, m)
        },
        DownstreamOutcome::Malformed => (false, String::from_str("failed to parse worker response")),
        DownstreamOutcome::Replied(w) => (w.success, w.message),
    };
    if success {
        span.record_attribute(String::from_str("http.status_code"), AttrValue::Int(200));
        span.set_status(SpanStatus::Success, None);
        span.close(now);
        dispatch.set_status(SpanStatus::Success, None);
        dispatch.close(now);
        ProcessResponse { id, status: String::from_str("success"), message }
    } else {
        span.record_attribute(String::from_str("http.status_code"), AttrValue::Int(500));
        span.set_status(SpanStatus::Error, Some(message.clone()));
        span.close(now);
        dispatch.set_status(SpanStatus::Error, Some(message.clone()));
        dispatch.close(now);
        ProcessResponse { id, status: String::from_str("error"), message }
    }
}

/// An unreachable executor is reported with a message that contains
/// `unavailable`.
pub proof fn lemma_unavailable_message(e: String)
    ensures
        outcome_message(DownstreamOutcome::Unavailable(e)).subrange(7, 18) == "unavailable"@,
{
    reveal_strlit("worker unavailable: ");
    reveal_strlit("unavailable");
    assert(outcome_message(DownstreamOutcome::Unavailable(e)).subrange(7, 18) =~= "unavailable"@);
}

} // verus!
