use trace_first_demo::carrier::extract;
use trace_first_demo::dispatcher::{conclude, open_request_span, receive, validate_input, DispatchStep, DownstreamOutcome};
use trace_first_demo::executor::{begin_work, finish_work};
use trace_first_demo::span::{AttrValue, SpanStatus};
use trace_first_demo::types::{ProcessRequest, WorkerResponse};

fn request(id: &str, payload: &str) -> ProcessRequest {
    ProcessRequest { id: id.to_string(), payload: payload.to_string() }
}

#[test]
fn validate_input_needs_id_and_payload() {
    assert!(validate_input(&request("a", "b")));
    assert!(!validate_input(&request("", "b")));
    assert!(!validate_input(&request("a", "")));
    assert!(!validate_input(&request("", "")));
}

#[test]
fn request_span_records_identity() {
    let req = request("r-1", "héllo");
    let one = open_request_span(&request("r-2", "é"), 0);
    assert_eq!(one.attribute("payload_size"), Some(AttrValue::Int(2)));
    let span = open_request_span(&req, 7);
    assert_eq!(span.name(), "http_request");
    assert_eq!(span.start_time(), 7);
    assert_eq!(span.context().parent_span_id, None);
    assert!(span.context().is_valid());
    assert_eq!(span.attribute("request_id"), Some(AttrValue::Str("r-1".to_string())));
    assert_eq!(span.attribute("payload_size"), Some(AttrValue::Int(6)));
    assert_eq!(span.attribute("http.method"), Some(AttrValue::Str("POST".to_string())));
    assert_eq!(span.attribute("http.route"), Some(AttrValue::Str("/process".to_string())));
    assert_eq!(span.status(), SpanStatus::Unset);
}

#[test]
fn invalid_requests_are_rejected_without_forwarding() {
    for req in [request("", "x"), request("x", "")] {
        let mut span = open_request_span(&req, 1);
        match receive(&mut span, req.clone(), 2) {
            DispatchStep::Respond(resp) => {
                assert_eq!(resp.id, req.id);
                assert_eq!(resp.status, "error");
                assert_eq!(resp.message, "invalid input");
            }
            DispatchStep::Forward(_, _, _) => panic!("forwarded an invalid request"),
        }
        assert!(span.is_closed());
        assert_eq!(span.status(), SpanStatus::Error);
        assert_eq!(span.status_message(), Some("invalid input".to_string()));
        assert_eq!(span.attribute("http.status_code"), Some(AttrValue::Int(400)));
    }
}

#[test]
fn executor_span_is_child_of_dispatcher_span() {
    let req = request("job-9", "data");
    let mut span = open_request_span(&req, 1);
    let request_cx = span.context();
    let (work, carrier, dispatch) = match receive(&mut span, req.clone(), 2) {
        DispatchStep::Forward(w, c, d) => (w, c, d),
        DispatchStep::Respond(_) => panic!("rejected a valid request"),
    };
    let dispatcher_cx = dispatch.context();
    assert_eq!(dispatch.name(), "dispatch_to_worker");
    assert_eq!(dispatcher_cx.trace_id, request_cx.trace_id);
    assert_eq!(dispatcher_cx.parent_span_id, Some(request_cx.span_id));
    assert_ne!(dispatcher_cx.span_id, request_cx.span_id);
    assert_eq!(work.id, "job-9");
    assert_eq!(work.payload, "data");
    assert!(!span.is_closed());
    let got = extract(&carrier).unwrap();
    assert_eq!(got.trace_id, dispatcher_cx.trace_id);
    assert_eq!(got.span_id, dispatcher_cx.span_id);
    let child = begin_work(&carrier, &work, 3);
    assert_eq!(child.context().trace_id, dispatcher_cx.trace_id);
    assert_eq!(child.context().parent_span_id, Some(dispatcher_cx.span_id));
    assert_eq!(child.context().sampled, dispatcher_cx.sampled);
    assert_ne!(child.context().span_id, 0);
    assert_ne!(child.context().span_id, dispatcher_cx.span_id);
    assert_eq!(child.attribute("payload.id"), Some(AttrValue::Str("job-9".to_string())));
}

fn forwarded_span(id: &str) -> (trace_first_demo::span::Span, trace_first_demo::span::Span) {
    let req = request(id, "p");
    let mut span = open_request_span(&req, 1);
    match receive(&mut span, req, 2) {
        DispatchStep::Forward(_, _, d) => (span, d),
        DispatchStep::Respond(_) => panic!("rejected a valid request"),
    }
}

#[test]
fn transport_failure_reports_unavailable() {
    let (mut span, mut dispatch) = forwarded_span("a");
    let resp = conclude(&mut span, &mut dispatch, "a".to_string(), DownstreamOutcome::Unavailable("connection refused".to_string()), 5);
    assert_eq!(resp.id, "a");
    assert_eq!(resp.status, "error");
    assert_eq!(resp.message, "worker unavailable: connection refused");
    assert!(resp.message.contains("unavailable"));
    assert_eq!(span.status(), SpanStatus::Error);
    assert_eq!(span.status_message(), Some(resp.message.clone()));
    assert_eq!(span.attribute("http.status_code"), Some(AttrValue::Int(500)));
    assert_eq!(span.end_time(), Some(5));
    assert!(dispatch.is_closed());
    assert_eq!(dispatch.status(), SpanStatus::Error);
    assert_eq!(dispatch.status_message(), Some(resp.message.clone()));
}

#[test]
fn malformed_reply_reports_parse_failure() {
    let (mut span, mut dispatch) = forwarded_span("b");
    let resp = conclude(&mut span, &mut dispatch, "b".to_string(), DownstreamOutcome::Malformed, 5);
    assert_eq!(resp.status, "error");
    assert_eq!(resp.message, "failed to parse worker response");
    assert_eq!(span.status_message(), Some("failed to parse worker response".to_string()));
}

#[test]
fn reported_failure_passes_message_through() {
    let (mut span, mut dispatch) = forwarded_span("c");
    let reply = WorkerResponse { success: false, message: "failed to process c: rate limited: upstream returned 429".to_string() };
    let resp = conclude(&mut span, &mut dispatch, "c".to_string(), DownstreamOutcome::Replied(reply), 5);
    assert_eq!(resp.status, "error");
    assert_eq!(resp.message, "failed to process c: rate limited: upstream returned 429");
    assert_eq!(span.status(), SpanStatus::Error);
    assert_eq!(span.status_message(), Some(resp.message.clone()));
}

#[test]
fn success_reply_is_passed_on() {
    let (mut span, mut dispatch) = forwarded_span("d");
    let reply = WorkerResponse { success: true, message: "processed d".to_string() };
    let resp = conclude(&mut span, &mut dispatch, "d".to_string(), DownstreamOutcome::Replied(reply), 5);
    assert_eq!(resp.status, "success");
    assert_eq!(resp.message, "processed d");
    assert_eq!(span.status(), SpanStatus::Success);
    assert_eq!(span.status_message(), None);
    assert_eq!(dispatch.status(), SpanStatus::Success);
    assert!(dispatch.is_closed());
    assert_eq!(span.attribute("http.status_code"), Some(AttrValue::Int(200)));
    assert!(span.is_closed());
}

#[test]
fn end_to_end_failure_mirrors_on_both_spans() {
    let req = request("e", "p");
    let mut span = open_request_span(&req, 1);
    let (work, carrier, mut dispatch) = match receive(&mut span, req, 2) {
        DispatchStep::Forward(w, c, d) => (w, c, d),
        DispatchStep::Respond(_) => panic!("rejected a valid request"),
    };
    let mut child = begin_work(&carrier, &work, 3);
    let reply = finish_work(&mut child, &work.id, Some(trace_first_demo::executor::FailureCause::Timeout), 120, 4);
    let resp = conclude(&mut span, &mut dispatch, "e".to_string(), DownstreamOutcome::Replied(reply), 6);
    assert_eq!(resp.message, "failed to process e: connection timeout: database did not respond within 5000ms");
    assert_eq!(child.status_message(), Some(resp.message.clone()));
    assert_eq!(span.status_message(), Some(resp.message.clone()));
}
