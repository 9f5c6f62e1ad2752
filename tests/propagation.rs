use trace_first_demo::carrier::{extract, inject, Carrier};
use trace_first_demo::context::TraceContext;
use trace_first_demo::executor::begin_work;
use trace_first_demo::types::WorkerRequest;

fn sample_context() -> TraceContext {
    TraceContext {
        trace_id: 0x4bf92f3577b34da6a3ce929d0e0e4736,
        span_id: 0x00f067aa0ba902b7,
        parent_span_id: None,
        sampled: true,
    }
}

fn carrier_with(value: &str) -> Carrier {
    let mut c = Carrier::new();
    c.set("traceparent".to_string(), value.to_string());
    c
}

#[test]
fn inject_writes_fixed_width_lower_hex() {
    let mut carrier = Carrier::new();
    inject(&sample_context(), &mut carrier);
    assert_eq!(carrier.len(), 2);
    assert_eq!(
        carrier.get("traceparent"),
        Some("00-4bf92f3577b34da6a3ce929d0e0e4736-00f067aa0ba902b7-01".to_string())
    );
    assert_eq!(carrier.get("tracestate"), Some(String::new()));
    let c = TraceContext { trace_id: 1, span_id: 2, parent_span_id: None, sampled: false };
    let mut carrier2 = Carrier::new();
    inject(&c, &mut carrier2);
    assert_eq!(
        carrier2.get("traceparent"),
        Some("00-00000000000000000000000000000001-0000000000000002-00".to_string())
    );
}

#[test]
fn context_round_trip_through_empty_carrier() {
    let c = sample_context();
    let mut carrier = Carrier::new();
    inject(&c, &mut carrier);
    assert_eq!(extract(&carrier), Some(c));
    let mut unsampled = c;
    unsampled.sampled = false;
    unsampled.trace_id = u128::MAX;
    unsampled.span_id = u64::MAX;
    let mut carrier2 = Carrier::new();
    inject(&unsampled, &mut carrier2);
    assert_eq!(extract(&carrier2), Some(unsampled));
}

#[test]
fn round_trip_drops_parent_link() {
    let mut c = sample_context();
    c.parent_span_id = Some(5);
    let mut carrier = Carrier::new();
    inject(&c, &mut carrier);
    let mut expected = c;
    expected.parent_span_id = None;
    assert_eq!(extract(&carrier), Some(expected));
}

#[test]
fn inject_overwrites_earlier_value() {
    let mut carrier = Carrier::new();
    carrier.set("traceparent".to_string(), "junk".to_string());
    carrier.set("other".to_string(), "x".to_string());
    assert_eq!(extract(&carrier), None);
    inject(&sample_context(), &mut carrier);
    assert_eq!(carrier.len(), 3);
    assert_eq!(extract(&carrier), Some(sample_context()));
    assert_eq!(carrier.get("other"), Some("x".to_string()));
    let (k, v) = carrier.entry(0);
    assert_eq!(k, "traceparent");
    assert_eq!(v, "00-4bf92f3577b34da6a3ce929d0e0e4736-00f067aa0ba902b7-01");
    let (k1, _) = carrier.entry(1);
    assert_eq!(k1, "other");
}

#[test]
fn malformed_values_give_no_context() {
    for bad in [
        "garbage",
        "",
        "00-4BF92F3577B34DA6A3CE929D0E0E4736-00f067aa0ba902b7-01",
        "ff-4bf92f3577b34da6a3ce929d0e0e4736-00f067aa0ba902b7-01",
        "00-00000000000000000000000000000000-00f067aa0ba902b7-01",
        "00-4bf92f3577b34da6a3ce929d0e0e4736-0000000000000000-01",
        "00-4bf92f3577b34da6a3ce929d0e0e4736_00f067aa0ba902b7-01",
        "00-4bf92f3577b34da6a3ce929d0e0e4736-00f067aa0ba902b7-0g",
        "00-4bf92f3577b34da6a3ce929d0e0e4736-00f067aa0ba902b7-ff",
    ] {
        assert_eq!(extract(&carrier_with(bad)), None, "{}", bad);
    }
}

#[test]
fn flags_bit_zero_is_sampling() {
    let c = extract(&carrier_with("00-4bf92f3577b34da6a3ce929d0e0e4736-00f067aa0ba902b7-01")).unwrap();
    assert!(c.sampled);
    let d = extract(&carrier_with("00-4bf92f3577b34da6a3ce929d0e0e4736-00f067aa0ba902b7-02")).unwrap();
    assert!(!d.sampled);
    assert_eq!(d.trace_id, 0x4bf92f3577b34da6a3ce929d0e0e4736);
    assert_eq!(d.span_id, 0x00f067aa0ba902b7);
    assert_eq!(d.parent_span_id, None);
}

#[test]
fn missing_or_malformed_carrier_gives_root_span() {
    let req = WorkerRequest { id: "w1".to_string(), payload: "p".to_string() };
    let empty = Carrier::new();
    assert_eq!(extract(&empty), None);
    let span = begin_work(&empty, &req, 10);
    let cx = span.context();
    assert!(cx.is_valid());
    assert_eq!(cx.parent_span_id, None);

    let bad = carrier_with("00-zz-zz-01");
    let span2 = begin_work(&bad, &req, 10);
    assert!(span2.context().is_valid());
    assert_eq!(span2.context().parent_span_id, None);
    assert_eq!(span2.name(), "process_payload");
}
