use agentrt_rs::json::JsonNumber;
use agentrt_rs::telemetry::{Meter, SpanStatus, Tracer, Span};

#[test]
fn meter_keeps_the_latest_points() {
    let mut meter = Meter::with_max(2);
    meter.record_at("a", JsonNumber::PosInt(1), None, 10);
    meter.record_at("b", JsonNumber::PosInt(2), None, 11);
    meter.record_at("a", JsonNumber::PosInt(3), None, 12);
    let all = meter.get_all();
    assert_eq!(all.len(), 2);
    assert_eq!(all[0].name, "b");
    assert_eq!(all[1].value, JsonNumber::PosInt(3));
    assert_eq!(meter.get("a").len(), 1);
    meter.reset();
    assert!(meter.get_all().is_empty());
}

#[test]
fn meter_names_sorted_once() {
    let mut meter = Meter::new();
    for n in ["zeta", "alpha", "mid", "alpha", "Zed", "zeta"] {
        meter.record(n, JsonNumber::PosInt(0), None);
    }
    assert_eq!(meter.get_all_names(), vec!["Zed".to_string(), "alpha".to_string(), "mid".to_string(), "zeta".to_string()]);
}

#[test]
fn tracer_spans() {
    let mut tracer = Tracer::with_max(1);
    let _first = tracer.start_span("one");
    let mut second = tracer.start_span("two");
    assert_eq!(tracer.get_spans().len(), 1);
    assert_eq!(tracer.get_spans()[0].name, "two");
    assert_eq!(second.status, SpanStatus::OK);
    tracer.finish_span(&mut second);
    assert!(second.end_time.unwrap() >= second.start_time);
    assert!(tracer.get_spans()[0].end_time.is_none());
    let mut s = Span::new_at("x", 5);
    s.finish_at(9);
    assert_eq!(s.duration_nanos, Some(4));
    assert_eq!(SpanStatus::Unset.to_string(), "unset");
    tracer.reset();
    assert!(tracer.get_spans().is_empty());
    assert_eq!(Tracer::new().get_spans().len(), 0);
}
