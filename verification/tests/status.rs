use httpframe::events::{BodyEvent, EventLog, Read};
use httpframe::message::RawStatus;

#[test]
fn raw_status_round_trips_through_its_pair_representation() {
    let status = RawStatus(404, String::from("Not Found"));
    let (code, reason) = status.to_pair();
    let rebuilt = RawStatus::from_pair(code, reason);
    assert_eq!(rebuilt, status);
}

#[test]
fn raw_status_equality_is_structural() {
    let a = RawStatus(200, String::from("OK"));
    assert_eq!(a, RawStatus(200, String::from("OK")));
    assert_ne!(a, RawStatus(200, String::from("Okay")));
    assert_ne!(a, RawStatus(201, String::from("OK")));
}

#[test]
fn event_log_records_deliveries_in_order() {
    let mut log = EventLog::new();
    log.on_data(b"abc");
    log.on_data(b"");
    log.on_eof();

    assert_eq!(log.log.len(), 3);
    assert!(matches!(&log.log[0], BodyEvent::Data(d) if d == b"abc"));
    assert!(matches!(&log.log[1], BodyEvent::Data(d) if d.is_empty()));
    assert!(matches!(&log.log[2], BodyEvent::Eof));
}
