//! Tests of the event loop: correlation, idempotent unregistration,
//! timeout, deprecated-event suppression, and delivery order.

use mpv::error::Error;
use mpv::event_loop::EventLoop;
use mpv::events::Event;
use mpv::format::Format;
use mpv::native::{RawEvent, RawEventData, RawPayload, RawProperty};
use mpv::value::Data;

fn bytes(s: &str) -> Vec<u8> {
    s.as_bytes().to_vec()
}

fn plain_event(event_id: i32) -> RawEvent {
    RawEvent { event_id, error: 0, reply_userdata: 0, data: RawEventData::NoData }
}

fn property_change(id: u64, name: &str, format: i32, data: RawPayload) -> RawEvent {
    RawEvent {
        event_id: 22,
        error: 0,
        reply_userdata: id,
        data: RawEventData::Property(RawProperty { name: bytes(name), format, data }),
    }
}

#[test]
fn observation_correlation_uses_table_name() {
    let mut el = EventLoop::new();
    el.observe("volume".to_string(), Format::Int64, 7).unwrap();
    // The envelope itself omits the name; the table supplies it.
    el.push_native_event(property_change(7, "", 4, RawPayload::Int64(64)));
    match el.wait_event(100).unwrap() {
        Event::PropertyChange { id, name, data } => {
            assert_eq!(id, 7);
            assert_eq!(name, "volume");
            assert!(matches!(data, Data::Int64(64)));
        }
        other => panic!("expected a property change, got {:?}", other),
    }
}

#[test]
fn unobserve_unknown_id_is_a_no_op() {
    let mut el = EventLoop::new();
    assert!(el.unobserve(5).is_ok());
    assert!(el.unobserve(5).is_ok());
}

#[test]
fn unobserved_notification_falls_back_to_envelope_name() {
    let mut el = EventLoop::new();
    assert!(el.unobserve(9).is_ok());
    el.push_native_event(property_change(9, "mute", 3, RawPayload::Flag(1)));
    match el.wait_event(0).unwrap() {
        Event::PropertyChange { id, name, data } => {
            assert_eq!(id, 9);
            assert_eq!(name, "mute");
            assert!(matches!(data, Data::Flag(true)));
        }
        other => panic!("expected a property change, got {:?}", other),
    }
}

#[test]
fn wait_with_nothing_pending_times_out() {
    let mut el = EventLoop::new();
    assert_eq!(el.wait_event(10).unwrap_err(), Error::Timeout);
    assert_eq!(el.wait_event(0).unwrap_err(), Error::Timeout);
}

#[test]
fn suppressed_deprecated_events_never_surface() {
    let mut el = EventLoop::new();
    el.suppress_deprecated_events().unwrap();
    el.push_native_event(plain_event(14)); // tick: deprecated
    el.push_native_event(plain_event(11)); // idle: deprecated
    el.push_native_event(plain_event(6)); // start-file
    el.push_native_event(plain_event(14)); // tick again
    assert!(matches!(el.wait_event(0).unwrap(), Event::StartFile));
    assert_eq!(el.wait_event(0).unwrap_err(), Error::Timeout);
}

#[test]
fn deprecated_events_surface_without_suppression() {
    let mut el = EventLoop::new();
    el.push_native_event(plain_event(14));
    assert!(matches!(el.wait_event(0).unwrap(), Event::Tick));
}

#[test]
fn events_are_delivered_in_emission_order() {
    let mut el = EventLoop::new();
    el.observe("volume".to_string(), Format::Int64, 1).unwrap();
    el.push_native_event(plain_event(6)); // start-file
    el.push_native_event(property_change(1, "", 4, RawPayload::Int64(50)));
    el.push_native_event(RawEvent {
        event_id: 7,
        error: 0,
        reply_userdata: 0,
        data: RawEventData::EndFile(0),
    });
    assert!(matches!(el.wait_event(0).unwrap(), Event::StartFile));
    match el.wait_event(0).unwrap() {
        Event::PropertyChange { name, .. } => assert_eq!(name, "volume"),
        other => panic!("expected a property change, got {:?}", other),
    }
    assert!(matches!(el.wait_event(0).unwrap(), Event::EndFile(0)));
    assert_eq!(el.wait_event(0).unwrap_err(), Error::Timeout);
}

#[test]
fn native_error_status_is_kept_exactly() {
    let mut el = EventLoop::new();
    el.push_native_event(RawEvent {
        event_id: 5, // command reply
        error: -12,
        reply_userdata: 3,
        data: RawEventData::NoData,
    });
    assert_eq!(el.wait_event(0).unwrap_err(), Error::Native(-12));
}

#[test]
fn unknown_event_kinds_are_skipped() {
    let mut el = EventLoop::new();
    el.push_native_event(plain_event(0)); // the "none" event
    el.push_native_event(plain_event(9)); // a kind this library does not surface
    el.push_native_event(plain_event(1)); // shutdown
    assert!(matches!(el.wait_event(0).unwrap(), Event::Shutdown));
}

#[test]
fn reregistering_an_id_overwrites_it() {
    let mut el = EventLoop::new();
    el.observe("volume".to_string(), Format::Int64, 2).unwrap();
    el.observe("mute".to_string(), Format::Flag, 2).unwrap();
    el.push_native_event(property_change(2, "", 3, RawPayload::Flag(0)));
    match el.wait_event(0).unwrap() {
        Event::PropertyChange { name, data, .. } => {
            assert_eq!(name, "mute");
            assert!(matches!(data, Data::Flag(false)));
        }
        other => panic!("expected a property change, got {:?}", other),
    }
}

#[test]
fn same_property_under_two_ids_is_independent() {
    let mut el = EventLoop::new();
    el.observe("volume".to_string(), Format::Int64, 1).unwrap();
    el.observe("volume".to_string(), Format::Int64, 2).unwrap();
    el.unobserve(1).unwrap();
    el.push_native_event(property_change(2, "", 4, RawPayload::Int64(8)));
    match el.wait_event(0).unwrap() {
        Event::PropertyChange { id, name, .. } => {
            assert_eq!(id, 2);
            assert_eq!(name, "volume");
        }
        other => panic!("expected a property change, got {:?}", other),
    }
}

#[test]
fn decode_failure_of_one_event_is_surfaced_not_skipped() {
    let mut el = EventLoop::new();
    // A property change whose payload shape does not match its format tag.
    el.push_native_event(property_change(1, "volume", 4, RawPayload::Double(0)));
    el.push_native_event(plain_event(1));
    assert!(matches!(el.wait_event(0), Err(Error::Decode(_))));
    // The malformed envelope was consumed; the next poll sees the shutdown.
    assert!(matches!(el.wait_event(0).unwrap(), Event::Shutdown));
}
