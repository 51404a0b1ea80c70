use surface_dtx::error::ErrorKind;
use surface_dtx::signal::{Event, Message, INTERFACE, MEMBER, PATH};
use surface_dtx::types::{CancelReason, HardwareError, RuntimeError};

fn signal(ty: &str, reason: Option<&str>) -> Message {
    Message {
        signal: true,
        path: Some(PATH.to_string()),
        interface: Some(INTERFACE.to_string()),
        member: Some(MEMBER.to_string()),
        ty: Some(ty.to_string()),
        reason: reason.map(|r| r.to_string()),
    }
}

fn all_events() -> Vec<Event> {
    let reason = CancelReason::Runtime(RuntimeError::Unknown(7));
    vec![
        Event::DetachmentInhibited { reason },
        Event::DetachmentStart,
        Event::DetachmentReady,
        Event::DetachmentComplete,
        Event::DetachmentTimeout,
        Event::DetachmentCancel { reason: CancelReason::Hardware(HardwareError::Unknown(513)) },
        Event::DetachmentCancelStart { reason: CancelReason::Unknown(65535) },
        Event::DetachmentCancelComplete,
        Event::DetachmentCancelTimeout,
        Event::DetachmentUnexpected,
        Event::AttachmentStart,
        Event::AttachmentComplete,
        Event::AttachmentTimeout,
    ]
}

#[test]
fn bus_names() {
    assert_eq!(PATH, "/org/surface/dtx");
    assert_eq!(INTERFACE, "org.surface.dtx");
    assert_eq!(MEMBER, "Event");
}

#[test]
fn signal_types() {
    let names: Vec<&str> = all_events().iter().map(|e| e.ty()).collect();
    assert_eq!(
        names,
        vec![
            "detachment:inhibited",
            "detachment:start",
            "detachment:ready",
            "detachment:complete",
            "detachment:timeout",
            "detachment:cancel",
            "detachment:cancel:start",
            "detachment:cancel:complete",
            "detachment:cancel:timeout",
            "detachment:unexpected",
            "attachment:start",
            "attachment:complete",
            "attachment:timeout",
        ]
    );
}

#[test]
fn signal_values() {
    let event = Event::DetachmentInhibited { reason: CancelReason::Runtime(RuntimeError::NotFeasible) };
    assert_eq!(event.reason(), Some(CancelReason::Runtime(RuntimeError::NotFeasible)));
    assert_eq!(event.reason_arg(), Some("error:runtime:not-feasible".to_string()));
    let event = Event::DetachmentCancel { reason: CancelReason::UserRequest };
    assert_eq!(event.reason_arg(), Some("request".to_string()));
    let event = Event::DetachmentCancelStart { reason: CancelReason::Unknown(3) };
    assert_eq!(event.reason_arg(), Some("unknown:3".to_string()));
    assert_eq!(Event::DetachmentStart.reason(), None);
    assert_eq!(Event::AttachmentTimeout.reason_arg(), None);
}

#[test]
fn signals_round_trip() {
    for event in all_events() {
        let reason = event.reason_arg();
        let msg = signal(event.ty(), reason.as_deref());
        assert_eq!(Event::from_message(&msg).unwrap(), event);
        assert_eq!(Event::try_from_message(&msg).unwrap(), Some(event));
    }
}

#[test]
fn signal_without_reason_takes_no_account_of_one() {
    let msg = signal("detachment:start", Some("no reason at all"));
    assert_eq!(Event::from_message(&msg).unwrap(), Event::DetachmentStart);
}

#[test]
fn signal_with_missing_or_unreadable_reason_is_a_protocol_error() {
    for ty in ["detachment:inhibited", "detachment:cancel", "detachment:cancel:start"] {
        let error = Event::from_message(&signal(ty, None)).unwrap_err();
        assert_eq!(error.kind(), ErrorKind::DBusService);
        let error = Event::from_message(&signal(ty, Some("because"))).unwrap_err();
        assert_eq!(error.kind(), ErrorKind::DBusService);
    }
}

#[test]
fn signal_of_unsupported_type_is_a_protocol_error() {
    for ty in ["", "detachment", "detachment:started", "attachment:cancel", "Detachment:start"] {
        let error = Event::from_message(&signal(ty, None)).unwrap_err();
        assert_eq!(error.kind(), ErrorKind::DBusService);
    }
    let mut msg = signal("detachment:start", None);
    msg.ty = None;
    assert_eq!(Event::from_message(&msg).unwrap_err().kind(), ErrorKind::DBusService);
    assert_eq!(Event::try_from_message(&msg).unwrap_err().kind(), ErrorKind::DBusService);
}

#[test]
fn other_messages_are_passed_over() {
    let good = signal("detachment:start", None);
    assert!(Event::match_message(&good));

    let mut msg = good.clone();
    msg.signal = false;
    assert!(!Event::match_message(&msg));
    assert_eq!(Event::try_from_message(&msg).unwrap(), None);

    let mut msg = good.clone();
    msg.path = Some("/org/surface/other".to_string());
    assert!(!Event::match_message(&msg));

    let mut msg = good.clone();
    msg.path = None;
    assert!(!Event::match_message(&msg));

    let mut msg = good.clone();
    msg.interface = Some("org.surface.dtx2".to_string());
    assert!(!Event::match_message(&msg));

    let mut msg = good.clone();
    msg.member = Some("DetachStateChanged".to_string());
    assert!(!Event::match_message(&msg));
    // a message that is passed over is not read, whatever it holds
    msg.ty = None;
    assert_eq!(Event::try_from_message(&msg).unwrap(), None);
}
