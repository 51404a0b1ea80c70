use surface_dtx::adapter::Adapter;
use surface_dtx::arg::DbusArg;
use surface_dtx::device::Command;
use surface_dtx::engine::Call;
use surface_dtx::error::{Error, ErrorKind};
use surface_dtx::service::{Emission, Property, ServiceAdapter, ServiceHandle};
use surface_dtx::signal::Event;
use surface_dtx::types::{
    BaseInfo, BaseState, CancelReason, DeviceMode, DeviceType, HardwareError, LatchState,
    LatchStatus, RuntimeError,
};

fn info(state: BaseState) -> BaseInfo {
    BaseInfo { state, device_type: DeviceType::Ssh, id: 0 }
}

#[test]
fn property_holds_name_and_value() {
    let property = Property::new("DeviceMode", DeviceMode::Laptop);
    assert_eq!(property.name(), "DeviceMode");
    assert_eq!(*property.get(), DeviceMode::Laptop);
    assert_eq!(property.as_arg(), "laptop");
}

#[test]
fn property_tells_a_change_from_a_repetition() {
    let mut property = Property::new("LatchStatus", LatchStatus::Closed);
    assert!(!property.set(LatchStatus::Closed));
    assert!(property.set(LatchStatus::Opened));
    assert_eq!(*property.get(), LatchStatus::Opened);
    assert!(!property.set(LatchStatus::Opened));
    assert!(property.set(LatchStatus::Error(HardwareError::Unknown(1))));
    assert!(property.set(LatchStatus::Error(HardwareError::Unknown(2))));
    assert!(!property.set(LatchStatus::Error(HardwareError::Unknown(2))));
    assert_eq!(property.name(), "LatchStatus");
}

#[test]
fn publisher_starts_with_defaults() {
    let mut service = ServiceHandle::new();
    assert_eq!(service.device_mode(), "laptop");
    assert_eq!(service.latch_status(), "closed");
    assert_eq!(service.base_info(), ("attached".to_string(), "ssh".to_string(), 0));
    assert_eq!(service.take_messages(), vec![]);
    assert_eq!(ServiceHandle::request(), Command::LatchRequest);
}

#[test]
fn publisher_announces_changes_only() {
    let mut service = ServiceHandle::new();
    service.set_device_mode(DeviceMode::Laptop);
    service.set_device_mode(DeviceMode::Tablet);
    service.set_device_mode(DeviceMode::Tablet);
    service.set_latch_status(LatchStatus::Closed);
    service.set_latch_status(LatchStatus::Opened);
    service.set_base_info(info(BaseState::Attached));
    service.set_base_info(BaseInfo { id: 1, ..info(BaseState::Attached) });
    service.emit_event(Event::DetachmentStart);
    service.emit_event(Event::DetachmentStart);
    assert_eq!(
        service.take_messages(),
        vec![
            Emission::DeviceMode(DeviceMode::Tablet),
            Emission::LatchStatus(LatchStatus::Opened),
            Emission::Base(BaseInfo { id: 1, ..info(BaseState::Attached) }),
            Emission::Event(Event::DetachmentStart),
            Emission::Event(Event::DetachmentStart),
        ]
    );
    assert_eq!(service.take_messages(), vec![]);
    assert_eq!(service.device_mode(), "tablet");
    assert_eq!(service.latch_status(), "opened");
    assert_eq!(service.base_info(), ("attached".to_string(), "ssh".to_string(), 1));
}

#[test]
fn emission_names() {
    assert_eq!(Emission::DeviceMode(DeviceMode::Tablet).name(), "DeviceMode");
    assert_eq!(Emission::LatchStatus(LatchStatus::Closed).name(), "LatchStatus");
    assert_eq!(Emission::Base(info(BaseState::Detached)).name(), "Base");
    assert_eq!(Emission::Event(Event::AttachmentStart).name(), "Event");
}

#[test]
fn service_adapter_publishes_the_start_state() {
    let mut adapter = ServiceAdapter::new(ServiceHandle::new());
    let call = Call::SetState {
        mode: DeviceMode::Studio,
        base: info(BaseState::Detached),
        latch: LatchState::Opened,
    };
    assert!(call.deliver(&mut adapter).is_ok());
    assert_eq!(
        adapter.take_messages(),
        vec![
            Emission::Base(info(BaseState::Detached)),
            Emission::LatchStatus(LatchStatus::Opened),
            Emission::DeviceMode(DeviceMode::Studio),
        ]
    );
    assert!(adapter.take(call).is_ok());
    assert_eq!(adapter.take_messages(), vec![]);
    assert_eq!(adapter.service().device_mode(), "studio");
}

#[test]
fn service_adapter_signals_every_transition() {
    let reason = CancelReason::Runtime(RuntimeError::Timeout);
    let mut adapter = ServiceAdapter::new(ServiceHandle::new());
    let calls = [
        Call::RequestCanceled { reason },
        Call::DetachmentStart,
        Call::DetachmentComplete,
        Call::DetachmentTimeout,
        Call::DetachmentCancelStart { reason },
        Call::DetachmentCancelComplete,
        Call::DetachmentCancelTimeout,
        Call::DetachmentUnexpected,
        Call::AttachmentStart,
        Call::AttachmentComplete,
        Call::AttachmentTimeout,
        Call::BaseState { info: info(BaseState::NotFeasible) },
        Call::LatchStatus { status: LatchStatus::Error(HardwareError::FailedToClose) },
        Call::DeviceMode { mode: DeviceMode::Tablet },
    ];
    for call in calls {
        assert!(call.deliver(&mut adapter).is_ok());
    }
    assert_eq!(
        adapter.take_messages(),
        vec![
            Emission::Event(Event::DetachmentInhibited { reason }),
            Emission::Event(Event::DetachmentStart),
            Emission::Event(Event::DetachmentComplete),
            Emission::Event(Event::DetachmentTimeout),
            Emission::Event(Event::DetachmentCancelStart { reason }),
            Emission::Event(Event::DetachmentCancelComplete),
            Emission::Event(Event::DetachmentCancelTimeout),
            Emission::Event(Event::DetachmentUnexpected),
            Emission::Event(Event::AttachmentStart),
            Emission::Event(Event::AttachmentComplete),
            Emission::Event(Event::AttachmentTimeout),
            Emission::Base(info(BaseState::NotFeasible)),
            Emission::LatchStatus(LatchStatus::Error(HardwareError::FailedToClose)),
            Emission::DeviceMode(DeviceMode::Tablet),
        ]
    );
}

struct Recorder {
    name: &'static str,
    log: std::rc::Rc<std::cell::RefCell<Vec<String>>>,
    fail_on: Option<&'static str>,
}

impl Adapter for Recorder {
    fn take(&mut self, call: Call) -> Result<(), Error> {
        let name = match call {
            Call::SetState { .. } => "set_state",
            Call::DetachmentStart => "detachment_start",
            Call::DetachmentCancelStart { .. } => "detachment_cancel_start",
            Call::AttachmentStart => "attachment_start",
            Call::DeviceMode { .. } => "on_device_mode",
            _ => return Ok(()),
        };
        self.log.borrow_mut().push(format!("{}:{}", self.name, name));
        if self.fail_on == Some(name) {
            Err(Error::from(ErrorKind::Process))
        } else {
            Ok(())
        }
    }
}

fn recorders(
    fail: [Option<&'static str>; 3],
) -> ((Recorder, Recorder, Recorder), std::rc::Rc<std::cell::RefCell<Vec<String>>>) {
    let log = std::rc::Rc::new(std::cell::RefCell::new(Vec::new()));
    let a = Recorder { name: "a", log: log.clone(), fail_on: fail[0] };
    let b = Recorder { name: "b", log: log.clone(), fail_on: fail[1] };
    let c = Recorder { name: "c", log: log.clone(), fail_on: fail[2] };
    ((a, b, c), log)
}

#[test]
fn tuple_hands_each_call_to_every_adapter_in_turn() {
    let (mut adapters, log) = recorders([None, None, None]);
    assert!(Call::DetachmentStart.deliver(&mut adapters).is_ok());
    assert!(Call::DeviceMode { mode: DeviceMode::Tablet }.deliver(&mut adapters).is_ok());
    let set = Call::SetState {
        mode: DeviceMode::Laptop,
        base: info(BaseState::Attached),
        latch: LatchState::Closed,
    };
    assert!(set.deliver(&mut adapters).is_ok());
    assert_eq!(
        *log.borrow(),
        vec![
            "a:detachment_start",
            "b:detachment_start",
            "c:detachment_start",
            "a:on_device_mode",
            "b:on_device_mode",
            "c:on_device_mode",
            "a:set_state",
            "b:set_state",
            "c:set_state",
        ]
    );
}

#[test]
fn tuple_stops_at_the_first_adapter_that_fails() {
    let (mut adapters, log) = recorders([None, Some("attachment_start"), None]);
    let error = Call::AttachmentStart.deliver(&mut adapters).unwrap_err();
    assert_eq!(error.kind(), ErrorKind::Process);
    assert_eq!(*log.borrow(), vec!["a:attachment_start", "b:attachment_start"]);
}

#[test]
fn start_state_reaches_every_adapter_and_never_fails() {
    let (mut adapters, log) = recorders([Some("set_state"), Some("set_state"), None]);
    let set = Call::SetState {
        mode: DeviceMode::Laptop,
        base: info(BaseState::Attached),
        latch: LatchState::Closed,
    };
    assert!(set.deliver(&mut adapters).is_ok());
    assert_eq!(*log.borrow(), vec!["a:set_state", "b:set_state", "c:set_state"]);
}

#[test]
fn pair_and_single_tuples_fan_out_too() {
    let ((a, b, c), log) = recorders([None, None, Some("detachment_cancel_start")]);
    let mut pair = (a, b);
    let call = Call::DetachmentCancelStart { reason: CancelReason::UserRequest };
    assert!(call.deliver(&mut pair).is_ok());
    let mut single = (c,);
    assert_eq!(call.deliver(&mut single).unwrap_err().kind(), ErrorKind::Process);
    assert_eq!(
        *log.borrow(),
        vec![
            "a:detachment_cancel_start",
            "b:detachment_cancel_start",
            "c:detachment_cancel_start"
        ]
    );
}

#[test]
fn calls_that_an_adapter_does_not_take_up_succeed() {
    let ((mut a, _, _), log) = recorders([None, None, None]);
    for call in [
        Call::RequestCanceled { reason: CancelReason::UserRequest },
        Call::DetachmentComplete,
        Call::DetachmentTimeout,
        Call::DetachmentCancelComplete,
        Call::DetachmentCancelTimeout,
        Call::DetachmentUnexpected,
        Call::AttachmentComplete,
        Call::AttachmentTimeout,
        Call::BaseState { info: info(BaseState::Detached) },
        Call::LatchStatus { status: LatchStatus::Opened },
    ] {
        assert!(call.deliver(&mut a).is_ok());
    }
    assert!(log.borrow().is_empty());
}

#[test]
fn errors_hold_kind_and_cause() {
    let error = Error::with("no such device".into(), ErrorKind::DeviceAccess);
    assert_eq!(error.kind(), ErrorKind::DeviceAccess);
    assert_eq!(error.cause().unwrap().message, "no such device");
    let error = Error::from(ErrorKind::Config);
    assert_eq!(error.kind(), ErrorKind::Config);
    assert!(error.cause().is_none());
    assert_eq!(ErrorKind::Config.as_str(), "Invalid configuration");
    assert_eq!(ErrorKind::DeviceAccess.as_str(), "Device access failure");
    assert_eq!(ErrorKind::DeviceIo.as_str(), "Device I/O failure");
    assert_eq!(ErrorKind::Process.as_str(), "Failed to run external process");
    assert_eq!(ErrorKind::DBusService.as_str(), "DBus service failure");
    assert_eq!(ErrorKind::Runtime.as_str(), "Runtime failure");
}

#[test]
fn error_report() {
    let error = Error::with("no such device".into(), ErrorKind::DeviceAccess);
    assert_eq!(error.report(), "Device access failure.\n       no such device.");
    assert_eq!(Error::from(ErrorKind::Config).report(), "Invalid configuration.");
}
