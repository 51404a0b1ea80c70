//! The bus publisher: properties that follow the state of the device, and
//! the lifecycle signal.
//!
//! The publisher keeps the properties and decides what goes out. What goes
//! out is collected in order; whoever owns the connection takes it from
//! there and sends it.

use vstd::prelude::*;
use vstd::std_specs::cmp::PartialEqSpec;
use crate::adapter::Adapter;
use crate::arg::DbusArg;
use crate::device::Command;
use crate::engine::Call;
use crate::error::Error;
use crate::signal::Event;
use crate::types::{BaseInfo, BaseState, DeviceMode, DeviceType, LatchStatus};

verus! {

/// A named value on the bus.
#[derive(Debug)]
pub struct Property<T> {
    name: &'static str,
    value: T,
}

impl<T> Property<T> {
    pub closed spec fn spec_name(&self) -> &'static str {
        self.name
    }

    pub closed spec fn spec_value(&self) -> T {
        self.value
    }

    pub fn new(name: &'static str, value: T) -> (property: Property<T>)
        ensures
            property.spec_name() == name,
            property.spec_value() == value,
    {
        Property { name, value }
    }

    #[verifier::when_used_as_spec(spec_name)]
    pub fn name(&self) -> (name: &'static str)
        ensures
            name == self.spec_name(),
    {
        self.name
    }

    /// The value as it stands.
    pub fn get(&self) -> (value: &T)
        ensures
            *value == self.spec_value(),
    {
        &self.value
    }

    /// Stores `value`, and tells whether that changed the property: a
    /// change is to be announced, a value that is stored again is not.
    pub fn set(&mut self, value: T) -> (changed: bool) where T: DbusArg + PartialEq
        ensures
            final(self).spec_name() == old(self).spec_name(),
            final(self).spec_value() == value || !changed,
            T::obeys_eq_spec() ==> changed == !old(self).spec_value().eq_spec(&value),
            !changed ==> final(self).spec_value() == old(self).spec_value(),
    {
        if self.value == value {
            return false;
        }
        self.value = value;
        true
    }
}

impl<T: DbusArg> DbusArg for Property<T> {
    type Arg = T::Arg;

    open spec fn encodes(&self, arg: T::Arg) -> bool {
        self.spec_value().encodes(arg)
    }

    fn as_arg(&self) -> (arg: T::Arg) {
        self.value.as_arg()
    }
}

/// One message that the publisher wants sent.
#[derive(Debug, Clone, Copy, PartialEq, Eq)]
pub enum Emission {
    /// The property `DeviceMode` has changed to this.
    DeviceMode(DeviceMode),
    /// The property `LatchStatus` has changed to this.
    LatchStatus(LatchStatus),
    /// The property `Base` has changed to this.
    Base(BaseInfo),
    /// The lifecycle signal.
    Event(Event),
}

impl Emission {
    /// Name of the member that the message is about: the property that
    /// changed, or the signal.
    pub open spec fn member(self) -> Seq<char> {
        match self {
            Emission::DeviceMode(_) => "DeviceMode"@,
            Emission::LatchStatus(_) => "LatchStatus"@,
            Emission::Base(_) => "Base"@,
            Emission::Event(_) => "Event"@,
        }
    }

    pub fn name(&self) -> (name: &'static str)
        ensures
            name@ == self.member(),
    {
        match self {
            Emission::DeviceMode(_) => "DeviceMode",
            Emission::LatchStatus(_) => "LatchStatus",
            Emission::Base(_) => "Base",
            Emission::Event(_) => "Event",
        }
    }
}

/// What the publisher holds: the three properties and what is to be sent.
pub struct ServiceView {
    pub device_mode: DeviceMode,
    pub latch_status: LatchStatus,
    pub base_info: BaseInfo,
    pub outbox: Seq<Emission>,
}

impl ServiceView {
    /// The publisher before anything is known of the device.
    pub open spec fn initial() -> ServiceView {
        ServiceView {
            device_mode: DeviceMode::Laptop,
            latch_status: LatchStatus::Closed,
            base_info: BaseInfo {
                state: BaseState::Attached,
                device_type: DeviceType::Ssh,
                id: 0,
            },
            outbox: Seq::empty(),
        }
    }

    /// The device mode is set: a change is announced.
    pub open spec fn with_device_mode(self, value: DeviceMode) -> ServiceView {
        if self.device_mode == value {
            self
        } else {
            ServiceView {
                device_mode: value,
                outbox: self.outbox.push(Emission::DeviceMode(value)),
                ..self
            }
        }
    }

    /// The latch status is set: a change is announced.
    pub open spec fn with_latch_status(self, value: LatchStatus) -> ServiceView {
        if self.latch_status == value {
            self
        } else {
            ServiceView {
                latch_status: value,
                outbox: self.outbox.push(Emission::LatchStatus(value)),
                ..self
            }
        }
    }

    /// The base is set: a change is announced.
    pub open spec fn with_base_info(self, value: BaseInfo) -> ServiceView {
        if self.base_info == value {
            self
        } else {
            ServiceView {
                base_info: value,
                outbox: self.outbox.push(Emission::Base(value)),
                ..self
            }
        }
    }

    /// A lifecycle signal is emitted.
    pub open spec fn with_event(self, event: Event) -> ServiceView {
        ServiceView { outbox: self.outbox.push(Emission::Event(event)), ..self }
    }

    /// The publisher after it has taken a call of the engine: reports of
    /// the device go into the properties, lifecycle transitions go out as
    /// signals.
    pub open spec fn after(self, call: Call) -> ServiceView {
        match call {
            Call::SetState { mode, base, latch } => self.with_base_info(base).with_latch_status(
                latch.status(),
            ).with_device_mode(mode),
            Call::BaseState { info } => self.with_base_info(info),
            Call::LatchStatus { status } => self.with_latch_status(status),
            Call::DeviceMode { mode } => self.with_device_mode(mode),
            Call::RequestCanceled { reason } => self.with_event(
                Event::DetachmentInhibited { reason },
            ),
            Call::DetachmentStart => self.with_event(Event::DetachmentStart),
            Call::DetachmentComplete => self.with_event(Event::DetachmentComplete),
            Call::DetachmentTimeout => self.with_event(Event::DetachmentTimeout),
            Call::DetachmentCancelStart { reason } => self.with_event(
                Event::DetachmentCancelStart { reason },
            ),
            Call::DetachmentCancelComplete => self.with_event(Event::DetachmentCancelComplete),
            Call::DetachmentCancelTimeout => self.with_event(Event::DetachmentCancelTimeout),
            Call::DetachmentUnexpected => self.with_event(Event::DetachmentUnexpected),
            Call::AttachmentStart => self.with_event(Event::AttachmentStart),
            Call::AttachmentComplete => self.with_event(Event::AttachmentComplete),
            Call::AttachmentTimeout => self.with_event(Event::AttachmentTimeout),
        }
    }
}

/// The publisher.
#[derive(Debug)]
pub struct ServiceHandle {
    device_mode: Property<DeviceMode>,
    latch_status: Property<LatchStatus>,
    base_info: Property<BaseInfo>,
    outbox: Vec<Emission>,
}

impl View for ServiceHandle {
    type V = ServiceView;

    closed spec fn view(&self) -> ServiceView {
        ServiceView {
            device_mode: self.device_mode.spec_value(),
            latch_status: self.latch_status.spec_value(),
            base_info: self.base_info.spec_value(),
            outbox: self.outbox@,
        }
    }
}

impl ServiceHandle {
    pub fn new() -> (service: ServiceHandle)
        ensures
            service@ == ServiceView::initial(),
    {
        let base = BaseInfo { state: BaseState::Attached, device_type: DeviceType::Ssh, id: 0 };
        ServiceHandle {
            device_mode: Property::new("DeviceMode", DeviceMode::Laptop),
            latch_status: Property::new("LatchStatus", LatchStatus::Closed),
            base_info: Property::new("Base", base),
            outbox: Vec::new(),
        }
    }

    pub fn set_device_mode(&mut self, value: DeviceMode)
        ensures
            final(self)@ == old(self)@.with_device_mode(value),
    {
        if self.device_mode.set(value) {
            self.outbox.push(Emission::DeviceMode(value));
        }
    }

    pub fn set_latch_status(&mut self, value: LatchStatus)
        ensures
            final(self)@ == old(self)@.with_latch_status(value),
    {
        if self.latch_status.set(value) {
            self.outbox.push(Emission::LatchStatus(value));
        }
    }

    pub fn set_base_info(&mut self, value: BaseInfo)
        ensures
            final(self)@ == old(self)@.with_base_info(value),
    {
        if self.base_info.set(value) {
            self.outbox.push(Emission::Base(value));
        }
    }

    pub fn emit_event(&mut self, event: Event)
        ensures
            final(self)@ == old(self)@.with_event(event),
    {
        self.outbox.push(Emission::Event(event));
    }

    /// The value of the property `DeviceMode`, as it is read over the bus.
    pub fn device_mode(&self) -> (arg: String)
        ensures
            arg@ == self@.device_mode.name(),
    {
        self.device_mode.as_arg()
    }

    /// The value of the property `LatchStatus`, as it is read over the bus.
    pub fn latch_status(&self) -> (arg: String)
        ensures
            arg@ == self@.latch_status.encoded(),
    {
        self.latch_status.as_arg()
    }

    /// The value of the property `Base`, as it is read over the bus.
    pub fn base_info(&self) -> (arg: (String, String, u8))
        ensures
            self@.base_info.encodes(arg),
    {
        self.base_info.as_arg()
    }

    /// The command that the method `Request` of the interface stands for.
    pub fn request() -> (command: Command)
        ensures
            command == Command::LatchRequest,
    {
        Command::LatchRequest
    }

    /// Hands out what is to be sent, oldest first, and keeps none of it.
    pub fn take_messages(&mut self) -> (messages: Vec<Emission>)
        ensures
            messages@ == old(self)@.outbox,
            final(self)@ == (ServiceView { outbox: Seq::empty(), ..old(self)@ }),
    {
        let mut messages = Vec::new();
        std::mem::swap(&mut self.outbox, &mut messages);
        messages
    }
}

/// The adapter that publishes what the engine reports.
#[derive(Debug)]
pub struct ServiceAdapter {
    service: ServiceHandle,
}

impl View for ServiceAdapter {
    type V = ServiceView;

    closed spec fn view(&self) -> ServiceView {
        self.service@
    }
}

impl ServiceAdapter {
    pub fn new(service: ServiceHandle) -> (adapter: ServiceAdapter)
        ensures
            adapter@ == service@,
    {
        ServiceAdapter { service }
    }

    /// Hands out what is to be sent, oldest first, and keeps none of it.
    pub fn take_messages(&mut self) -> (messages: Vec<Emission>)
        ensures
            messages@ == old(self)@.outbox,
            final(self)@ == (ServiceView { outbox: Seq::empty(), ..old(self)@ }),
    {
        self.service.take_messages()
    }

    /// The publisher behind the adapter.
    pub fn service(&self) -> (service: &ServiceHandle)
        ensures
            service@ == self@,
    {
        &self.service
    }
}

impl Adapter for ServiceAdapter {
    /// The adapter never fails, and takes every call as [`ServiceView::after`]
    /// says.
    open spec fn reacts(self, call: Call, next: Self, result: Result<(), Error>) -> bool {
        result is Ok && next@ == self@.after(call)
    }

    fn take(&mut self, call: Call) -> (result: Result<(), Error>) {
        match call {
            Call::SetState { mode, base, latch } => {
                self.service.set_base_info(base);
                self.service.set_latch_status(LatchStatus::from(latch));
                self.service.set_device_mode(mode);
            },
            Call::BaseState { info } => self.service.set_base_info(info),
            Call::LatchStatus { status } => self.service.set_latch_status(status),
            Call::DeviceMode { mode } => self.service.set_device_mode(mode),
            Call::RequestCanceled { reason } => self.service.emit_event(
                Event::DetachmentInhibited { reason },
            ),
            Call::DetachmentStart => self.service.emit_event(Event::DetachmentStart),
            Call::DetachmentComplete => self.service.emit_event(Event::DetachmentComplete),
            Call::DetachmentTimeout => self.service.emit_event(Event::DetachmentTimeout),
            Call::DetachmentCancelStart { reason } => self.service.emit_event(
                Event::DetachmentCancelStart { reason },
            ),
            Call::DetachmentCancelComplete => self.service.emit_event(
                Event::DetachmentCancelComplete,
            ),
            Call::DetachmentCancelTimeout => self.service.emit_event(
                Event::DetachmentCancelTimeout,
            ),
            Call::DetachmentUnexpected => self.service.emit_event(Event::DetachmentUnexpected),
            Call::AttachmentStart => self.service.emit_event(Event::AttachmentStart),
            Call::AttachmentComplete => self.service.emit_event(Event::AttachmentComplete),
            Call::AttachmentTimeout => self.service.emit_event(Event::AttachmentTimeout),
        }
        Ok(())
    }
}

} // verus!
