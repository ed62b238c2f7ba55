use vstd::prelude::*;

verus! {

/// Where the CDC function stands in the host's eyes. Transitions are driven
/// by bus activity that the peripheral reports; the transport task only ever
/// reads the state.
#[derive(Clone, Copy, Debug, PartialEq, Eq, Structural)]
pub enum UsbDeviceState {
    /// No host attached, or the bus was reset.
    Disconnected,
    /// Attached; the host is still discovering and configuring the device.
    Enumerating,
    /// The host has configured the device; transfers may proceed.
    Configured,
    /// The host suspended the bus; the configuration survives.
    Suspended,
}

/// Bus activity reported by the USB peripheral.
#[derive(Clone, Copy, Debug, PartialEq, Eq, Structural)]
pub enum BusEvent {
    /// Cable plugged in; enumeration begins.
    Attach,
    /// The host finished configuring the device.
    ConfigurationComplete,
    /// The host suspended the bus.
    Suspend,
    /// The host resumed a suspended bus.
    Resume,
    /// Bus reset.
    Reset,
    /// Cable removed.
    Detach,
}

/// Frames may be written to the hardware endpoint only in this state; in
/// every other state a transfer attempt would be a logic error.
pub open spec fn transfer_allowed(s: UsbDeviceState) -> bool {
    s == UsbDeviceState::Configured
}

/// How one bus event moves the device state: attachment starts enumeration,
/// a completed configuration enables transfers, suspend and resume toggle
/// between `Configured` and `Suspended`, and a reset or detach drops any
/// attached device back to `Disconnected`. An event that does not apply to
/// the current state leaves it unchanged.
pub open spec fn next_device_state(s: UsbDeviceState, e: BusEvent) -> UsbDeviceState {
    match (s, e) {
        (UsbDeviceState::Disconnected, BusEvent::Attach) => UsbDeviceState::Enumerating,
        (UsbDeviceState::Enumerating, BusEvent::ConfigurationComplete) => UsbDeviceState::Configured,
        (UsbDeviceState::Configured, BusEvent::Suspend) => UsbDeviceState::Suspended,
        (UsbDeviceState::Suspended, BusEvent::Resume) => UsbDeviceState::Configured,
        (_, BusEvent::Reset) => UsbDeviceState::Disconnected,
        (_, BusEvent::Detach) => UsbDeviceState::Disconnected,
        (_, _) => s,
    }
}

/// Tracks the device state as the peripheral's interrupt and poll logic
/// reports bus events. Only that logic may feed events in; the transport
/// task is a pure reader through `current_state`.
pub struct DeviceStateMachine {
    state: UsbDeviceState,
}

impl DeviceStateMachine {
    /// The state currently held.
    pub closed spec fn state_spec(&self) -> UsbDeviceState {
        self.state
    }

    /// A device that no host has seen yet.
    pub fn new() -> (m: DeviceStateMachine)
        ensures
            m.state_spec() == UsbDeviceState::Disconnected,
    {
        DeviceStateMachine { state: UsbDeviceState::Disconnected }
    }

    /// Read accessor for the transport task.
    pub fn current_state(&self) -> (s: UsbDeviceState)
        ensures
            s == self.state_spec(),
    {
        self.state
    }

    /// Whether a transfer may be attempted right now.
    pub fn can_transfer(&self) -> (b: bool)
        ensures
            b == transfer_allowed(self.state_spec()),
    {
        self.state == UsbDeviceState::Configured
    }

    /// Applies one bus event, exactly as `next_device_state` describes.
    pub fn on_bus_event(&mut self, event: BusEvent)
        ensures
            final(self).state_spec() == next_device_state(old(self).state_spec(), event),
    {
        self.state = match (self.state, event) {
            (UsbDeviceState::Disconnected, BusEvent::Attach) => UsbDeviceState::Enumerating,
            (UsbDeviceState::Enumerating, BusEvent::ConfigurationComplete) => {
                UsbDeviceState::Configured
            },
            (UsbDeviceState::Configured, BusEvent::Suspend) => UsbDeviceState::Suspended,
            (UsbDeviceState::Suspended, BusEvent::Resume) => UsbDeviceState::Configured,
            (_, BusEvent::Reset) => UsbDeviceState::Disconnected,
            (_, BusEvent::Detach) => UsbDeviceState::Disconnected,
            (s, _) => s,
        };
    }
}

} // verus!
