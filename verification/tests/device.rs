use log_transport::device::{BusEvent, DeviceStateMachine, UsbDeviceState};

#[test]
fn enumeration_reaches_configured() {
    let mut m = DeviceStateMachine::new();
    assert_eq!(m.current_state(), UsbDeviceState::Disconnected);
    m.on_bus_event(BusEvent::Attach);
    assert_eq!(m.current_state(), UsbDeviceState::Enumerating);
    m.on_bus_event(BusEvent::ConfigurationComplete);
    assert_eq!(m.current_state(), UsbDeviceState::Configured);
}

#[test]
fn suspend_and_resume_toggle_configured() {
    let mut m = DeviceStateMachine::new();
    m.on_bus_event(BusEvent::Attach);
    m.on_bus_event(BusEvent::ConfigurationComplete);
    m.on_bus_event(BusEvent::Suspend);
    assert_eq!(m.current_state(), UsbDeviceState::Suspended);
    m.on_bus_event(BusEvent::Resume);
    assert_eq!(m.current_state(), UsbDeviceState::Configured);
}

#[test]
fn reset_and_detach_drop_to_disconnected() {
    let mut m = DeviceStateMachine::new();
    m.on_bus_event(BusEvent::Attach);
    m.on_bus_event(BusEvent::ConfigurationComplete);
    m.on_bus_event(BusEvent::Reset);
    assert_eq!(m.current_state(), UsbDeviceState::Disconnected);

    m.on_bus_event(BusEvent::Attach);
    m.on_bus_event(BusEvent::ConfigurationComplete);
    m.on_bus_event(BusEvent::Suspend);
    m.on_bus_event(BusEvent::Detach);
    assert_eq!(m.current_state(), UsbDeviceState::Disconnected);
}

#[test]
fn inapplicable_events_leave_state_unchanged() {
    let mut m = DeviceStateMachine::new();
    m.on_bus_event(BusEvent::Resume);
    assert_eq!(m.current_state(), UsbDeviceState::Disconnected);
    m.on_bus_event(BusEvent::ConfigurationComplete);
    assert_eq!(m.current_state(), UsbDeviceState::Disconnected);
    m.on_bus_event(BusEvent::Attach);
    m.on_bus_event(BusEvent::Suspend);
    assert_eq!(m.current_state(), UsbDeviceState::Enumerating);
}

#[test]
fn transfers_allowed_only_while_configured() {
    let mut m = DeviceStateMachine::new();
    assert!(!m.can_transfer());
    m.on_bus_event(BusEvent::Attach);
    assert!(!m.can_transfer());
    m.on_bus_event(BusEvent::ConfigurationComplete);
    assert!(m.can_transfer());
    m.on_bus_event(BusEvent::Suspend);
    assert!(!m.can_transfer());
    m.on_bus_event(BusEvent::Resume);
    assert!(m.can_transfer());
    m.on_bus_event(BusEvent::Detach);
    assert!(!m.can_transfer());
}
