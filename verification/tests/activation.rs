use vmm::devices::{DeviceError, DeviceRegistry};

#[test]
fn single_activation_pass() {
    let mut registry = DeviceRegistry::new();
    registry.add_dormant(0);
    registry.add_dormant(1);
    registry.begin_activation();
    assert_eq!(registry.activate(0, true), Ok(()));
    assert_eq!(registry.activate(1, true), Ok(()));
}

#[test]
fn reactivation_is_not_supported() {
    // Activation is one-way and happens exactly once per device:
    // re-activating never silently succeeds.
    let mut registry = DeviceRegistry::new();
    registry.add_dormant(0);
    registry.begin_activation();
    assert_eq!(registry.activate(0, true), Ok(()));
    assert_eq!(registry.activate(0, true), Err(DeviceError::AlreadyActive));
    assert_eq!(registry.activate(0, false), Err(DeviceError::AlreadyActive));
}

#[test]
fn failed_wiring_is_fatal() {
    let mut registry = DeviceRegistry::new();
    registry.add_dormant(0);
    registry.begin_activation();
    assert_eq!(registry.activate(0, false), Err(DeviceError::InterruptSetupError));
}
