use vmm::bus::{BusError, DeviceBus};

#[test]
fn overlapping_ranges_conflict() {
    // [0x3F8, 0x400) and [0x3FC, 0x404) share bytes: the second
    // registration fails and the first device keeps its claim.
    let mut bus = DeviceBus::new();
    assert_eq!(bus.register(0x3F8, 0x8, 0), Ok(()));
    assert_eq!(bus.register(0x3FC, 0x8, 1), Err(BusError::RangeConflict));
}

#[test]
fn disjoint_ranges_both_succeed() {
    let mut bus = DeviceBus::new();
    assert_eq!(bus.register(0x3F8, 0x8, 0), Ok(()));
    assert_eq!(bus.register(0x400, 0x4, 1), Ok(()));
}

#[test]
fn same_device_cannot_claim_overlap_twice() {
    // Overlap is about ranges, not devices: re-claiming a claimed range
    // conflicts even for the same device identifier.
    let mut bus = DeviceBus::new();
    assert_eq!(bus.register(0x3F8, 0x8, 0), Ok(()));
    assert_eq!(bus.register(0x3F8, 0x8, 0), Err(BusError::RangeConflict));
}

#[test]
fn backend_rejects_invalid_ranges() {
    let mut bus = DeviceBus::new();
    // A zero-sized range is rejected by the bus primitive.
    assert_eq!(bus.register(0x3F8, 0, 0), Err(BusError::BusBackendError));
    // A range whose last address overflows the 16-bit port space as well.
    assert_eq!(bus.register(0xFFFF, 2, 0), Err(BusError::BusBackendError));
    // A range ending exactly at the edge of the port space is fine.
    assert_eq!(bus.register(0xFFFF, 1, 0), Ok(()));
}
