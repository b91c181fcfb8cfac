//! Port-mapped I/O dispatch table.
//!
//! The bus maps disjoint port-address ranges to plain device identifiers.
//! The table itself is the `vm_device` port-I/O bus; this module populates
//! it and proves that registered ranges stay valid and pairwise disjoint.

use vstd::prelude::*;

verus! {

/// Errors of device-bus registration.
#[derive(Clone, Copy, Debug, PartialEq, Eq, Structural)]
pub enum BusError {
    /// The requested range overlaps an already-claimed range.
    RangeConflict,
    /// The underlying registration primitive rejected the range
    /// (zero-sized, or its last address overflows the port space).
    BusBackendError,
}

/// Holds the `vm_device` port-I/O bus, keyed by plain device identifiers.
/// Opaque to the verifier; its contents are given by [`pio_bus_ranges`].
#[verifier::external_body]
pub struct PioBusStore {
    bus: vm_device::bus::Bus<vm_device::bus::PioAddress, u32>,
}

/// The ranges registered on the held bus: `(base, size)` to device identifier.
pub uninterp spec fn pio_bus_ranges(store: PioBusStore) -> Map<(u16, u16), u32>;

/// A port range the bus accepts: non-empty, with its last address inside the
/// 16-bit port space.
pub open spec fn pio_range_valid(base: u16, size: u16) -> bool {
    size > 0 && base + size - 1 <= u16::MAX
}

/// Whether the two ranges share at least one address (for valid ranges).
pub open spec fn pio_ranges_overlap(b1: u16, s1: u16, b2: u16, s2: u16) -> bool {
    !(b1 > b2 + s2 - 1 || b1 + s1 - 1 < b2)
}

/// Whether `(base, size)` overlaps some range registered in `m`.
pub open spec fn pio_bus_has_overlap(m: Map<(u16, u16), u32>, base: u16, size: u16) -> bool {
    exists|k: (u16, u16)| #[trigger] m.dom().contains(k) && pio_ranges_overlap(base, size, k.0, k.1)
}

/// The contents of a bus with nothing registered.
pub open spec fn pio_bus_empty() -> Map<(u16, u16), u32> {
    Map::empty()
}

/// A registration result that failed with the given error.
pub open spec fn bus_result_err(e: BusError) -> Result<(), BusError> {
    Err(e)
}

/// A registration result that succeeded.
pub open spec fn bus_result_ok() -> Result<(), BusError> {
    Ok(())
}

/// Relies on `vm_device::bus::Bus::new`: the new bus holds no ranges.
#[verifier::external_body]
fn pio_bus_new() -> (b: PioBusStore)
    ensures
        pio_bus_ranges(b) == pio_bus_empty(),
{
    PioBusStore { bus: vm_device::bus::Bus::new() }
}

/// Relies on `vm_device::bus::BusRange::new`, which fails (only) with
/// `InvalidRange` on a zero-sized range or one whose last address overflows,
/// and on `vm_device::bus::Bus::register`, which fails (only) with
/// `DeviceOverlap` when the range overlaps a registered one and otherwise
/// inserts the range with its device.
#[verifier::external_body]
fn pio_bus_register(store: &mut PioBusStore, base: u16, size: u16, device_id: u32) -> (r: Result<(), BusError>)
    ensures
        r == bus_result_err(BusError::BusBackendError) <==> !pio_range_valid(base, size),
        r == bus_result_err(BusError::RangeConflict) <==> (pio_range_valid(base, size)
            && pio_bus_has_overlap(pio_bus_ranges(*old(store)), base, size)),
        r == bus_result_ok() ==> pio_bus_ranges(*final(store)) == pio_bus_ranges(*old(store)).insert((base, size), device_id),
        r != bus_result_ok() ==> pio_bus_ranges(*final(store)) == pio_bus_ranges(*old(store)),
{
    let range = match vm_device::bus::BusRange::new(vm_device::bus::PioAddress(base), size) {
        Ok(range) => range,
        Err(_) => return Err(BusError::BusBackendError),
    };
    match store.bus.register(range, device_id) {
        Ok(()) => Ok(()),
        Err(_) => Err(BusError::RangeConflict),
    }
}

/// The port-I/O dispatch table: address ranges to device identifiers,
/// append-only, with pairwise-disjoint ranges.
pub struct DeviceBus {
    store: PioBusStore,
}

impl DeviceBus {
    /// The claimed ranges: `(base, size)` to device identifier.
    pub closed spec fn ranges(self) -> Map<(u16, u16), u32> {
        pio_bus_ranges(self.store)
    }

    /// Every claimed range is valid and no two claimed ranges overlap.
    pub open spec fn wf(self) -> bool {
        &&& forall|k: (u16, u16)| #[trigger]
            self.ranges().dom().contains(k) ==> pio_range_valid(k.0, k.1)
        &&& forall|k1: (u16, u16), k2: (u16, u16)|
            #![trigger self.ranges().dom().contains(k1), self.ranges().dom().contains(k2)]
            self.ranges().dom().contains(k1) && self.ranges().dom().contains(k2) && k1 != k2
                ==> !pio_ranges_overlap(k1.0, k1.1, k2.0, k2.1)
    }

    /// An empty bus.
    pub fn new() -> (r: Self)
        ensures
            r.wf(),
            r.ranges() == pio_bus_empty(),
    {
        let r = DeviceBus { store: pio_bus_new() };
        proof {
            assert(r.ranges().dom() =~= Set::<(u16, u16)>::empty());
        }
        r
    }

    /// Claim `[base, base + size)` for the device.
    ///
    /// Fails with `RangeConflict` when any byte of the range is already
    /// claimed, and with `BusBackendError` when the registration primitive
    /// rejects the range itself; the bus is unchanged on failure.
    pub fn register(&mut self, base: u16, size: u16, device_id: u32) -> (r: Result<(), BusError>)
        requires
            old(self).wf(),
        ensures
            final(self).wf(),
            !pio_range_valid(base, size) ==> r == Err::<(), BusError>(BusError::BusBackendError)
                && final(self).ranges() == old(self).ranges(),
            pio_range_valid(base, size) && pio_bus_has_overlap(old(self).ranges(), base, size)
                ==> r == Err::<(), BusError>(BusError::RangeConflict) && final(self).ranges()
                == old(self).ranges(),
            pio_range_valid(base, size) && !pio_bus_has_overlap(old(self).ranges(), base, size)
                ==> r == Ok::<(), BusError>(()) && final(self).ranges() == old(
                self,
            ).ranges().insert((base, size), device_id),
    {
        let r = pio_bus_register(&mut self.store, base, size, device_id);
        proof {
            let m0 = old(self).ranges();
            let m1 = self.ranges();
            if pio_range_valid(base, size) && !pio_bus_has_overlap(m0, base, size) {
                match r {
                    Ok(u) => {
                        assert(u == ());
                        assert(r == bus_result_ok());
                    },
                    Err(e) => {
                        match e {
                            BusError::RangeConflict => {
                                assert(r == bus_result_err(BusError::RangeConflict));
                                assert(false);
                            },
                            BusError::BusBackendError => {
                                assert(r == bus_result_err(BusError::BusBackendError));
                                assert(false);
                            },
                        }
                    },
                }
                assert(r == bus_result_ok());
                let k0 = (base, size);
                assert forall|k1: (u16, u16), k2: (u16, u16)|
                    m1.dom().contains(k1) && m1.dom().contains(k2) && k1 != k2 implies
                    !pio_ranges_overlap(k1.0, k1.1, k2.0, k2.1) by {
                    if k1 != k0 && k2 != k0 {
                        assert(m0.dom().contains(k1));
                        assert(m0.dom().contains(k2));
                    } else if k1 == k0 {
                        assert(m0.dom().contains(k2));
                        assert(!pio_ranges_overlap(base, size, k2.0, k2.1));
                    } else {
                        assert(m0.dom().contains(k1));
                        assert(!pio_ranges_overlap(base, size, k1.0, k1.1));
                    }
                }
            }
        }
        r
    }
}

} // verus!
