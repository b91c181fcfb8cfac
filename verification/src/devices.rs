//! Dormant-device registry and the one-way activation pass.
//!
//! A device is *dormant* once it is registered on the bus and *active* once
//! its interrupt-delivery path is wired and it is enrolled with the event
//! subsystem. The transition is one-way and happens exactly once per device,
//! in a single pass immediately before core execution starts.

use vstd::prelude::*;

verus! {

/// Lifecycle state of a registered device.
#[derive(Clone, Copy, Debug, PartialEq, Eq, Structural)]
pub enum DeviceState {
    /// Registered on the bus, not yet wired for interrupts or events.
    Dormant,
    /// Wired for interrupt delivery and enrolled with the event subsystem.
    Active,
}

/// Errors of device setup and activation.
#[derive(Clone, Copy, Debug, PartialEq, Eq, Structural)]
pub enum DeviceError {
    /// Re-activating an already-active device is not a supported operation.
    AlreadyActive,
    /// Wiring a device's interrupt-delivery path failed; fatal, cores do not start.
    InterruptSetupError,
}

/// One registered device: a plain identifier and its lifecycle state.
#[derive(Clone, Copy, Debug, PartialEq, Eq, Structural)]
pub struct DeviceSlot {
    /// Identifier the device is registered under (also its bus identifier).
    pub device_id: u32,
    /// Current lifecycle state.
    pub state: DeviceState,
}

/// The set of registered devices, in registration order.
pub struct DeviceRegistry {
    slots: Vec<DeviceSlot>,
    sealed: bool,
}

impl DeviceRegistry {
    /// The registered devices, in registration order.
    pub closed spec fn slots(self) -> Seq<DeviceSlot> {
        self.slots@
    }

    /// Whether the activation pass has begun (no devices can be added after).
    pub closed spec fn sealed(self) -> bool {
        self.sealed
    }

    /// Every registered device is active.
    pub open spec fn all_active(self) -> bool {
        forall|i: int|
            0 <= i < self.slots().len() ==> (#[trigger] self.slots()[i]).state
                == DeviceState::Active
    }

    /// Every registered device is dormant.
    pub open spec fn all_dormant(self) -> bool {
        forall|i: int|
            0 <= i < self.slots().len() ==> (#[trigger] self.slots()[i]).state
                == DeviceState::Dormant
    }

    /// The slot sequence after an activation pass that reached `k` devices:
    /// identifiers kept, the first `k` active, the rest still dormant.
    pub open spec fn activated_slots(old_slots: Seq<DeviceSlot>, k: int) -> Seq<DeviceSlot> {
        Seq::new(
            old_slots.len(),
            |i: int|
                (DeviceSlot {
                    device_id: old_slots[i].device_id,
                    state: if i < k {
                        DeviceState::Active
                    } else {
                        DeviceState::Dormant
                    },
                }),
        )
    }

    /// An empty, unsealed registry.
    pub fn new() -> (r: Self)
        ensures
            r.slots() == Seq::<DeviceSlot>::empty(),
            !r.sealed(),
    {
        DeviceRegistry { slots: Vec::new(), sealed: false }
    }

    /// Number of registered devices.
    pub fn len(&self) -> (r: usize)
        ensures
            r == self.slots().len(),
    {
        self.slots.len()
    }

    /// Register a device as dormant. Devices are never added once the
    /// activation pass has begun.
    pub fn add_dormant(&mut self, device_id: u32)
        requires
            !old(self).sealed(),
        ensures
            final(self).slots() == old(self).slots().push(
                DeviceSlot { device_id, state: DeviceState::Dormant },
            ),
            !final(self).sealed(),
    {
        self.slots.push(DeviceSlot { device_id, state: DeviceState::Dormant });
    }

    /// Begin the single activation pass; afterwards no device can be added.
    pub fn begin_activation(&mut self)
        requires
            !old(self).sealed(),
        ensures
            final(self).slots() == old(self).slots(),
            final(self).sealed(),
    {
        self.sealed = true;
    }

    /// Record the outcome of wiring one device's interrupt-delivery path.
    ///
    /// A dormant device whose wiring succeeded becomes active. A failed
    /// wiring is fatal. Activating an already-active device never silently
    /// succeeds.
    pub fn activate(&mut self, index: usize, wired: bool) -> (r: Result<(), DeviceError>)
        requires
            old(self).sealed(),
            index < old(self).slots().len(),
        ensures
            final(self).sealed(),
            final(self).slots().len() == old(self).slots().len(),
            old(self).slots()[index as int].state == DeviceState::Active ==> r == Err::<(),
                DeviceError,
            >(DeviceError::AlreadyActive) && final(self).slots() == old(self).slots(),
            old(self).slots()[index as int].state == DeviceState::Dormant && !wired ==> r
                == Err::<(), DeviceError>(DeviceError::InterruptSetupError) && final(self).slots()
                == old(self).slots(),
            old(self).slots()[index as int].state == DeviceState::Dormant && wired ==> r
                == Ok::<(), DeviceError>(()) && final(self).slots() == old(self).slots().update(
                index as int,
                DeviceSlot {
                    device_id: old(self).slots()[index as int].device_id,
                    state: DeviceState::Active,
                },
            ),
    {
        let slot = self.slots[index];
        if slot.state == DeviceState::Active {
            return Err(DeviceError::AlreadyActive);
        }
        if !wired {
            return Err(DeviceError::InterruptSetupError);
        }
        self.slots.set(index, DeviceSlot { device_id: slot.device_id, state: DeviceState::Active });
        Ok(())
    }
}

} // verus!
