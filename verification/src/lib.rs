//! A minimal virtual-machine-monitor lifecycle orchestrator.
//!
//! The crate covers the setup pipeline of a hardware-virtualized guest:
//! capability negotiation with the host hypervisor, guest physical
//! address-space construction around the sub-4 GiB MMIO gap, two-phase
//! device registration and activation, boot-parameter and command-line
//! preparation, per-core CPU-state derivation, and the decision rules of
//! the event-driven run loop. Host syscalls (KVM ioctls, memory mapping,
//! file and terminal I/O) are performed by an unverified front end, which
//! feeds their outcomes into these functions as plain values.

pub mod block;
pub mod boot;
pub mod bus;
pub mod capabilities;
pub mod config;
pub mod devices;
pub mod event_loop;
pub mod memory;
pub mod vcpu;

use vstd::prelude::*;
use crate::boot::{
    build_bootparams, cmdline_accepted, encode_cmdline, spec_cmdline_bytes, spec_e820_entries,
    spec_last_addr, trim_spec, BootParamError, BootPlan, CmdlineError, KERNEL_BOOT_FLAG_MAGIC,
    KERNEL_HDR_MAGIC, KERNEL_LOADER_OTHER, KERNEL_MIN_ALIGNMENT_BYTES,
};
use crate::bus::{pio_bus_empty, pio_bus_has_overlap, pio_range_valid, BusError, DeviceBus};
use crate::capabilities::{
    check_kvm_capabilities, first_missing_cap, kvm_api_version, Cap, HostInfo, KVM_API_VERSION,
};
use crate::config::{KernelConfig, VMMConfig, VcpuConfig};
use crate::devices::{DeviceError, DeviceRegistry, DeviceSlot, DeviceState};
use crate::memory::{
    create_guest_memory, guest_regions, required_slots, spec_mem_size_bytes, MemRegion,
    MemoryError, CMDLINE_START, ZEROPG_START,
};
use crate::vcpu::{derive_feature_mask, spec_feature_mask, CoreState};

verus! {

/// VMM errors.
#[derive(Clone, Copy, Debug, PartialEq, Eq, Structural)]
pub enum Error {
    /// Failed to write boot parameters to guest memory.
    BootConfigure,
    /// Error building boot parameters.
    BootParam(BootParamError),
    /// Error encoding the kernel command line.
    Cmdline(CmdlineError),
    /// Error setting up or activating devices.
    Device(DeviceError),
    /// Error claiming a bus range for a device.
    Bus(BusError),
    /// Event management error.
    EventManager,
    /// I/O error.
    IO,
    /// Failed to load the kernel image.
    KernelLoad,
    /// Invalid KVM API version.
    KvmApiVersion(i32),
    /// Unsupported KVM capability.
    KvmCap(Cap),
    /// Error issuing an ioctl to KVM.
    KvmIoctl,
    /// Memory error.
    Memory(MemoryError),
    /// VM (partition-level) error.
    Vm,
}

/// Dedicated result type of the VMM.
pub type Result<T> = core::result::Result<T, Error>;

/// Bus identifier of the serial console device.
pub const SERIAL_DEVICE_ID: u32 = 0;
/// Base of the legacy COM1 port range claimed by the serial console.
pub const SERIAL_PORT_BASE: u16 = 0x3F8;
/// Size of the serial console's port range.
pub const SERIAL_PORT_SIZE: u16 = 0x8;

/// Where the VMM stands in its strictly ordered, fail-fast setup pipeline.
#[derive(Clone, Copy, Debug, PartialEq, Eq, Structural)]
pub enum Phase {
    /// Capabilities checked, address space laid out, devices registered dormant.
    Created,
    /// Boot parameters and command line prepared.
    KernelConfigured,
    /// One core state derived per requested core.
    VcpusCreated,
    /// Every device wired for interrupts and enrolled for events.
    Activated,
    /// Core execution has started; the event loop owns control.
    Running,
}

/// The index of the first `false` in the sequence, or its length if none.
pub open spec fn spec_first_false(ws: Seq<bool>) -> int
    decreases ws.len(),
{
    if ws.len() == 0 {
        0
    } else if !ws[0] {
        0
    } else {
        1 + spec_first_false(ws.drop_first())
    }
}

/// A first-`false` index is where a true prefix ends.
proof fn lemma_first_false_char(ws: Seq<bool>, i: int)
    requires
        0 <= i <= ws.len(),
        forall|j: int| 0 <= j < i ==> ws[j],
        i < ws.len() ==> !ws[i],
    ensures
        spec_first_false(ws) == i,
    decreases i,
{
    if i > 0 {
        lemma_first_false_char(ws.drop_first(), i - 1);
    }
}

/// The verified bookkeeping state of a live VMM: the guest address-space
/// layout, the device dispatch table and lifecycle registry, the per-core
/// states, and the pipeline phase. The hypervisor partition, the memory
/// mapping and the device objects themselves live in the unverified front
/// end, which drives this state through the pipeline in order.
pub struct VMM {
    mem_size_mib: u32,
    regions: Vec<MemRegion>,
    bus: DeviceBus,
    registry: DeviceRegistry,
    cores: Vec<CoreState>,
    phase: Phase,
}

impl VMM {
    /// The requested guest memory size in MiB.
    pub closed spec fn spec_mem_size_mib(self) -> u32 {
        self.mem_size_mib
    }

    /// The guest address-space layout.
    pub closed spec fn spec_regions(self) -> Seq<MemRegion> {
        self.regions@
    }

    /// The port-I/O dispatch table.
    pub closed spec fn device_bus(self) -> DeviceBus {
        self.bus
    }

    /// The device lifecycle registry.
    pub closed spec fn device_registry(self) -> DeviceRegistry {
        self.registry
    }

    /// The derived per-core states.
    pub closed spec fn spec_cores(self) -> Seq<CoreState> {
        self.cores@
    }

    /// The pipeline phase.
    pub closed spec fn spec_phase(self) -> Phase {
        self.phase
    }

    /// The VMM's invariant: the address space is laid out for the requested
    /// size and avoids the MMIO gap, bus ranges are valid and disjoint,
    /// devices are all active from activation on (activation strictly
    /// precedes core start), and core states carry their own index and the
    /// fixed zero-page address.
    pub open spec fn wf(self) -> bool {
        &&& self.spec_mem_size_mib() >= 1
        &&& self.spec_regions() == guest_regions(spec_mem_size_bytes(self.spec_mem_size_mib()))
        &&& self.device_bus().wf()
        &&& (self.spec_phase() == Phase::Activated || self.spec_phase() == Phase::Running)
            ==> self.device_registry().all_active() && self.device_registry().sealed()
        &&& self.spec_cores().len() <= 255
        &&& forall|i: int|
            0 <= i < self.spec_cores().len() ==> (#[trigger] self.spec_cores()[i]).index == i as u8
                && self.spec_cores()[i].zero_page_address == ZEROPG_START
    }

    /// Everything but the pipeline phase is the same in the two states.
    pub open spec fn same_state_except_phase(a: VMM, b: VMM) -> bool {
        &&& a.spec_mem_size_mib() == b.spec_mem_size_mib()
        &&& a.spec_regions() == b.spec_regions()
        &&& a.device_bus().ranges() == b.device_bus().ranges()
        &&& a.device_registry().slots() == b.device_registry().slots()
        &&& a.device_registry().sealed() == b.device_registry().sealed()
        &&& a.spec_cores() == b.spec_cores()
    }

    /// Create a new VMM: check the hypervisor interface version and the
    /// required capabilities, lay out the guest address space, and register
    /// the serial console dormant on the bus.
    ///
    /// Succeeds exactly when the host reports the matching interface
    /// version, every required capability, at least one memory slot more
    /// than the layout needs, and the requested memory size is mappable
    /// (at least one MiB).
    pub fn new(config: &VMMConfig, host: &HostInfo) -> (r: Result<VMM>)
        ensures
            host.api_version != KVM_API_VERSION ==> r == Err::<VMM, Error>(
                Error::KvmApiVersion(host.api_version),
            ),
            host.api_version == KVM_API_VERSION ==> (first_missing_cap(*host) matches Some(c)
                ==> r == Err::<VMM, Error>(Error::KvmCap(c))),
            host.api_version == KVM_API_VERSION && first_missing_cap(*host) is None
                && config.memory_config.mem_size_mib == 0 ==> r == Err::<VMM, Error>(
                Error::Memory(MemoryError::VmMemory),
            ),
            host.api_version == KVM_API_VERSION && first_missing_cap(*host) is None
                && config.memory_config.mem_size_mib >= 1 && host.nr_memslots < required_slots(
                spec_mem_size_bytes(config.memory_config.mem_size_mib),
            ) ==> r == Err::<VMM, Error>(Error::Memory(MemoryError::NotEnoughMemorySlots)),
            r matches Ok(vmm) <==> (host.api_version == KVM_API_VERSION && first_missing_cap(
                *host,
            ) is None && config.memory_config.mem_size_mib >= 1 && host.nr_memslots
                >= required_slots(spec_mem_size_bytes(config.memory_config.mem_size_mib))),
            r matches Ok(vmm) ==> {
                &&& vmm.wf()
                &&& vmm.spec_phase() == Phase::Created
                &&& vmm.spec_mem_size_mib() == config.memory_config.mem_size_mib
                &&& vmm.spec_regions() == guest_regions(
                    spec_mem_size_bytes(config.memory_config.mem_size_mib),
                )
                &&& vmm.device_bus().ranges() == pio_bus_empty().insert(
                    (SERIAL_PORT_BASE, SERIAL_PORT_SIZE),
                    SERIAL_DEVICE_ID,
                )
                &&& vmm.device_registry().slots() == seq![
                    DeviceSlot { device_id: SERIAL_DEVICE_ID, state: DeviceState::Dormant },
                ]
                &&& !vmm.device_registry().sealed()
                &&& vmm.spec_cores() == Seq::<CoreState>::empty()
            },
    {
        let api = kvm_api_version();
        if host.api_version != api {
            return Err(Error::KvmApiVersion(host.api_version));
        }
        match check_kvm_capabilities(host) {
            Ok(_) => {},
            Err(e) => {
                return Err(e);
            },
        }
        if config.memory_config.mem_size_mib == 0 {
            return Err(Error::Memory(MemoryError::VmMemory));
        }
        let regions = match create_guest_memory(&config.memory_config, host.nr_memslots) {
            Ok(v) => v,
            Err(e) => {
                return Err(Error::Memory(e));
            },
        };
        let mut vmm = VMM {
            mem_size_mib: config.memory_config.mem_size_mib,
            regions,
            bus: DeviceBus::new(),
            registry: DeviceRegistry::new(),
            cores: Vec::new(),
            phase: Phase::Created,
        };
        vmm.configure_pio_devices();
        proof {
            assert(vmm.device_registry().slots() =~= seq![
                DeviceSlot { device_id: SERIAL_DEVICE_ID, state: DeviceState::Dormant },
            ]);
        }
        Ok(vmm)
    }

    /// Register the port-mapped I/O devices of the reference configuration:
    /// the serial console, dormant, on the legacy COM1 range. The range is
    /// valid and the bus is empty, so registration cannot conflict.
    fn configure_pio_devices(&mut self)
        requires
            old(self).device_bus().ranges() == pio_bus_empty(),
            old(self).device_bus().wf(),
            !old(self).device_registry().sealed(),
        ensures
            final(self).device_bus().wf(),
            final(self).device_bus().ranges() == pio_bus_empty().insert(
                (SERIAL_PORT_BASE, SERIAL_PORT_SIZE),
                SERIAL_DEVICE_ID,
            ),
            final(self).device_registry().slots() == old(self).device_registry().slots().push(
                DeviceSlot { device_id: SERIAL_DEVICE_ID, state: DeviceState::Dormant },
            ),
            !final(self).device_registry().sealed(),
            final(self).spec_mem_size_mib() == old(self).spec_mem_size_mib(),
            final(self).spec_regions() == old(self).spec_regions(),
            final(self).spec_cores() == old(self).spec_cores(),
            final(self).spec_phase() == old(self).spec_phase(),
    {
        proof {
            assert(pio_range_valid(SERIAL_PORT_BASE, SERIAL_PORT_SIZE));
            assert(pio_bus_empty().dom() =~= Set::<(u16, u16)>::empty());
            assert(!pio_bus_has_overlap(pio_bus_empty(), SERIAL_PORT_BASE, SERIAL_PORT_SIZE));
        }
        match self.bus.register(SERIAL_PORT_BASE, SERIAL_PORT_SIZE, SERIAL_DEVICE_ID) {
            Ok(_) => {},
            Err(_) => {
                proof {
                    assert(false);
                }
            },
        }
        self.registry.add_dormant(SERIAL_DEVICE_ID);
    }

    /// Prepare everything the guest kernel needs: the boot parameters
    /// describing the RAM regions and the MMIO gap, and the validated,
    /// encoded command line, together with the fixed guest physical
    /// addresses the front end writes them at. Each step must succeed for
    /// the next to run; any failure leaves the VMM unchanged.
    pub fn configure_kernel(&mut self, kernel_cfg: &KernelConfig) -> (r: Result<BootPlan>)
        requires
            old(self).wf(),
            old(self).spec_phase() == Phase::Created,
            kernel_cfg.cmdline@.len() + 1 <= u32::MAX,
        ensures
            final(self).wf(),
            ({
                let e = spec_e820_entries(
                    spec_last_addr(old(self).spec_regions()),
                    kernel_cfg.himem_start,
                );
                &&& (e matches Err(err) ==> r == Err::<BootPlan, Error>(Error::BootParam(err))
                    && *final(self) == *old(self))
                &&& e is Ok && !cmdline_accepted(kernel_cfg.cmdline@) ==> r == Err::<
                    BootPlan,
                    Error,
                >(Error::Cmdline(CmdlineError::InvalidAscii)) && *final(self) == *old(self)
                &&& (e matches Ok(es) ==> (cmdline_accepted(kernel_cfg.cmdline@) ==> (r matches Ok(
                    plan,
                ) && {
                    &&& plan.bootparams.e820@ == es
                    &&& plan.bootparams.type_of_loader == KERNEL_LOADER_OTHER
                    &&& plan.bootparams.boot_flag == KERNEL_BOOT_FLAG_MAGIC
                    &&& plan.bootparams.header == KERNEL_HDR_MAGIC
                    &&& plan.bootparams.kernel_alignment == KERNEL_MIN_ALIGNMENT_BYTES
                    &&& plan.bootparams.cmdline_ptr == CMDLINE_START as u32
                    &&& plan.bootparams.cmdline_size == trim_spec(kernel_cfg.cmdline@).len() + 1
                    &&& plan.cmdline_bytes@ == spec_cmdline_bytes(kernel_cfg.cmdline@)
                    &&& plan.cmdline_addr == CMDLINE_START
                    &&& plan.zero_page_addr == ZEROPG_START
                    &&& plan.himem_start == kernel_cfg.himem_start
                    &&& final(self).spec_phase() == Phase::KernelConfigured
                    &&& VMM::same_state_except_phase(*final(self), *old(self))
                })))
            }),
    {
        proof {
            let mem_size = spec_mem_size_bytes(self.spec_mem_size_mib());
            assert(self.spec_regions() == guest_regions(mem_size));
            assert(self.spec_mem_size_mib() >= 1);
            assert((self.spec_mem_size_mib() as int) * (memory::MIB as int) >= memory::MIB as int)
                by (nonlinear_arith)
                requires
                    self.spec_mem_size_mib() >= 1,
            ;
            if mem_size <= memory::MMIO_MEM_START {
                assert(self.spec_regions().last() == MemRegion { base: 0, size: mem_size });
            } else {
                assert(self.spec_regions().last() == MemRegion {
                    base: memory::FIRST_ADDR_PAST_32BITS,
                    size: (mem_size - memory::MMIO_MEM_START) as u64,
                });
            }
        }
        let bootparams = match build_bootparams(&self.regions, kernel_cfg.himem_start) {
            Ok(bp) => bp,
            Err(err) => {
                return Err(Error::BootParam(err));
            },
        };
        let cmdline_bytes = match encode_cmdline(kernel_cfg.cmdline.as_str()) {
            Ok(b) => b,
            Err(_) => {
                return Err(Error::Cmdline(CmdlineError::InvalidAscii));
            },
        };
        let mut bootparams = bootparams;
        bootparams.cmdline_ptr = CMDLINE_START as u32;
        bootparams.cmdline_size = cmdline_bytes.len() as u32;
        self.phase = Phase::KernelConfigured;
        Ok(
            BootPlan {
                bootparams,
                cmdline_bytes,
                cmdline_addr: CMDLINE_START,
                zero_page_addr: ZEROPG_START,
                himem_start: kernel_cfg.himem_start,
            },
        )
    }

    /// Derive one `CoreState` per requested core: index `0 ..` the core
    /// count, the shared kernel entry and zero-page addresses, and a
    /// feature word filtered per index. All cores are derived before any
    /// core starts; partial core sets do not exist.
    pub fn create_vcpus(&mut self, vcpu_cfg: &VcpuConfig, kernel_load: u64, base_feature_word: u64) -> (r: Result<()>)
        requires
            old(self).wf(),
            old(self).spec_phase() == Phase::KernelConfigured,
            vcpu_cfg.num_vcpus >= 1,
        ensures
            final(self).wf(),
            r is Ok,
            final(self).spec_phase() == Phase::VcpusCreated,
            final(self).spec_cores().len() == vcpu_cfg.num_vcpus,
            forall|i: int|
                0 <= i < vcpu_cfg.num_vcpus ==> #[trigger] final(self).spec_cores()[i]
                    == (CoreState {
                    index: i as u8,
                    feature_mask: spec_feature_mask(base_feature_word, i as u8, vcpu_cfg.num_vcpus),
                    entry_address: kernel_load,
                    zero_page_address: ZEROPG_START,
                }),
            final(self).spec_mem_size_mib() == old(self).spec_mem_size_mib(),
            final(self).spec_regions() == old(self).spec_regions(),
            final(self).device_bus().ranges() == old(self).device_bus().ranges(),
            final(self).device_registry().slots() == old(self).device_registry().slots(),
            final(self).device_registry().sealed() == old(self).device_registry().sealed(),
    {
        let num = vcpu_cfg.num_vcpus;
        let mut cores: Vec<CoreState> = Vec::new();
        let mut index: u8 = 0;
        while index < num
            invariant
                index <= num,
                cores@.len() == index,
                forall|i: int|
                    0 <= i < index ==> #[trigger] cores@[i] == (CoreState {
                        index: i as u8,
                        feature_mask: spec_feature_mask(base_feature_word, i as u8, num),
                        entry_address: kernel_load,
                        zero_page_address: ZEROPG_START,
                    }),
            decreases num - index,
        {
            let feature_mask = derive_feature_mask(base_feature_word, index, num);
            cores.push(
                CoreState {
                    index,
                    feature_mask,
                    entry_address: kernel_load,
                    zero_page_address: ZEROPG_START,
                },
            );
            index = index + 1;
        }
        self.cores = cores;
        self.phase = Phase::VcpusCreated;
        Ok(())
    }

    /// Run the single activation pass over the dormant device set: the
    /// front end wires each device's interrupt-delivery path and enrolls it
    /// with the event subsystem, and reports each wiring outcome here, in
    /// registration order. Devices become active up to the first failed
    /// wiring, which is fatal: the VMM then never reaches the activated
    /// phase and cores do not start.
    pub fn activate_devices(&mut self, wirings: &Vec<bool>) -> (r: Result<()>)
        requires
            old(self).wf(),
            old(self).spec_phase() == Phase::VcpusCreated,
            !old(self).device_registry().sealed(),
            old(self).device_registry().all_dormant(),
            wirings@.len() == old(self).device_registry().slots().len(),
        ensures
            final(self).wf(),
            r is Ok <==> spec_first_false(wirings@) == wirings@.len(),
            r matches Err(e) ==> e == Error::Device(DeviceError::InterruptSetupError),
            r is Ok ==> final(self).spec_phase() == Phase::Activated
                && final(self).device_registry().all_active(),
            r is Err ==> final(self).spec_phase() == Phase::VcpusCreated,
            final(self).device_registry().sealed(),
            final(self).device_registry().slots() == DeviceRegistry::activated_slots(
                old(self).device_registry().slots(),
                spec_first_false(wirings@),
            ),
            VMM::same_but_registry(*final(self), *old(self)),
    {
        self.registry.begin_activation();
        let n = self.registry.len();
        let mut i: usize = 0;
        while i < n
            invariant
                n == wirings@.len(),
                n == old(self).device_registry().slots().len(),
                n == self.registry.slots().len(),
                i <= n,
                self.registry.sealed(),
                self.wf(),
                self.spec_phase() == Phase::VcpusCreated,
                forall|j: int| 0 <= j < i ==> wirings@[j],
                forall|j: int|
                    0 <= j < n ==> (#[trigger] self.registry.slots()[j]).device_id == old(
                        self,
                    ).device_registry().slots()[j].device_id,
                forall|j: int|
                    0 <= j < i ==> (#[trigger] self.registry.slots()[j]).state
                        == DeviceState::Active,
                forall|j: int|
                    i <= j < n ==> (#[trigger] self.registry.slots()[j]).state
                        == DeviceState::Dormant,
                VMM::same_but_registry(*self, *old(self)),
            decreases n - i,
        {
            let wired = wirings[i];
            let ghost pre_slots = self.registry.slots();
            match self.registry.activate(i, wired) {
                Ok(_) => {},
                Err(_) => {
                    proof {
                        assert(pre_slots[i as int].state == DeviceState::Dormant);
                        assert(!wired);
                        assert(self.registry.slots() == pre_slots);
                        lemma_first_false_char(wirings@, i as int);
                        let want = DeviceRegistry::activated_slots(
                            old(self).device_registry().slots(),
                            spec_first_false(wirings@),
                        );
                        assert forall|j: int| 0 <= j < n implies self.registry.slots()[j]
                            == want[j] by {
                            assert(self.registry.slots()[j] == pre_slots[j]);
                            assert(pre_slots[j].device_id == old(
                                self,
                            ).device_registry().slots()[j].device_id);
                            if j < i as int {
                                assert(pre_slots[j].state == DeviceState::Active);
                            } else {
                                assert(pre_slots[j].state == DeviceState::Dormant);
                            }
                        }
                        assert(self.registry.slots() =~= want);
                    }
                    return Err(Error::Device(DeviceError::InterruptSetupError));
                },
            }
            i = i + 1;
        }
        proof {
            lemma_first_false_char(wirings@, n as int);
            let want = DeviceRegistry::activated_slots(
                old(self).device_registry().slots(),
                spec_first_false(wirings@),
            );
            assert forall|j: int| 0 <= j < n implies self.registry.slots()[j] == want[j] by {
                assert(self.registry.slots()[j].device_id == old(
                    self,
                ).device_registry().slots()[j].device_id);
            }
            assert(self.registry.slots() =~= want);
        }
        self.phase = Phase::Activated;
        Ok(())
    }

    /// Everything but the registry and the phase is the same in both states.
    pub open spec fn same_but_registry(a: VMM, b: VMM) -> bool {
        &&& a.spec_mem_size_mib() == b.spec_mem_size_mib()
        &&& a.spec_regions() == b.spec_regions()
        &&& a.device_bus().ranges() == b.device_bus().ranges()
        &&& a.spec_cores() == b.spec_cores()
    }

    /// Mark core execution started. Device activation strictly precedes
    /// this: the phase can only be advanced once every device is active.
    pub fn start_cores(&mut self)
        requires
            old(self).wf(),
            old(self).spec_phase() == Phase::Activated,
        ensures
            final(self).wf(),
            final(self).spec_phase() == Phase::Running,
            VMM::same_state_except_phase(*final(self), *old(self)),
    {
        self.phase = Phase::Running;
    }

    /// Once the VMM runs, every registered device is active: no core can
    /// raise an interrupt path that is not yet wired.
    pub proof fn lemma_running_implies_devices_active(vmm: VMM)
        requires
            vmm.wf(),
            vmm.spec_phase() == Phase::Running,
        ensures
            vmm.device_registry().all_active(),
    {
    }

    /// The pipeline phase.
    pub fn phase(&self) -> (r: Phase)
        ensures
            r == self.spec_phase(),
    {
        self.phase
    }

    /// The guest address-space layout.
    pub fn regions(&self) -> (r: &Vec<MemRegion>)
        ensures
            r@ == self.spec_regions(),
    {
        &self.regions
    }

    /// The derived per-core states.
    pub fn cores(&self) -> (r: &Vec<CoreState>)
        ensures
            r@ == self.spec_cores(),
    {
        &self.cores
    }

    /// How many devices are registered.
    pub fn device_count(&self) -> (r: usize)
        ensures
            r == self.device_registry().slots().len(),
    {
        self.registry.len()
    }
}

} // verus!
