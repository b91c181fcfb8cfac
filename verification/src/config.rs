//! Plain configuration records consumed by the VMM at construction time.

use vstd::prelude::*;

verus! {

/// Default guest physical address above which the kernel image is loaded.
pub const DEFAULT_HIGH_RAM_START: u64 = 0x0010_0000;

/// Guest memory configuration.
#[derive(Clone, Copy, Debug, PartialEq, Eq, Structural)]
pub struct MemoryConfig {
    /// Requested guest memory size, in MiB.
    pub mem_size_mib: u32,
}

/// vCPU configuration.
#[derive(Clone, Copy, Debug, PartialEq, Eq, Structural)]
pub struct VcpuConfig {
    /// Number of execution cores the guest runs with.
    pub num_vcpus: u8,
}

/// Guest kernel configuration.
#[derive(Clone, Debug)]
pub struct KernelConfig {
    /// Path to the kernel image on the host.
    pub path: String,
    /// Kernel command line.
    pub cmdline: String,
    /// Guest physical address above which the kernel image is loaded.
    pub himem_start: u64,
}

impl Default for KernelConfig {
    /// An empty path and command line, with the conventional high-RAM load address.
    fn default() -> (r: Self)
        ensures
            r.path@ == Seq::<char>::empty(),
            r.cmdline@ == Seq::<char>::empty(),
            r.himem_start == DEFAULT_HIGH_RAM_START,
    {
        KernelConfig { path: String::new(), cmdline: String::new(), himem_start: DEFAULT_HIGH_RAM_START }
    }
}

/// Complete VMM configuration, passed by value and immutable afterwards.
#[derive(Clone, Debug)]
pub struct VMMConfig {
    /// Guest memory configuration.
    pub memory_config: MemoryConfig,
    /// vCPU configuration.
    pub vcpu_config: VcpuConfig,
    /// Guest kernel configuration.
    pub kernel_config: KernelConfig,
}

} // verus!
