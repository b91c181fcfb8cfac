use vmm::boot::{BootParamError, CmdlineError, E820_RAM, EBDA_START};
use vmm::capabilities::{HostInfo, KVM_API_VERSION};
use vmm::config::{KernelConfig, MemoryConfig, VMMConfig, VcpuConfig};
use vmm::memory::{MemoryError, CMDLINE_START, ZEROPG_START};
use vmm::{Error, Phase, VMM};

fn full_host() -> HostInfo {
    HostInfo {
        api_version: KVM_API_VERSION,
        irqchip: true,
        ioeventfd: true,
        irqfd: true,
        user_memory: true,
        nr_memslots: 32,
    }
}

fn config(mem_size_mib: u32, num_vcpus: u8, cmdline: &str, himem_start: u64) -> VMMConfig {
    VMMConfig {
        memory_config: MemoryConfig { mem_size_mib },
        vcpu_config: VcpuConfig { num_vcpus },
        kernel_config: KernelConfig {
            path: String::from("kernel-image"),
            cmdline: String::from(cmdline),
            himem_start,
        },
    }
}

#[test]
fn full_pipeline_with_two_cores() {
    let config = config(1024, 2, "console=ttyS0", 0x0010_0000);
    let host = full_host();
    let mut vmm = VMM::new(&config, &host).unwrap();
    assert_eq!(vmm.phase(), Phase::Created);
    assert_eq!(vmm.device_count(), 1);

    let plan = vmm.configure_kernel(&config.kernel_config).unwrap();
    assert_eq!(vmm.phase(), Phase::KernelConfigured);

    // Fixed boot-protocol addresses.
    assert_eq!(plan.zero_page_addr, ZEROPG_START);
    assert_eq!(plan.cmdline_addr, CMDLINE_START);
    assert_eq!(plan.bootparams.cmdline_ptr, CMDLINE_START as u32);

    // The encoded command line carries a nul terminator, and the recorded
    // size counts it.
    assert_eq!(plan.cmdline_bytes, b"console=ttyS0\0".to_vec());
    assert_eq!(plan.bootparams.cmdline_size, 14);

    // The e820 map: conventional RAM below the EBDA, then the RAM from the
    // kernel load address to the end of a 1 GiB guest.
    assert_eq!(plan.bootparams.e820.len(), 2);
    assert_eq!(plan.bootparams.e820[0].addr, 0);
    assert_eq!(plan.bootparams.e820[0].size, EBDA_START);
    assert_eq!(plan.bootparams.e820[0].entry_type, E820_RAM);
    assert_eq!(plan.bootparams.e820[1].addr, 0x0010_0000);
    assert_eq!(plan.bootparams.e820[1].size, 1024 * (1 << 20) - 0x0010_0000);
    assert_eq!(plan.bootparams.e820[1].entry_type, E820_RAM);

    let kernel_load = plan.himem_start;
    let base_word: u64 = 0x00FF_00FF_1234_5678;
    vmm.create_vcpus(&config.vcpu_config, kernel_load, base_word).unwrap();
    assert_eq!(vmm.phase(), Phase::VcpusCreated);

    // Two cores: identical entry and zero-page addresses, distinct indices,
    // feature words that differ in the topology-describing bits.
    let cores = vmm.cores().clone();
    assert_eq!(cores.len(), 2);
    assert_eq!(cores[0].index, 0);
    assert_eq!(cores[1].index, 1);
    assert_eq!(cores[0].entry_address, cores[1].entry_address);
    assert_eq!(cores[0].entry_address, kernel_load);
    assert_eq!(cores[0].zero_page_address, cores[1].zero_page_address);
    assert_eq!(cores[0].zero_page_address, ZEROPG_START);
    assert_ne!(cores[0].feature_mask, cores[1].feature_mask);
    // The difference lies in bits 16..32, where index and core count live.
    assert_eq!(cores[0].feature_mask & 0xFFFF, cores[1].feature_mask & 0xFFFF);
    assert_eq!(cores[0].feature_mask >> 32, cores[1].feature_mask >> 32);
    assert_eq!((cores[0].feature_mask >> 24) & 0xFF, 0);
    assert_eq!((cores[1].feature_mask >> 24) & 0xFF, 1);

    // Activation strictly precedes core start.
    vmm.activate_devices(&vec![true]).unwrap();
    assert_eq!(vmm.phase(), Phase::Activated);
    vmm.start_cores();
    assert_eq!(vmm.phase(), Phase::Running);
}

#[test]
fn e820_covers_memory_past_the_gap() {
    let config = config(4096, 1, "console=ttyS0", 0x0010_0000);
    let mut vmm = VMM::new(&config, &full_host()).unwrap();
    let plan = vmm.configure_kernel(&config.kernel_config).unwrap();
    assert_eq!(plan.bootparams.e820.len(), 3);
    assert_eq!(plan.bootparams.e820[1].addr, 0x0010_0000);
    assert_eq!(plan.bootparams.e820[1].size, 0xC000_0000 - 0x0010_0000);
    assert_eq!(plan.bootparams.e820[2].addr, 0x1_0000_0000);
    assert_eq!(plan.bootparams.e820[2].size, 1024 * (1 << 20));
}

#[test]
fn himem_past_memory_end_fails() {
    let config = config(128, 1, "", 0x1000_0000);
    let mut vmm = VMM::new(&config, &full_host()).unwrap();
    let r = vmm.configure_kernel(&config.kernel_config);
    assert_eq!(vmm.phase(), Phase::Created);
    match r {
        Err(Error::BootParam(BootParamError::HimemStartPastMemEnd)) => {},
        _ => panic!("expected a HimemStartPastMemEnd error"),
    }
}

#[test]
fn himem_past_gap_start_fails() {
    let config = config(4096, 1, "", 0xD000_0000);
    let mut vmm = VMM::new(&config, &full_host()).unwrap();
    match vmm.configure_kernel(&config.kernel_config) {
        Err(Error::BootParam(BootParamError::HimemStartPastMmioGapStart)) => {},
        _ => panic!("expected a HimemStartPastMmioGapStart error"),
    }
}

#[test]
fn non_printable_cmdline_fails() {
    let config = config(128, 1, "console=ttyS0\x07bell", 0x0010_0000);
    let mut vmm = VMM::new(&config, &full_host()).unwrap();
    match vmm.configure_kernel(&config.kernel_config) {
        Err(Error::Cmdline(CmdlineError::InvalidAscii)) => {},
        _ => panic!("expected a Cmdline error"),
    }
    assert_eq!(vmm.phase(), Phase::Created);
}

#[test]
fn empty_cmdline_encodes_to_terminator() {
    let config = config(128, 1, "", 0x0010_0000);
    let mut vmm = VMM::new(&config, &full_host()).unwrap();
    let plan = vmm.configure_kernel(&config.kernel_config).unwrap();
    assert_eq!(plan.cmdline_bytes, vec![0u8]);
    assert_eq!(plan.bootparams.cmdline_size, 1);
}

#[test]
fn unmappable_memory_size_fails() {
    let config = config(0, 1, "", 0x0010_0000);
    match VMM::new(&config, &full_host()) {
        Err(Error::Memory(MemoryError::VmMemory)) => {},
        _ => panic!("expected a Memory error"),
    }
}

#[test]
fn too_few_memslots_fail() {
    let config = config(4096, 1, "", 0x0010_0000);
    let host = HostInfo { nr_memslots: 1, ..full_host() };
    match VMM::new(&config, &host) {
        Err(Error::Memory(MemoryError::NotEnoughMemorySlots)) => {},
        _ => panic!("expected a NotEnoughMemorySlots error"),
    }
}

#[test]
fn failed_wiring_blocks_core_start() {
    let config = config(128, 1, "", 0x0010_0000);
    let mut vmm = VMM::new(&config, &full_host()).unwrap();
    let plan = vmm.configure_kernel(&config.kernel_config).unwrap();
    vmm.create_vcpus(&config.vcpu_config, plan.himem_start, 0).unwrap();
    match vmm.activate_devices(&vec![false]) {
        Err(Error::Device(vmm::devices::DeviceError::InterruptSetupError)) => {},
        _ => panic!("expected an InterruptSetupError"),
    }
    // The VMM never reaches the activated phase: cores do not start.
    assert_eq!(vmm.phase(), Phase::VcpusCreated);
}

#[test]
fn default_kernel_config() {
    let cfg = KernelConfig::default();
    assert_eq!(cfg.path, "");
    assert_eq!(cfg.cmdline, "");
    assert_eq!(cfg.himem_start, 0x0010_0000);
}
