use vmm::capabilities::{check_kvm_capabilities, Cap, HostInfo, KVM_API_VERSION};
use vmm::config::{KernelConfig, MemoryConfig, VMMConfig, VcpuConfig};
use vmm::{Error, VMM};

fn full_host() -> HostInfo {
    HostInfo {
        api_version: KVM_API_VERSION,
        irqchip: true,
        ioeventfd: true,
        irqfd: true,
        user_memory: true,
        nr_memslots: 32,
    }
}

fn small_config() -> VMMConfig {
    VMMConfig {
        memory_config: MemoryConfig { mem_size_mib: 128 },
        vcpu_config: VcpuConfig { num_vcpus: 1 },
        kernel_config: KernelConfig::default(),
    }
}

#[test]
fn all_capabilities_present() {
    assert_eq!(check_kvm_capabilities(&full_host()), Ok(()));
}

#[test]
fn first_missing_capability_is_reported() {
    // Host supports only Irqchip and Ioeventfd: of the missing Irqfd and
    // UserMemory, the first in checked order is reported.
    let host = HostInfo { irqfd: false, user_memory: false, ..full_host() };
    assert_eq!(check_kvm_capabilities(&host), Err(Error::KvmCap(Cap::Irqfd)));
}

#[test]
fn each_single_missing_capability() {
    let host = HostInfo { irqchip: false, ..full_host() };
    assert_eq!(check_kvm_capabilities(&host), Err(Error::KvmCap(Cap::Irqchip)));
    let host = HostInfo { ioeventfd: false, ..full_host() };
    assert_eq!(check_kvm_capabilities(&host), Err(Error::KvmCap(Cap::Ioeventfd)));
    let host = HostInfo { user_memory: false, ..full_host() };
    assert_eq!(check_kvm_capabilities(&host), Err(Error::KvmCap(Cap::UserMemory)));
}

#[test]
fn api_version_mismatch_is_fatal() {
    let host = HostInfo { api_version: 11, ..full_host() };
    match VMM::new(&small_config(), &host) {
        Err(Error::KvmApiVersion(v)) => assert_eq!(v, 11),
        _ => panic!("expected a KvmApiVersion error"),
    }
}

#[test]
fn capability_check_precedes_memory_setup() {
    // Even with an unmappable memory size, the missing capability is
    // reported first.
    let host = HostInfo { irqfd: false, ..full_host() };
    let config = VMMConfig {
        memory_config: MemoryConfig { mem_size_mib: 0 },
        ..small_config()
    };
    match VMM::new(&config, &host) {
        Err(Error::KvmCap(Cap::Irqfd)) => {},
        _ => panic!("expected a KvmCap error"),
    }
}
