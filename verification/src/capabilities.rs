//! Capability negotiation with the host hypervisor.
//!
//! Before any other hypervisor state is created, the reported interface
//! version must match the version this VMM is built against and a fixed set
//! of required capabilities must all be present.

use vstd::prelude::*;
use crate::Error;

verus! {

/// KVM API version this VMM is built against.
pub const KVM_API_VERSION: i32 = 12;

/// A required host hypervisor capability.
#[derive(Clone, Copy, Debug, PartialEq, Eq, Structural)]
pub enum Cap {
    /// In-kernel interrupt chip support.
    Irqchip,
    /// Event-driven I/O notification.
    Ioeventfd,
    /// Event-driven interrupt injection.
    Irqfd,
    /// User-backed memory regions.
    UserMemory,
}

/// Host facts queried from the hypervisor by the unverified front end and
/// handed to the library as plain values.
#[derive(Clone, Copy, Debug, PartialEq, Eq, Structural)]
pub struct HostInfo {
    /// The hypervisor interface version the host reports.
    pub api_version: i32,
    /// Whether the host supports an in-kernel interrupt chip.
    pub irqchip: bool,
    /// Whether the host supports event-driven I/O notification.
    pub ioeventfd: bool,
    /// Whether the host supports event-driven interrupt injection.
    pub irqfd: bool,
    /// Whether the host supports user-backed memory regions.
    pub user_memory: bool,
    /// How many memory regions the host memory primitive supports.
    pub nr_memslots: usize,
}

/// Whether the host reports the given capability.
pub open spec fn cap_supported(h: HostInfo, c: Cap) -> bool {
    match c {
        Cap::Irqchip => h.irqchip,
        Cap::Ioeventfd => h.ioeventfd,
        Cap::Irqfd => h.irqfd,
        Cap::UserMemory => h.user_memory,
    }
}

/// The first required capability the host lacks, in the checked order:
/// Irqchip, Ioeventfd, Irqfd, UserMemory.
pub open spec fn first_missing_cap(h: HostInfo) -> Option<Cap> {
    if !h.irqchip {
        Some(Cap::Irqchip)
    } else if !h.ioeventfd {
        Some(Cap::Ioeventfd)
    } else if !h.irqfd {
        Some(Cap::Irqfd)
    } else if !h.user_memory {
        Some(Cap::UserMemory)
    } else {
        None
    }
}

/// Relies on `kvm_bindings::KVM_API_VERSION`: the KVM API version the
/// bindings are generated for, which is 12.
#[verifier::external_body]
pub fn kvm_api_version() -> (r: i32)
    ensures
        r == KVM_API_VERSION,
{
    kvm_bindings::KVM_API_VERSION as i32
}

/// Succeed only when every required capability is present; otherwise name
/// the first absent capability, in checked order.
pub fn check_kvm_capabilities(host: &HostInfo) -> (r: Result<(), Error>)
    ensures
        r == (match first_missing_cap(*host) {
            Some(c) => Err::<(), Error>(Error::KvmCap(c)),
            None => Ok::<(), Error>(()),
        }),
        r is Ok <==> forall|c: Cap| cap_supported(*host, c),
{
    let r: Result<(), Error> = if !host.irqchip {
        Err(Error::KvmCap(Cap::Irqchip))
    } else if !host.ioeventfd {
        Err(Error::KvmCap(Cap::Ioeventfd))
    } else if !host.irqfd {
        Err(Error::KvmCap(Cap::Irqfd))
    } else if !host.user_memory {
        Err(Error::KvmCap(Cap::UserMemory))
    } else {
        Ok(())
    };
    proof {
        if host.irqchip && host.ioeventfd && host.irqfd && host.user_memory {
            assert forall|c: Cap| cap_supported(*host, c) by {
                match c {
                    Cap::Irqchip => {},
                    Cap::Ioeventfd => {},
                    Cap::Irqfd => {},
                    Cap::UserMemory => {},
                }
            }
        } else {
            if !host.irqchip {
                assert(!cap_supported(*host, Cap::Irqchip));
            } else if !host.ioeventfd {
                assert(!cap_supported(*host, Cap::Ioeventfd));
            } else if !host.irqfd {
                assert(!cap_supported(*host, Cap::Irqfd));
            } else {
                assert(!cap_supported(*host, Cap::UserMemory));
            }
        }
    }
    r
}

} // verus!
