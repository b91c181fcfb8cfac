//! Guest physical address-space construction.
//!
//! The builder computes the set of disjoint RAM regions for a requested
//! guest memory size, leaving the reserved MMIO gap below the 4 GiB
//! boundary free of RAM.

use vstd::prelude::*;
use crate::config::MemoryConfig;

verus! {

/// First address past 32 bits (the 4 GiB boundary).
pub const FIRST_ADDR_PAST_32BITS: u64 = 0x1_0000_0000;
/// Size of the MMIO gap (768 MiB, ending at the 4 GiB boundary).
pub const MEM_32BIT_GAP_SIZE: u64 = 0x3000_0000;
/// The start of the memory area reserved for MMIO devices (4 GiB - 768 MiB).
pub const MMIO_MEM_START: u64 = 0xC000_0000;
/// Address of the zeropage, where Linux kernel boot parameters are written.
pub const ZEROPG_START: u64 = 0x7000;
/// Address where the kernel command line is written.
pub const CMDLINE_START: u64 = 0x0002_0000;
/// One MiB, in bytes.
pub const MIB: u64 = 0x0010_0000;

/// Errors of guest address-space construction.
#[derive(Clone, Copy, Debug, PartialEq, Eq, Structural)]
pub enum MemoryError {
    /// The required number of regions exceeds what the memory primitive supports.
    NotEnoughMemorySlots,
    /// The memory mapping primitive rejected a region.
    VmMemory,
}

/// One guest physical memory region: `[base, base + size)`.
#[derive(Clone, Copy, Debug, PartialEq, Eq, Structural)]
pub struct MemRegion {
    /// Guest physical address of the first byte.
    pub base: u64,
    /// Length in bytes.
    pub size: u64,
}

/// The requested memory size in bytes.
pub open spec fn spec_mem_size_bytes(mem_size_mib: u32) -> u64 {
    ((mem_size_mib as int) * (MIB as int)) as u64
}

/// The region layout for a guest of `mem_size` bytes: a single region below
/// the MMIO gap when it fits, otherwise one region up to the gap and one
/// region starting at the 4 GiB boundary holding the remainder.
pub open spec fn guest_regions(mem_size: u64) -> Seq<MemRegion> {
    if mem_size <= MMIO_MEM_START {
        seq![MemRegion { base: 0, size: mem_size }]
    } else {
        seq![
            MemRegion { base: 0, size: MMIO_MEM_START },
            MemRegion { base: FIRST_ADDR_PAST_32BITS, size: (mem_size - MMIO_MEM_START) as u64 },
        ]
    }
}

/// How many regions a guest of `mem_size` bytes requires.
pub open spec fn required_slots(mem_size: u64) -> int {
    if mem_size <= MMIO_MEM_START {
        1
    } else {
        2
    }
}

/// Total bytes covered by a sequence of regions.
pub open spec fn regions_total_bytes(rs: Seq<MemRegion>) -> int
    decreases rs.len(),
{
    if rs.len() == 0 {
        0
    } else {
        rs[0].size + regions_total_bytes(rs.drop_first())
    }
}

/// Regions appear in increasing address order and never overlap.
pub open spec fn regions_sorted_disjoint(rs: Seq<MemRegion>) -> bool {
    forall|i: int, j: int|
        0 <= i < j < rs.len() ==> rs[i].base + rs[i].size <= rs[j].base
}

/// A region never intersects the reserved MMIO gap `[MMIO_MEM_START, 4 GiB)`.
pub open spec fn region_avoids_mmio_gap(r: MemRegion) -> bool {
    r.base + r.size <= MMIO_MEM_START || r.base >= FIRST_ADDR_PAST_32BITS
}

/// Every region of the sequence stays clear of the MMIO gap.
pub open spec fn regions_avoid_mmio_gap(rs: Seq<MemRegion>) -> bool {
    forall|i: int| 0 <= i < rs.len() ==> region_avoids_mmio_gap(#[trigger] rs[i])
}

/// Compute the guest memory regions for the requested size.
///
/// `max_slots` is the number of memory regions the underlying memory
/// primitive supports, as reported by the host.
///
/// For every size of at most `MMIO_MEM_START` bytes (3072 MiB) the result is
/// the single region `[0, size)`; larger guests get a second region starting
/// at the 4 GiB boundary, so that RAM never overlaps the MMIO gap.
pub fn create_guest_memory(memory_config: &MemoryConfig, max_slots: usize) -> (r: Result<
    Vec<MemRegion>,
    MemoryError,
>)
    ensures
        ({
            let mem_size = spec_mem_size_bytes(memory_config.mem_size_mib);
            &&& max_slots >= required_slots(mem_size) ==> (r matches Ok(v)
                && v@ == guest_regions(mem_size))
            &&& max_slots < required_slots(mem_size) ==> r == Err::<Vec<MemRegion>, MemoryError>(
                MemoryError::NotEnoughMemorySlots,
            )
            &&& r matches Ok(v) ==> {
                &&& regions_sorted_disjoint(v@)
                &&& regions_avoid_mmio_gap(v@)
                &&& regions_total_bytes(v@) == mem_size
            }
        }),
{
    let mib: u64 = memory_config.mem_size_mib as u64;
    proof {
        assert((mib as int) * (0x0010_0000 as int) <= 0xFFFF_FFFF_FFFF_FFFF) by (nonlinear_arith)
            requires
                mib <= 0xFFFF_FFFF,
        ;
    }
    let mem_size: u64 = mib * MIB;
    let mut regions: Vec<MemRegion> = Vec::new();
    if mem_size <= MMIO_MEM_START {
        if max_slots < 1 {
            return Err(MemoryError::NotEnoughMemorySlots);
        }
        regions.push(MemRegion { base: 0, size: mem_size });
        proof {
            assert(regions@ =~= guest_regions(mem_size));
            reveal_with_fuel(regions_total_bytes, 3);
        }
    } else {
        if max_slots < 2 {
            return Err(MemoryError::NotEnoughMemorySlots);
        }
        regions.push(MemRegion { base: 0, size: MMIO_MEM_START });
        regions.push(MemRegion { base: FIRST_ADDR_PAST_32BITS, size: mem_size - MMIO_MEM_START });
        proof {
            assert(regions@ =~= guest_regions(mem_size));
            reveal_with_fuel(regions_total_bytes, 3);
        }
    }
    Ok(regions)
}

} // verus!
