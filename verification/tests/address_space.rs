use vmm::config::MemoryConfig;
use vmm::memory::{create_guest_memory, MemRegion, MemoryError, MMIO_MEM_START};

const MIB: u64 = 1 << 20;

#[test]
fn single_region_for_one_mib() {
    let regions = create_guest_memory(&MemoryConfig { mem_size_mib: 1 }, 32).unwrap();
    assert_eq!(regions, vec![MemRegion { base: 0, size: MIB }]);
}

#[test]
fn single_region_below_gap() {
    let regions = create_guest_memory(&MemoryConfig { mem_size_mib: 1024 }, 32).unwrap();
    assert_eq!(regions, vec![MemRegion { base: 0, size: 1024 * MIB }]);
}

#[test]
fn single_region_at_gap_boundary() {
    // 3072 MiB ends exactly where the MMIO gap starts.
    let regions = create_guest_memory(&MemoryConfig { mem_size_mib: 3072 }, 32).unwrap();
    assert_eq!(regions, vec![MemRegion { base: 0, size: 3072 * MIB }]);
    assert_eq!(3072 * MIB, MMIO_MEM_START);
}

#[test]
fn two_regions_past_gap() {
    // 4096 MiB: 3072 MiB below the gap, the remaining 1024 MiB relocated
    // past the 4 GiB boundary.
    let regions = create_guest_memory(&MemoryConfig { mem_size_mib: 4096 }, 32).unwrap();
    assert_eq!(
        regions,
        vec![
            MemRegion { base: 0, size: 3072 * MIB },
            MemRegion { base: 4096 * MIB, size: 1024 * MIB },
        ]
    );
    // Total mapped bytes are exactly the requested size.
    let total: u64 = regions.iter().map(|r| r.size).sum();
    assert_eq!(total, 4096 * MIB);
    // No region overlaps the gap [3072 MiB, 4096 MiB).
    for r in &regions {
        assert!(r.base + r.size <= 3072 * MIB || r.base >= 4096 * MIB);
    }
}

#[test]
fn not_enough_memory_slots() {
    let r = create_guest_memory(&MemoryConfig { mem_size_mib: 4096 }, 1);
    assert_eq!(r, Err(MemoryError::NotEnoughMemorySlots));
    let r = create_guest_memory(&MemoryConfig { mem_size_mib: 1024 }, 0);
    assert_eq!(r, Err(MemoryError::NotEnoughMemorySlots));
}
