//! Per-core CPU identity.
//!
//! Each core's feature word is the host's base feature word with the
//! topology-describing bits replaced: the initial APIC identifier (bits
//! 24..32) carries the core's index and the logical-processor-count field
//! (bits 16..24) carries the total core count.

use vstd::prelude::*;

verus! {

/// Clears the topology-describing bits of a feature word: the initial APIC
/// identifier (bits 24..32) and the logical processor count (bits 16..24).
pub const TOPOLOGY_CLEAR_MASK: u64 = 0xFFFF_FFFF_0000_FFFF;

/// Per-core identity, handed by value to the execution-context constructor.
#[derive(Clone, Copy, Debug, PartialEq, Eq, Structural)]
pub struct CoreState {
    /// Index of the core, `0 ..` the requested core count.
    pub index: u8,
    /// Feature word filtered for this core's index and the core count.
    pub feature_mask: u64,
    /// Guest physical address the core starts executing at.
    pub entry_address: u64,
    /// Guest physical address of the zero page.
    pub zero_page_address: u64,
}

/// The feature word of one core: the shared base word with the topology
/// bits replaced by this core's APIC identifier and the total core count.
pub open spec fn spec_feature_mask(base: u64, index: u8, num_vcpus: u8) -> u64 {
    (base & TOPOLOGY_CLEAR_MASK) | ((index as u64) << 24) | ((num_vcpus as u64) << 16)
}

/// Derive the feature word for the core at `index` of `num_vcpus`.
pub fn derive_feature_mask(base: u64, index: u8, num_vcpus: u8) -> (r: u64)
    ensures
        r == spec_feature_mask(base, index, num_vcpus),
{
    (base & TOPOLOGY_CLEAR_MASK) | ((index as u64) << 24) | ((num_vcpus as u64) << 16)
}

/// Cores with distinct indices get feature words that differ in the
/// topology-describing bits, whatever shared base word they start from.
pub proof fn lemma_feature_masks_differ(base: u64, i: u8, j: u8, n: u8)
    requires
        i != j,
    ensures
        spec_feature_mask(base, i, n) != spec_feature_mask(base, j, n),
{
    assert(TOPOLOGY_CLEAR_MASK == 0xFFFF_FFFF_0000_FFFFu64);
    assert((((base & 0xFFFF_FFFF_0000_FFFFu64) | ((i as u64) << 24u64) | ((n as u64) << 16u64))
        >> 24u64) & 0xFFu64 == i as u64) by (bit_vector);
    assert((((base & 0xFFFF_FFFF_0000_FFFFu64) | ((j as u64) << 24u64) | ((n as u64) << 16u64))
        >> 24u64) & 0xFFu64 == j as u64) by (bit_vector);
    if spec_feature_mask(base, i, n) == spec_feature_mask(base, j, n) {
        assert(i as u64 == j as u64);
        assert(false);
    }
}

} // verus!
