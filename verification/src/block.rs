//! Virtio block-device constants and configuration space.
//!
//! Opening the backing file and reading its length are I/O performed by the
//! unverified front end, which hands the file size here as a plain value.

use vstd::prelude::*;

verus! {

/// Block device ID as defined by the virtio standard.
pub const BLOCK_DEVICE_ID: u32 = 2;
/// Block device FLUSH feature bit.
pub const VIRTIO_BLK_F_FLUSH: u64 = 9;
/// The sector size is 512 bytes (1 << 9).
pub const SECTOR_SHIFT: u8 = 9;

/// Byte `i` of the device configuration space: the capacity in sectors,
/// little endian. A file size that is not a multiple of the sector size is
/// rounded down, so data at the very end is ignored.
pub open spec fn spec_config_space_byte(file_size: u64, i: int) -> u8 {
    (((file_size >> 9) as u64) >> ((8 * i) as u64)) as u8
}

/// The minimally required device configuration space: the eight bytes of
/// the `capacity` field.
pub open spec fn spec_config_space(file_size: u64) -> Seq<u8> {
    Seq::new(8, |i: int| spec_config_space_byte(file_size, i))
}

/// Build the block device's configuration space for a backing file of the
/// given size in bytes: the number of whole sectors, as eight little-endian
/// bytes.
pub fn build_config_space(file_size: u64) -> (r: Vec<u8>)
    ensures
        r@ == spec_config_space(file_size),
        r@.len() == 8,
{
    let num_sectors: u64 = file_size >> (SECTOR_SHIFT as u64);
    let mut r: Vec<u8> = Vec::new();
    r.push((num_sectors >> 0) as u8);
    r.push((num_sectors >> 8) as u8);
    r.push((num_sectors >> 16) as u8);
    r.push((num_sectors >> 24) as u8);
    r.push((num_sectors >> 32) as u8);
    r.push((num_sectors >> 40) as u8);
    r.push((num_sectors >> 48) as u8);
    r.push((num_sectors >> 56) as u8);
    proof {
        assert(r@ =~= spec_config_space(file_size));
    }
    r
}

} // verus!
