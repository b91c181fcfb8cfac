use std::convert::TryInto;

use vmm::block::build_config_space;

#[test]
fn test_build_config_space() {
    // A backing file of 1024 sectors of 512 bytes each.
    let sector_size: u64 = 512;
    let num_sectors: u64 = 1024;
    let file_size = num_sectors * sector_size;

    let config_space = build_config_space(file_size);

    // The config space can only be populated with the `capacity` field for now.
    assert_eq!(config_space.len(), 8);

    let capacity = u64::from_le_bytes(config_space[..8].try_into().unwrap());
    assert_eq!(capacity, num_sectors);
}

#[test]
fn partial_sector_is_ignored() {
    // Data past the last whole sector does not count towards the capacity.
    let config_space = build_config_space(3 * 512 + 511);
    let capacity = u64::from_le_bytes(config_space[..8].try_into().unwrap());
    assert_eq!(capacity, 3);
}
