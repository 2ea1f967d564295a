use emotion_engine::memory::{Memory, MemoryError};

fn make_memory() -> Memory {
    Memory::new(&vec![0u8; 4 * 1024 * 1024])
}

fn roundtrip(memory: &mut Memory, address: u32, bytes: &[u8]) {
    memory.write_address(address, bytes).unwrap();
    assert_eq!(memory.read_address(address, bytes.len()).unwrap(), bytes.to_vec());
}

#[test]
fn test_roundtrip_region_boundaries() {
    let mut memory = make_memory();
    // (first byte, last byte) of every declared virtual range.
    let boundaries: [(u32, u32); 14] = [
        (0x0000_0000, 0x01ff_ffff),
        (0x2000_0000, 0x21ff_ffff),
        (0x3010_0000, 0x31ff_ffff),
        (0x1000_0000, 0x1001_8fff),
        (0x1100_0000, 0x1100_0fff),
        (0x1100_4000, 0x1100_4fff),
        (0x1100_8000, 0x1100_bfff),
        (0x1100_c000, 0x1100_ffff),
        (0x1200_0000, 0x1200_1fff),
        (0x1c00_0000, 0x1c1f_ffff),
        (0x1fc0_0000, 0x1fff_ffff),
        (0x9fc0_0000, 0x9fff_ffff),
        (0xbfc0_0000, 0xbfff_ffff),
        (0x7000_0000, 0x7000_3fff),
    ];
    for (first, last) in boundaries {
        roundtrip(&mut memory, first, &[0xa5]);
        roundtrip(&mut memory, last, &[0x5a]);
    }
}

#[test]
fn test_multi_byte_roundtrip() {
    let mut memory = make_memory();
    let bytes = [1u8, 2, 3, 4, 5, 6, 7, 8];
    roundtrip(&mut memory, 0x0010_0000, &bytes);
    roundtrip(&mut memory, 0x7000_1000, &bytes);
    roundtrip(&mut memory, 0x1c10_0000, &bytes);
}

#[test]
fn test_main_memory_mirrors() {
    let mut memory = make_memory();

    memory.write_address(0x0000_1000, &[0x11, 0x22, 0x33]).unwrap();
    assert_eq!(memory.read_address(0x2000_1000, 3).unwrap(), vec![0x11, 0x22, 0x33]);

    memory.write_address(0x2000_2000, &[0x44]).unwrap();
    assert_eq!(memory.read_address(0x0000_2000, 1).unwrap(), vec![0x44]);

    memory.write_address(0x0015_0000, &[0x55, 0x66]).unwrap();
    assert_eq!(memory.read_address(0x3015_0000, 2).unwrap(), vec![0x55, 0x66]);
    assert_eq!(memory.read_address(0x2015_0000, 2).unwrap(), vec![0x55, 0x66]);
}

#[test]
fn test_bios_mirrors() {
    let mut memory = make_memory();

    memory.write_address(0x1fc0_0010, &[0xde, 0xad]).unwrap();
    assert_eq!(memory.read_address(0x9fc0_0010, 2).unwrap(), vec![0xde, 0xad]);
    assert_eq!(memory.read_address(0xbfc0_0010, 2).unwrap(), vec![0xde, 0xad]);

    memory.write_address(0xbfc0_0020, &[0xbe, 0xef]).unwrap();
    assert_eq!(memory.read_address(0x1fc0_0020, 2).unwrap(), vec![0xbe, 0xef]);
}

#[test]
fn test_bios_image_is_copied() {
    let mut image = vec![0u8; 4 * 1024 * 1024];
    image[0] = 0x7f;
    image[0x12345] = 0xc3;
    image[4 * 1024 * 1024 - 1] = 0x99;
    let memory = Memory::new(&image);
    assert_eq!(memory.read_address(0x1fc0_0000, 1).unwrap(), vec![0x7f]);
    assert_eq!(memory.read_address(0x1fc0_0000 + 0x12345, 1).unwrap(), vec![0xc3]);
    assert_eq!(memory.read_address(0x1fff_ffff, 1).unwrap(), vec![0x99]);
}

#[test]
fn test_unmapped_address_errors() {
    let mut memory = make_memory();
    for address in [0x0200_0000u32, 0x1001_9000, 0x2200_0000, 0x5000_0000, 0x7000_4000,
        0xffff_ffff] {
        assert_eq!(memory.read_address(address, 1), Err(MemoryError::UnmappedAddress));
        assert_eq!(memory.write_address(address, &[0]), Err(MemoryError::UnmappedAddress));
    }
}

#[test]
fn test_region_overrun_errors() {
    let mut memory = make_memory();
    // Four bytes before the end of the scratchpad: an eight-byte access runs
    // past the region and must fail whole.
    assert_eq!(
        memory.write_address(0x7000_3ffc, &[1, 2, 3, 4, 5, 6, 7, 8]),
        Err(MemoryError::RegionOverrun)
    );
    assert_eq!(memory.read_address(0x7000_3ffc, 8), Err(MemoryError::RegionOverrun));
    // The failed write changed nothing.
    assert_eq!(memory.read_address(0x7000_3ffc, 4).unwrap(), vec![0, 0, 0, 0]);
}
