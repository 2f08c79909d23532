use gameboy_core::memory::{resolve, ImageError, Memory, MemoryAccess, Region};

fn bus_boot_image() -> Vec<u8> {
    let mut boot = vec![0u8; 256];
    for (i, byte) in boot.iter_mut().enumerate() {
        *byte = (i as u8) ^ 0xA5;
    }
    boot
}

fn bus_cartridge_image() -> Vec<u8> {
    let mut cartridge = vec![0u8; 16384];
    for (i, byte) in cartridge.iter_mut().enumerate() {
        *byte = (i % 251) as u8;
    }
    cartridge
}

fn bus_fresh() -> Memory {
    Memory::initialize(&bus_boot_image(), &bus_cartridge_image()).unwrap()
}

#[test]
fn short_boot_image_is_refused() {
    let result = Memory::initialize(&vec![0u8; 255], &bus_cartridge_image());
    assert!(matches!(result, Err(ImageError::BootImageSize(255))));
}

#[test]
fn long_boot_image_is_refused() {
    let result = Memory::initialize(&vec![0u8; 257], &bus_cartridge_image());
    assert!(matches!(result, Err(ImageError::BootImageSize(257))));
}

#[test]
fn empty_boot_image_is_refused() {
    let result = Memory::initialize(&[], &bus_cartridge_image());
    assert!(matches!(result, Err(ImageError::BootImageSize(0))));
}

#[test]
fn short_cartridge_image_is_refused() {
    let result = Memory::initialize(&bus_boot_image(), &vec![0u8; 16383]);
    assert!(matches!(result, Err(ImageError::CartridgeImageSize(16383))));
}

#[test]
fn boot_image_is_judged_before_the_cartridge() {
    let result = Memory::initialize(&vec![0u8; 3], &vec![0u8; 5]);
    assert!(matches!(result, Err(ImageError::BootImageSize(3))));
}

#[test]
fn longer_cartridge_image_is_cut_to_its_first_bank() {
    let mut cartridge = vec![0x11u8; 32768];
    cartridge[0x3FFF] = 0x22;
    cartridge[0x4000] = 0x33;
    let memory = Memory::initialize(&bus_boot_image(), &cartridge).unwrap();
    assert_eq!(memory.read_byte(0x3FFF), 0x22);
    assert_eq!(memory.read_byte(0x4000), 0x00);
}

#[test]
fn boot_image_lies_over_the_cartridge() {
    let memory = bus_fresh();
    let boot = bus_boot_image();
    let cartridge = bus_cartridge_image();
    for addr in 0..256usize {
        assert_eq!(memory.read_byte(addr as u16), boot[addr]);
    }
    for addr in 256..16384usize {
        assert_eq!(memory.read_byte(addr as u16), cartridge[addr]);
    }
}

#[test]
fn general_storage_starts_as_zeros() {
    let memory = bus_fresh();
    for addr in 0x4000..=0xFFFFu16 {
        assert_eq!(memory.read_byte(addr), 0);
    }
}

#[test]
fn unmap_write_uncovers_the_cartridge() {
    let mut memory = bus_fresh();
    let cartridge = bus_cartridge_image();
    assert_ne!(memory.read_byte(0), cartridge[0]);
    memory.write_byte(0xFF50, 1);
    for addr in 0..256usize {
        assert_eq!(memory.read_byte(addr as u16), cartridge[addr]);
    }
    assert_eq!(memory.read_byte(0xFF50), 1);
}

#[test]
fn write_before_unmap_lands_in_the_boot_region() {
    let mut memory = bus_fresh();
    let cartridge = bus_cartridge_image();
    memory.write_byte(0x0010, 0x77);
    assert_eq!(memory.read_byte(0x0010), 0x77);
    memory.write_byte(0xFF50, 1);
    assert_eq!(memory.read_byte(0x0010), cartridge[0x10]);
    memory.write_byte(0x0010, 0x99);
    assert_eq!(memory.read_byte(0x0010), 0x99);
}

#[test]
fn written_byte_is_read_back_at_every_address() {
    let mut memory = bus_fresh();
    let mut addr: u16 = 0;
    loop {
        let value = (addr as u8).wrapping_mul(7).wrapping_add(3);
        memory.write_byte(addr, value);
        assert_eq!(memory.read_byte(addr), value);
        if addr == 0xFFFF {
            break;
        }
        addr += 1;
    }
}

#[test]
fn write_leaves_the_neighbours_alone() {
    let mut memory = bus_fresh();
    memory.write_byte(0xC000, 0x11);
    memory.write_byte(0xC002, 0x33);
    memory.write_byte(0xC001, 0x22);
    assert_eq!(memory.read_byte(0xC000), 0x11);
    assert_eq!(memory.read_byte(0xC001), 0x22);
    assert_eq!(memory.read_byte(0xC002), 0x33);
}

#[test]
fn words_are_little_endian() {
    let mut memory = bus_fresh();
    memory.write_word(0xC000, 0x1234);
    assert_eq!(memory.read_byte(0xC000), 0x34);
    assert_eq!(memory.read_byte(0xC001), 0x12);
    memory.write_byte(0xD000, 0xFE);
    memory.write_byte(0xD001, 0xFF);
    assert_eq!(memory.read_word(0xD000), 0xFFFE);
}

#[test]
fn written_word_is_read_back_at_every_address() {
    let mut memory = bus_fresh();
    let mut addr: u16 = 0;
    loop {
        let value = addr.wrapping_mul(31).wrapping_add(0x1234);
        memory.write_word(addr, value);
        assert_eq!(memory.read_word(addr), value);
        if addr == 0xFFFF {
            break;
        }
        addr += 1;
    }
}

#[test]
fn word_across_the_boot_boundary() {
    let mut memory = bus_fresh();
    memory.write_word(0x00FF, 0xBEEF);
    assert_eq!(memory.read_word(0x00FF), 0xBEEF);
    assert_eq!(memory.read_byte(0x00FF), 0xEF);
    assert_eq!(memory.read_byte(0x0100), 0xBE);
}

#[test]
fn word_across_the_cartridge_boundary() {
    let mut memory = bus_fresh();
    memory.write_word(0x3FFF, 0xCAFE);
    assert_eq!(memory.read_word(0x3FFF), 0xCAFE);
    assert_eq!(memory.read_byte(0x3FFF), 0xFE);
    assert_eq!(memory.read_byte(0x4000), 0xCA);
}

#[test]
fn word_at_the_last_address_wraps_to_the_first() {
    let mut memory = bus_fresh();
    memory.write_word(0xFFFF, 0xA1B2);
    assert_eq!(memory.read_byte(0xFFFF), 0xB2);
    assert_eq!(memory.read_byte(0x0000), 0xA1);
    assert_eq!(memory.read_word(0xFFFF), 0xA1B2);
}

#[test]
fn word_over_the_unmap_register() {
    let mut memory = bus_fresh();
    let cartridge = bus_cartridge_image();
    memory.write_word(0xFF4F, 0x0102);
    assert_eq!(memory.read_word(0xFF4F), 0x0102);
    assert_eq!(memory.read_byte(0x0000), cartridge[0]);
}

#[test]
fn every_address_resolves_inside_one_region() {
    for boot_enabled in [false, true] {
        let mut boot = 0usize;
        let mut cartridge = 0usize;
        let mut general = 0usize;
        for addr in 0..=0xFFFFu16 {
            let (region, offset) = resolve(addr, boot_enabled);
            match region {
                Region::Boot => {
                    assert!(offset < 256);
                    assert_eq!(offset, addr as usize);
                    boot += 1;
                }
                Region::Cartridge => {
                    assert!(offset < 16384);
                    assert_eq!(offset, addr as usize);
                    cartridge += 1;
                }
                Region::General => {
                    assert!(offset < 49152);
                    assert_eq!(offset, addr as usize - 16384);
                    general += 1;
                }
            }
        }
        assert_eq!(boot, if boot_enabled { 256 } else { 0 });
        assert_eq!(cartridge, if boot_enabled { 16384 - 256 } else { 16384 });
        assert_eq!(general, 49152);
    }
}

#[test]
fn region_borders() {
    assert_eq!(resolve(0x00FF, true), (Region::Boot, 0xFF));
    assert_eq!(resolve(0x00FF, false), (Region::Cartridge, 0xFF));
    assert_eq!(resolve(0x0100, true), (Region::Cartridge, 0x100));
    assert_eq!(resolve(0x3FFF, true), (Region::Cartridge, 0x3FFF));
    assert_eq!(resolve(0x4000, true), (Region::General, 0));
    assert_eq!(resolve(0xFFFF, false), (Region::General, 49151));
}

#[test]
fn tileset_of_empty_video_memory_is_white() {
    let memory = bus_fresh();
    let mut buffer = vec![0u8; 128 * 192 * 4];
    memory.generate_tileset_rgba(&mut buffer);
    assert!(buffer.iter().all(|byte| *byte == 255));
}

#[test]
fn tileset_shows_the_four_colours() {
    let mut memory = bus_fresh();
    // Row 0 of tile 0: columns 0..4 have the colours 0, 1, 2, 3.
    memory.write_byte(0x8000, 0b0101_0000);
    memory.write_byte(0x8001, 0b0011_0000);
    let mut buffer = vec![0u8; 128 * 192 * 4];
    memory.generate_tileset_rgba(&mut buffer);
    assert_eq!(&buffer[0..4], &[255, 255, 255, 255]);
    assert_eq!(&buffer[4..8], &[170, 170, 170, 255]);
    assert_eq!(&buffer[8..12], &[85, 85, 85, 255]);
    assert_eq!(&buffer[12..16], &[0, 0, 0, 255]);
    assert_eq!(&buffer[16..20], &[255, 255, 255, 255]);
}

#[test]
fn tileset_places_tiles_sixteen_to_the_row() {
    let mut memory = bus_fresh();
    // Tile 1, row 2, leftmost pixel: colour 3.
    memory.write_byte(0x8000 + 16 + 4, 0x80);
    memory.write_byte(0x8000 + 16 + 5, 0x80);
    // Tile 17, row 7, rightmost pixel: colour 1.
    memory.write_byte(0x8000 + 17 * 16 + 14, 0x01);
    // Tile 383, row 7, rightmost pixel: colour 2.
    memory.write_byte(0x8000 + 383 * 16 + 15, 0x01);
    let mut buffer = vec![0u8; 128 * 192 * 4];
    memory.generate_tileset_rgba(&mut buffer);
    let at = |x: usize, y: usize| (y * 128 + x) * 4;
    assert_eq!(&buffer[at(8, 2)..at(8, 2) + 4], &[0, 0, 0, 255]);
    assert_eq!(&buffer[at(9, 2)..at(9, 2) + 4], &[255, 255, 255, 255]);
    assert_eq!(&buffer[at(15, 15)..at(15, 15) + 4], &[170, 170, 170, 255]);
    assert_eq!(&buffer[at(127, 191)..at(127, 191) + 4], &[85, 85, 85, 255]);
    let dark = buffer.chunks(4).filter(|pixel| pixel[0] != 255).count();
    assert_eq!(dark, 3);
}

#[test]
fn tileset_leaves_the_rest_of_a_longer_buffer() {
    let memory = bus_fresh();
    let mut buffer = vec![7u8; 128 * 192 * 4 + 10];
    memory.generate_tileset_rgba(&mut buffer);
    assert!(buffer[..128 * 192 * 4].iter().all(|byte| *byte == 255));
    assert!(buffer[128 * 192 * 4..].iter().all(|byte| *byte == 7));
}

#[test]
fn tileset_does_not_change_the_bus() {
    let mut memory = bus_fresh();
    memory.write_byte(0x8000, 0xFF);
    let mut buffer = vec![0u8; 128 * 192 * 4];
    memory.generate_tileset_rgba(&mut buffer);
    let mut again = vec![0u8; 128 * 192 * 4];
    memory.generate_tileset_rgba(&mut again);
    assert_eq!(buffer, again);
    assert_eq!(memory.read_byte(0x8000), 0xFF);
    assert_eq!(memory.read_byte(0), bus_boot_image()[0]);
}
