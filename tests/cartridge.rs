use rustboy::banked::OPEN_BUS;
use rustboy::cartridge::{
    Cartridge, CartridgeType, Destination, LoadError, NewLicensee, OldLicensee, Rom,
};
use rustboy::virtual_memory::MemoryMappedPeripheral;

/// A loadable two-bank image: bank 0 filled with 0x11, bank 1 with 0x22,
/// the header filled in and its checksum set.
fn image() -> Vec<u8> {
    let mut content = vec![0x11u8; 0x4000];
    content.extend(vec![0x22u8; 0x4000]);
    for b in content[0x0134..0x0150].iter_mut() {
        *b = 0;
    }
    content[0x0134..0x013B].copy_from_slice(b"TESTROM");
    content[0x013F..0x0143].copy_from_slice(b"ABCD");
    content[0x0144] = b'0';
    content[0x0145] = b'1';
    content[0x0147] = 0x00;
    content[0x0148] = 0x00;
    content[0x0149] = 0x00;
    content[0x014A] = 0x01;
    content[0x014B] = 0x33;
    content[0x014C] = 0x02;
    content[0x014E] = 0x34;
    content[0x014F] = 0x12;
    seal(&mut content);
    content
}

fn seal(content: &mut Vec<u8>) {
    content[0x014D] = Cartridge::compute_header_checksum(&content[0x0134..0x014D]);
}

#[test]
fn checksum_of_zero_header_range() {
    assert_eq!(Cartridge::compute_header_checksum(&[0u8; 25]), 0xE7);
}

#[test]
fn checksum_exact_values() {
    assert_eq!(Cartridge::compute_header_checksum(&[]), 0x00);
    assert_eq!(Cartridge::compute_header_checksum(&[0x01]), 0xFE);
    assert_eq!(Cartridge::compute_header_checksum(&[0xFF, 0x01]), 0xFE);
}

#[test]
fn load_decodes_header() {
    let c = Cartridge::load(&image()).unwrap();
    assert_eq!(c.title().as_str(), "TESTROMABCD");
    assert_eq!(c.manufacturer().as_str(), "ABCD");
    assert_eq!(c.new_licensee(), NewLicensee::NintendoRnD1);
    assert_eq!(c.old_licensee(), OldLicensee::NewLicenseeCode);
    assert_eq!(c.destination(), Destination::Overseas);
    assert_eq!(c.cartridge_type(), CartridgeType::RomOnly);
    assert_eq!(c.mask_rom_version(), 0x02);
    assert_eq!(c.rom_bank_count(), 2);
    assert_eq!(c.ram_bank_count(), 0);
    assert_eq!(c.global_checksum(), 0x1234);
    assert_eq!(c.header_checksum(), image()[0x014D]);
}

#[test]
fn load_splits_rom_into_banks() {
    let mut content = image();
    content[0x0000] = 0xAB;
    content[0x4000] = 0xCD;
    seal(&mut content);
    let mut c = Cartridge::load(&content).unwrap();
    let bank0 = c.take_bank0();
    let bank1 = c.take_bank1();
    assert_eq!(bank0.read(0x0000), 0xAB);
    assert_eq!(bank0.read(0x3FFF), 0x11);
    assert_eq!(bank0.read(0x4000), OPEN_BUS);
    assert_eq!(bank1.read(0x0000), 0xCD);
    assert_eq!(bank1.read(0x3FFF), 0x22);
    assert!(c.take_ram().is_none());
}

#[test]
fn load_gives_ram_when_declared() {
    let mut content = image();
    content[0x0149] = 0x03;
    seal(&mut content);
    let mut c = Cartridge::load(&content).unwrap();
    assert_eq!(c.ram_bank_count(), 4);
    let ram = c.take_ram().unwrap();
    assert_eq!(ram.read(0x0000), OPEN_BUS);
    assert!(c.take_ram().is_none());
}

#[test]
fn special_rom_size_codes_declare_three_banks() {
    for code in [0x52u8, 0x53, 0x54] {
        let mut content = image();
        content.extend(vec![0x33u8; 0x4000]);
        content[0x0148] = code;
        seal(&mut content);
        let mut c = Cartridge::load(&content).unwrap();
        assert_eq!(c.rom_bank_count(), 3);
        let mut bank1 = c.take_bank1();
        bank1.sel_bank(1);
        assert_eq!(bank1.read(0x0000), 0x33);
    }
}

#[test]
fn bank_counts_follow_tables() {
    assert_eq!(Cartridge::decode_rom_bank_count(0x00), Some(2));
    assert_eq!(Cartridge::decode_rom_bank_count(0x08), Some(512));
    assert_eq!(Cartridge::decode_rom_bank_count(0x09), None);
    assert_eq!(Cartridge::decode_ram_bank_count(0x01), Some(0));
    assert_eq!(Cartridge::decode_ram_bank_count(0x04), Some(16));
    assert_eq!(Cartridge::decode_ram_bank_count(0x05), Some(8));
    assert_eq!(Cartridge::decode_ram_bank_count(0x06), None);
}

#[test]
fn decode_ascii_drops_nul_and_non_ascii() {
    let s = Cartridge::decode_ascii(&[b'A', 0x00, 0x80, b'b', 0xFF, b'1', 0x7F, 0x1F, b' ', b'~']);
    assert_eq!(s.as_str(), "Ab1 ~");
    assert_eq!(Cartridge::decode_ascii(&[]).as_str(), "");
}

#[test]
fn missing_header_is_rejected() {
    assert!(matches!(Cartridge::load(&[0u8; 0x14F]), Err(LoadError::MissingHeader)));
    assert!(matches!(Cartridge::load(&[]), Err(LoadError::MissingHeader)));
}

#[test]
fn unknown_cartridge_type_is_rejected() {
    let mut content = image();
    content[0x0147] = 0x04;
    seal(&mut content);
    assert!(matches!(Cartridge::load(&content), Err(LoadError::UnknownCartridgeType(0x04))));
}

#[test]
fn unknown_rom_size_is_rejected() {
    let mut content = image();
    content[0x0148] = 0x09;
    seal(&mut content);
    assert!(matches!(Cartridge::load(&content), Err(LoadError::UnknownRomSize(0x09))));
}

#[test]
fn unknown_ram_size_is_rejected() {
    let mut content = image();
    content[0x0149] = 0x06;
    seal(&mut content);
    assert!(matches!(Cartridge::load(&content), Err(LoadError::UnknownRamSize(0x06))));
}

#[test]
fn truncated_image_is_rejected() {
    let mut content = image();
    content.truncate(0x7FFF);
    assert!(matches!(Cartridge::load(&content), Err(LoadError::Truncated)));
    let mut content = image();
    content[0x0148] = 0x01;
    seal(&mut content);
    assert!(matches!(Cartridge::load(&content), Err(LoadError::Truncated)));
}

#[test]
fn checksum_mismatch_is_rejected() {
    let mut content = image();
    let stored = content[0x014D];
    content[0x014D] = stored.wrapping_add(1);
    match Cartridge::load(&content) {
        Err(LoadError::HeaderChecksum { computed, stored: s }) => {
            assert_eq!(computed, stored);
            assert_eq!(s, stored.wrapping_add(1));
        }
        _ => panic!("expected a checksum error"),
    }
}

#[test]
fn unknown_new_licensee_is_rejected() {
    let mut content = image();
    content[0x0144] = b'Z';
    content[0x0145] = b'Z';
    seal(&mut content);
    assert!(matches!(
        Cartridge::load(&content),
        Err(LoadError::UnknownNewLicensee(b'Z', b'Z'))
    ));
}

#[test]
fn unknown_destination_is_rejected() {
    let mut content = image();
    content[0x014A] = 0x02;
    seal(&mut content);
    assert!(matches!(Cartridge::load(&content), Err(LoadError::UnknownDestination(0x02))));
}

#[test]
fn unknown_old_licensee_is_rejected() {
    let mut content = image();
    content[0x014B] = 0x02;
    seal(&mut content);
    assert!(matches!(Cartridge::load(&content), Err(LoadError::UnknownOldLicensee(0x02))));
}

#[test]
fn every_single_byte_header_change_is_detected() {
    let content = image();
    assert!(Cartridge::load(&content).is_ok());
    for i in 0x0134..=0x014C {
        for delta in [1u8, 0x80, 0xFF] {
            let mut changed = content.clone();
            changed[i] = changed[i].wrapping_add(delta);
            assert!(Cartridge::load(&changed).is_err(), "offset {i:#x} delta {delta:#x}");
        }
    }
}

#[test]
fn new_licensee_codes_decode_to_distinct_publishers() {
    let digits: Vec<char> = ('0'..='9').chain('A'..='Z').collect();
    let mut seen: Vec<(char, char, NewLicensee)> = Vec::new();
    for &a in &digits {
        for &b in &digits {
            if let Some(v) = NewLicensee::from_code(a, b) {
                assert!(seen.iter().all(|&(_, _, w)| w != v), "{a}{b} repeats {v:?}");
                seen.push((a, b, v));
            }
        }
    }
    assert_eq!(seen.len(), 62);
    assert_eq!(NewLicensee::from_code('\0', '\0'), Some(NewLicensee::NoLicensee));
    assert_eq!(NewLicensee::from_code('A', '4'), Some(NewLicensee::Konami_YuGiOh));
    assert_eq!(NewLicensee::from_code('9', 'H'), Some(NewLicensee::BottomUp));
    assert_eq!(NewLicensee::from_code('0', '2'), None);
    assert_eq!(NewLicensee::from_code('Z', 'Z'), None);
}

#[test]
fn single_byte_codes_decode() {
    assert_eq!(OldLicensee::from_code(0x00), Some(OldLicensee::NoLicensee));
    assert_eq!(OldLicensee::from_code(0x33), Some(OldLicensee::NewLicenseeCode));
    assert_eq!(OldLicensee::from_code(0xFF), Some(OldLicensee::LJN3));
    assert_eq!(OldLicensee::from_code(0x02), None);
    assert_eq!(CartridgeType::from_code(0x13), Some(CartridgeType::Mbc3RamBattery));
    assert_eq!(CartridgeType::from_code(0xFF), Some(CartridgeType::HuC1RamBattery));
    assert_eq!(CartridgeType::from_code(0x21), None);
    assert_eq!(Destination::from_code(0x00), Some(Destination::Japan));
    assert_eq!(Destination::from_code(0x02), None);
}

#[test]
fn rom_ignores_writes_and_out_of_window_reads() {
    let mut rom = Rom::<4>::new(vec![1, 2, 3, 4, 5, 6, 7, 8], 2);
    rom.write(0, 9);
    assert_eq!(rom.read(0), 1);
    assert_eq!(rom.read(4), OPEN_BUS);
}

#[test]
fn rom_bank_select_boundary() {
    let mut rom = Rom::<4>::new(vec![1, 2, 3, 4, 5, 6, 7, 8, 9, 10, 11, 12], 3);
    rom.sel_bank(3);
    assert_eq!(rom.read(0), 1);
    rom.sel_bank(2);
    assert_eq!(rom.read(0), 9);
    assert_eq!(rom.read(3), 12);
    rom.sel_bank(usize::MAX);
    assert_eq!(rom.read(0), 9);
}

#[test]
fn commercial_header_checksum_matches_stored_byte() {
    // Header bytes 0x134..=0x14C of Tetris (revision A); the cartridge stores 0x0A at 0x14D.
    let mut header = [0u8; 25];
    header[..6].copy_from_slice(b"TETRIS");
    header[0x14B - 0x134] = 0x01;
    header[0x14C - 0x134] = 0x01;
    assert_eq!(Cartridge::compute_header_checksum(&header), 0x0A);
    for i in 0..header.len() {
        let mut changed = header;
        changed[i] ^= 0x01;
        assert_ne!(Cartridge::compute_header_checksum(&changed), 0x0A);
    }
}
