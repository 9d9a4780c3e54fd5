use rustboy::cartridge::Cartridge;
use rustboy::joypad::JoyPadButton;
use rustboy::virtual_memory::{BusFault, MemoryMappedPeripheral, ReadBlock, VirtualMemory};

/// Boot ROM whose byte `i` is `0xB0 ^ i`.
fn boot_rom() -> Vec<u8> {
    (0..0x100u32).map(|i| 0xB0 ^ (i as u8)).collect()
}

/// A bus around a two-bank cartridge whose byte `i` is `i % 251`, with `ram_code`
/// as its RAM size code.
fn bus_with_ram(ram_code: u8) -> VirtualMemory {
    let mut content: Vec<u8> = (0..0x8000u32).map(|i| (i % 251) as u8).collect();
    for b in content[0x0134..0x0150].iter_mut() {
        *b = 0;
    }
    content[0x0144] = b'0';
    content[0x0145] = b'0';
    content[0x0149] = ram_code;
    content[0x014D] = Cartridge::compute_header_checksum(&content[0x0134..0x014D]);
    let cartridge = Cartridge::load(&content).unwrap();
    VirtualMemory::new(cartridge, boot_rom())
}

fn bus() -> VirtualMemory {
    bus_with_ram(0x00)
}

#[test]
fn prohibited_area_is_fatal() {
    let mut m = bus();
    for a in 0xFEA0u16..=0xFEFF {
        assert_eq!(m.try_read(a), Err(BusFault::ProhibitedArea(a)));
        assert_eq!(m.try_write(a, 0x12), Err(BusFault::ProhibitedArea(a)));
    }
    assert!(m.try_read(0xFE9F).is_ok());
    assert!(m.try_read(0xFF00).is_ok());
}

#[test]
fn unhandled_registers_are_fatal() {
    let mut m = bus();
    assert_eq!(m.try_read(0xFF01), Err(BusFault::UnhandledRegister(0x01)));
    assert_eq!(m.try_write(0xFF40, 0), Err(BusFault::UnhandledRegister(0x40)));
    assert_eq!(m.try_read(0xFF7F), Err(BusFault::UnhandledRegister(0x7F)));
    assert_eq!(m.try_write(0xFF46, 0xFF), Err(BusFault::UnhandledRegister(0x01)));
    assert_eq!(m.try_read(0xFF46), Ok(0x00));
}

#[test]
fn echo_mirrors_work_ram_bank0() {
    let mut m = bus();
    m.write(0xC123, 0x5A);
    assert_eq!(m.read(0xE123), 0x5A);
    m.write(0xE456, 0xA5);
    assert_eq!(m.read(0xC456), 0xA5);
    for a in [0xE000u16, 0xE001, 0xEFFF] {
        assert_eq!(m.read(a), m.read(a - 0x2000));
    }
}

#[test]
fn echo_past_bank0_reads_open_bus() {
    let mut m = bus();
    m.write(0xD000, 0x01);
    assert_eq!(m.read(0xF000), 0xFF);
    m.write(0xF000, 0x02);
    assert_eq!(m.read(0xD000), 0x01);
}

#[test]
fn oam_dma_copies_page() {
    let mut m = bus();
    for i in 0..0xA0u16 {
        m.write(0x8000 + i, (i as u8).wrapping_mul(3));
    }
    m.write(0xFF46, 0x80);
    for i in 0..0xA0u16 {
        assert_eq!(m.read(0xFE00 + i), m.read(0x8000 + i));
        assert_eq!(m.read(0xFE00 + i), (i as u8).wrapping_mul(3));
    }
    assert_eq!(m.read(0xFF46), 0x80);
}

#[test]
fn oam_dma_from_cartridge_rom() {
    let mut m = bus();
    m.write(0xFF50, 0x01);
    m.write(0xFF46, 0x41);
    for i in 0..0xA0u16 {
        assert_eq!(m.read(0xFE00 + i), ((0x4100 + i as u32) % 251) as u8);
    }
}

#[test]
fn boot_rom_overlay() {
    let mut m = bus();
    assert_eq!(m.read(0x0000), 0xB0);
    assert_eq!(m.read(0x00FF), 0xB0 ^ 0xFF);
    assert_eq!(m.read(0x0100), (0x100 % 251) as u8);
    m.write(0xFF50, 0x01);
    assert_eq!(m.read(0x0000), 0x00);
    assert_eq!(m.read(0x00FF), (0xFF % 251) as u8);
    m.write(0xFF50, 0x00);
    assert_eq!(m.read(0x0000), 0x00);
}

#[test]
fn rom_windows_ignore_writes() {
    let mut m = bus();
    m.write(0xFF50, 0x01);
    m.write(0x0200, 0xEE);
    m.write(0x4000, 0xEE);
    assert_eq!(m.read(0x0200), (0x200 % 251) as u8);
    assert_eq!(m.read(0x4000), (0x4000 % 251) as u8);
    assert_eq!(m.read(0x7FFF), (0x7FFF % 251) as u8);
}

#[test]
fn absent_external_ram_reads_open_bus() {
    let mut m = bus();
    m.write(0xA000, 0x12);
    assert_eq!(m.read(0xA000), 0xFF);
    assert_eq!(m.read(0xBFFF), 0xFF);
}

#[test]
fn external_ram_keeps_writes() {
    let mut m = bus_with_ram(0x02);
    assert_eq!(m.read(0xA000), 0xFF);
    m.write(0xA000, 0x12);
    m.write(0xBFFF, 0x34);
    assert_eq!(m.read(0xA000), 0x12);
    assert_eq!(m.read(0xBFFF), 0x34);
}

#[test]
fn video_work_and_high_ram() {
    let mut m = bus();
    m.write(0x9FFF, 1);
    m.write(0xD000, 2);
    m.write(0xFF80, 3);
    m.write(0xFFFE, 4);
    assert_eq!(m.read(0x9FFF), 1);
    assert_eq!(m.read(0xD000), 2);
    assert_eq!(m.read(0xFF80), 3);
    assert_eq!(m.read(0xFFFE), 4);
    assert_eq!(m.read(0xC000), 0xFF);
}

#[test]
fn interrupt_enable_is_a_flag() {
    let mut m = bus();
    assert_eq!(m.read(0xFFFF), 1);
    m.write(0xFFFF, 0x00);
    assert_eq!(m.read(0xFFFF), 0);
    m.write(0xFFFF, 0x80);
    assert_eq!(m.read(0xFFFF), 1);
}

#[test]
fn joypad_through_the_bus() {
    let mut m = bus();
    assert_eq!(m.read(0xFF00), 0x3F);
    m.update_button_state(JoyPadButton::Select, true);
    m.write(0xFF00, 0x10);
    assert_eq!(m.read(0xFF00), 0x22);
    assert_eq!(m.joypad_ref().read(0), 0x22);
    m.write(0xFF00, 0x30);
    assert_eq!(m.read(0xFF00), 0x3F);
}

#[test]
fn read_block_returns_reads_in_order() {
    let mut m = bus();
    m.write(0xC000, 7);
    m.write(0xC001, 8);
    let block = m.read_block(0xBFFF, 3);
    assert_eq!(block, vec![0xFF, 7, 8]);
}
