use rustboy::banked::OPEN_BUS;
use rustboy::io_regs::IoRegs;
use rustboy::joypad::{JoyPad, JoyPadButton};
use rustboy::oam::Oam;
use rustboy::ram::Ram;
use rustboy::virtual_memory::{MemoryMappedPeripheral, WriteBlock};

#[test]
fn ram_starts_as_open_bus_and_keeps_writes() {
    let mut ram = Ram::<0x10>::new(2);
    assert_eq!(ram.read(0x0), OPEN_BUS);
    ram.write(0x3, 0x42);
    assert_eq!(ram.read(0x3), 0x42);
    ram.write(0x10, 0x42);
    assert_eq!(ram.read(0x10), OPEN_BUS);
}

#[test]
fn ram_bank_select_boundary() {
    let mut ram = Ram::<0x10>::new(2);
    ram.write(0x0, 0xAA);
    ram.sel_bank(2);
    assert_eq!(ram.read(0x0), 0xAA);
    ram.sel_bank(1);
    assert_eq!(ram.read(0x0), OPEN_BUS);
    ram.write(0x0, 0xBB);
    assert_eq!(ram.read(0x0), 0xBB);
    ram.sel_bank(0);
    assert_eq!(ram.read(0x0), 0xAA);
}

#[test]
fn ram_default_has_one_bank() {
    let mut ram: Ram<8> = Ram::default();
    ram.write(1, 7);
    ram.sel_bank(1);
    assert_eq!(ram.read(1), 7);
}

#[test]
fn write_block_truncates_at_window() {
    let mut ram = Ram::<4>::new(1);
    ram.write_block(2, &[1, 2, 3, 4]);
    assert_eq!(ram.read(0), OPEN_BUS);
    assert_eq!(ram.read(1), OPEN_BUS);
    assert_eq!(ram.read(2), 1);
    assert_eq!(ram.read(3), 2);
    ram.write_block(9, &[5]);
    assert_eq!(ram.read(3), 2);
}

#[test]
fn oam_block_and_bytes() {
    let mut oam = Oam::default();
    assert_eq!(oam.read(0x00), OPEN_BUS);
    oam.write_block(0x9E, &[1, 2, 3]);
    assert_eq!(oam.read(0x9E), 1);
    assert_eq!(oam.read(0x9F), 2);
    assert_eq!(oam.read(0xA0), OPEN_BUS);
    oam.write(0x10, 0x55);
    assert_eq!(oam.read(0x10), 0x55);
}

#[test]
fn joypad_idle_reads_no_selection() {
    let mut pad = JoyPad::default();
    assert_eq!(pad.read(0), 0x3F);
    pad.update_button_state(JoyPadButton::Down, true);
    assert_eq!(pad.read(0), 0x3F);
    pad.write(0, 0x30);
    assert_eq!(pad.read(0), 0x3F);
}

#[test]
fn joypad_direction_row_reads_high_nibble() {
    let mut pad = JoyPad::default();
    pad.update_button_state(JoyPadButton::Down, true);
    pad.write(0, 0x10);
    assert_eq!(pad.read(0), 0b0010_0000);
    pad.update_button_state(JoyPadButton::Start, true);
    pad.update_button_state(JoyPadButton::A, true);
    assert_eq!(pad.read(0), 0b0010_1001);
}

#[test]
fn joypad_action_row_reads_low_nibble() {
    let mut pad = JoyPad::default();
    pad.update_button_state(JoyPadButton::Down, true);
    pad.update_button_state(JoyPadButton::Right, true);
    pad.write(0, 0x20);
    assert_eq!(pad.read(0), 0b0001_1001);
}

#[test]
fn joypad_release_clears_bit() {
    let mut pad = JoyPad::default();
    pad.write(0, 0x20);
    pad.update_button_state(JoyPadButton::Up, true);
    assert_eq!(pad.read(0), 0x12);
    pad.update_button_state(JoyPadButton::Up, false);
    assert_eq!(pad.read(0), 0x10);
}

#[test]
fn io_regs_route_joypad_and_latch() {
    let mut io = IoRegs::default();
    assert!(io.boot_rom_enabled());
    assert_eq!(io.read(0x00), 0x3F);
    io.write(0x50, 0x01);
    assert!(!io.boot_rom_enabled());
    io.write(0x50, 0x00);
    assert!(!io.boot_rom_enabled());
    assert_eq!(io.read(0x50), 0x01);
    io.write(0x46, 0x12);
    assert_eq!(io.read(0x46), 0x12);
    io.update_button_state(JoyPadButton::B, true);
    io.write(0x00, 0x10);
    assert_eq!(io.joypad_ref().read(0), 0x24);
}
