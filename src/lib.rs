//! Memory subsystem of a handheld-console emulator: banked cartridge storage,
//! the cartridge header parser, the joypad, the I/O register router and the
//! bus that decodes the 16-bit address space.

pub mod banked;
pub mod cartridge;
pub mod io_regs;
pub mod joypad;
pub mod oam;
pub mod ram;
pub mod virtual_memory;
