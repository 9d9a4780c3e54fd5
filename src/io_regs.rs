//! The I/O register page: a second decoder over the offsets of 0xFF00..=0xFF7F.

use vstd::prelude::*;
use crate::joypad::{JoyPad, JoyPadButton, JoyPadModel, NO_SELECTION};
use crate::virtual_memory::MemoryMappedPeripheral;

verus! {

/// Offset of the joypad register.
pub const JOYPAD: u16 = 0x00;

/// Offset of the register that starts a transfer into sprite memory.
pub const OAM_DMA: u16 = 0x46;

/// Offset of the latch that turns the boot ROM off.
pub const BOOT_ROM_DISABLE: u16 = 0x50;

/// Whether a register at `offset` has a handler here.
pub open spec fn handles(offset: u16) -> bool {
    offset == JOYPAD || offset == OAM_DMA || offset == BOOT_ROM_DISABLE
}

/// Whether a register at `offset` has a handler here.
pub fn is_handled(offset: u16) -> (r: bool)
    ensures
        r == handles(offset),
{
    offset == JOYPAD || offset == OAM_DMA || offset == BOOT_ROM_DISABLE
}

/// The registers' state.
pub struct IoModel {
    pub joypad: JoyPadModel,
    pub boot_rom_en: u8,
    pub oam_dma: u8,
}

impl IoModel {
    /// At power on: a fresh joypad, the boot ROM mapped, no transfer made.
    pub open spec fn initial() -> Self {
        IoModel {
            joypad: JoyPadModel { buttons: 0, register: NO_SELECTION },
            boot_rom_en: 0,
            oam_dma: 0,
        }
    }

    /// The boot ROM stays mapped while its latch holds zero.
    pub open spec fn boot_rom_enabled(self) -> bool {
        self.boot_rom_en == 0
    }

    pub open spec fn read(self, offset: u16) -> u8 {
        if offset == JOYPAD {
            self.joypad.read()
        } else if offset == OAM_DMA {
            self.oam_dma
        } else {
            self.boot_rom_en
        }
    }

    /// Stores `data` in the register at `offset`; the latch takes a value only
    /// while it still holds zero, so the boot ROM, once off, stays off.
    pub open spec fn write(self, offset: u16, data: u8) -> Self {
        if offset == JOYPAD {
            IoModel { joypad: self.joypad.write(data), ..self }
        } else if offset == OAM_DMA {
            IoModel { oam_dma: data, ..self }
        } else if self.boot_rom_en == 0 {
            IoModel { boot_rom_en: data, ..self }
        } else {
            self
        }
    }
}

/// The registers of the I/O page that this bus serves itself.
pub struct IoRegs {
    joypad: JoyPad,
    boot_rom_en: u8,
    oam_dma: u8,
}

impl View for IoRegs {
    type V = IoModel;

    closed spec fn view(&self) -> IoModel {
        IoModel { joypad: self.joypad@, boot_rom_en: self.boot_rom_en, oam_dma: self.oam_dma }
    }
}

impl Default for IoRegs {
    fn default() -> (r: Self)
        ensures
            r@ == IoModel::initial(),
    {
        IoRegs { joypad: JoyPad::default(), boot_rom_en: 0, oam_dma: 0 }
    }
}

impl IoRegs {
    pub fn joypad_ref(&self) -> (r: &JoyPad)
        ensures
            r@ == self@.joypad,
    {
        &self.joypad
    }

    /// Forwards a button change to the joypad.
    pub fn update_button_state(&mut self, button: JoyPadButton, state: bool)
        ensures
            final(self)@ == (IoModel { joypad: old(self)@.joypad.update(button, state), ..old(self)@ }),
    {
        self.joypad.update_button_state(button, state);
    }

    pub fn boot_rom_enabled(&self) -> (r: bool)
        ensures
            r == self@.boot_rom_enabled(),
    {
        self.boot_rom_en == 0
    }
}

impl MemoryMappedPeripheral for IoRegs {
    open spec fn inv(&self) -> bool {
        true
    }

    open spec fn readable(&self, address: u16) -> bool {
        handles(address)
    }

    open spec fn writable(&self, address: u16, data: u8) -> bool {
        handles(address)
    }

    open spec fn read_value(&self, address: u16) -> u8 {
        self@.read(address)
    }

    open spec fn written(&self, after: Self, address: u16, data: u8) -> bool {
        after@ == self@.write(address, data)
    }

    fn write(&mut self, address: u16, data: u8) {
        if address == JOYPAD {
            self.joypad.write(address, data);
        } else if address == OAM_DMA {
            self.oam_dma = data;
        } else if self.boot_rom_en == 0 {
            self.boot_rom_en = data;
        }
    }

    fn read(&self, address: u16) -> (r: u8) {
        if address == JOYPAD {
            self.joypad.read(address)
        } else if address == OAM_DMA {
            self.oam_dma
        } else {
            self.boot_rom_en
        }
    }
}

} // verus!
