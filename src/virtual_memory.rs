//! The peripheral contract and the bus that decodes the 16-bit address space.

use vstd::prelude::*;
use crate::banked::{BankedModel, OPEN_BUS};
use crate::cartridge::{Cartridge, CartridgeModel, Rom};
use crate::io_regs::{handles, is_handled, IoModel, IoRegs, BOOT_ROM_DISABLE, OAM_DMA};
use crate::joypad::{JoyPad, JoyPadButton};
use crate::oam::{Oam, OAM_SIZE};
use crate::ram::Ram;

verus! {

/// A device that the bus forwards byte accesses to.
pub trait MemoryMappedPeripheral: Sized {
    /// The device's internal well-formedness, kept by every access.
    spec fn inv(&self) -> bool;

    /// A read of `address` is served rather than a fatal condition.
    spec fn readable(&self, address: u16) -> bool;

    /// A write of `data` at `address` is served rather than a fatal condition.
    spec fn writable(&self, address: u16, data: u8) -> bool;

    /// The byte that a read of `address` returns.
    spec fn read_value(&self, address: u16) -> u8;

    /// `after` is the device once `data` has been written at `address`.
    spec fn written(&self, after: Self, address: u16, data: u8) -> bool;

    fn write(&mut self, address: u16, data: u8)
        requires
            old(self).inv(),
            old(self).writable(address, data),
        ensures
            final(self).inv(),
            old(self).written(*final(self), address, data),
    ;

    fn read(&self, address: u16) -> (r: u8)
        requires
            self.inv(),
            self.readable(address),
        ensures
            r == self.read_value(address),
    ;
}

/// A device that takes a run of bytes in one call.
pub trait WriteBlock: MemoryMappedPeripheral {
    /// `after` is the device once `block` has been copied to it from `base_address` on.
    spec fn block_written(&self, after: Self, base_address: u16, block: Seq<u8>) -> bool;

    fn write_block(&mut self, base_address: u16, block: &[u8])
        requires
            old(self).inv(),
        ensures
            final(self).inv(),
            old(self).block_written(*final(self), base_address, block@),
    ;
}

/// A device that hands out a run of bytes in one call.
pub trait ReadBlock: MemoryMappedPeripheral {
    /// The `len` bytes that reads from `base_address` on return.
    fn read_block(&self, base_address: u16, len: usize) -> (r: Vec<u8>)
        requires
            self.inv(),
            base_address + len <= 0x10000,
            forall|i: int| 0 <= i < len ==> #[trigger] self.readable((base_address + i) as u16),
        ensures
            r@.len() == len,
            forall|i: int| 0 <= i < len ==> #[trigger] r@[i] == self.read_value((base_address + i) as u16),
    ;
}

/// Bytes in the boot ROM image.
pub const BOOT_ROM_SIZE: usize = 0x100;

/// An access that the bus treats as fatal.
#[derive(Debug, Clone, Copy, PartialEq, Eq, Structural)]
pub enum BusFault {
    /// The address lies in the prohibited range above sprite memory.
    ProhibitedArea(u16),
    /// The I/O register at this offset has no handler.
    UnhandledRegister(u16),
}

/// The state of the whole address space.
pub struct BusModel {
    pub boot_rom: BankedModel,
    pub rom_bank0: BankedModel,
    pub rom_bank1: BankedModel,
    pub vram: BankedModel,
    pub external_ram: Option<BankedModel>,
    pub wram0: BankedModel,
    pub wram1: BankedModel,
    pub oam: BankedModel,
    pub io: IoModel,
    pub hram: BankedModel,
    pub ie: bool,
}

impl BusModel {
    /// Each region is well formed and has its window size.
    pub open spec fn wf(self) -> bool {
        &&& self.boot_rom.wf() && self.boot_rom.window == BOOT_ROM_SIZE
        &&& self.rom_bank0.wf() && self.rom_bank0.window == 0x4000
        &&& self.rom_bank1.wf() && self.rom_bank1.window == 0x4000
        &&& self.vram.wf() && self.vram.window == 0x2000
        &&& (self.external_ram matches Some(r) ==> r.wf() && r.window == 0x2000)
        &&& self.wram0.wf() && self.wram0.window == 0x1000
        &&& self.wram1.wf() && self.wram1.window == 0x1000
        &&& self.oam.wf() && self.oam.window == OAM_SIZE
        &&& self.hram.wf() && self.hram.window == 0x7F
    }

    /// The bus at power on, built around a cartridge's storage.
    pub open spec fn initial(cartridge: CartridgeModel, boot_rom: Seq<u8>) -> Self {
        BusModel {
            boot_rom: BankedModel::split(BOOT_ROM_SIZE as nat, boot_rom, 1),
            rom_bank0: cartridge.bank0.unwrap(),
            rom_bank1: cartridge.bank1.unwrap(),
            vram: BankedModel::blank(0x2000, 1),
            external_ram: cartridge.ram,
            wram0: BankedModel::blank(0x1000, 1),
            wram1: BankedModel::blank(0x1000, 1),
            oam: BankedModel::blank(OAM_SIZE as nat, 1),
            io: IoModel::initial(),
            hram: BankedModel::blank(0x7F, 1),
            ie: true,
        }
    }

    /// Why a read of `address` is fatal, if it is.
    pub open spec fn read_fault(self, address: u16) -> Option<BusFault> {
        if 0xFEA0 <= address <= 0xFEFF {
            Some(BusFault::ProhibitedArea(address))
        } else if 0xFF00 <= address <= 0xFF7F && !handles((address - 0xFF00) as u16) {
            Some(BusFault::UnhandledRegister((address - 0xFF00) as u16))
        } else {
            None
        }
    }

    /// Why a write of `data` at `address` is fatal, if it is. A transfer from
    /// page 0xFF into sprite memory is: its copy would read the unhandled
    /// register at offset 0x01.
    pub open spec fn write_fault(self, address: u16, data: u8) -> Option<BusFault> {
        if self.read_fault(address) is Some {
            self.read_fault(address)
        } else if address == 0xFF00 + OAM_DMA && data == 0xFF {
            Some(BusFault::UnhandledRegister(0x01))
        } else {
            None
        }
    }

    /// The byte that a read of `address` returns.
    pub open spec fn read(self, address: u16) -> u8 {
        let a = address as int;
        if a <= 0x00FF && self.io.boot_rom_enabled() {
            self.boot_rom.read(a)
        } else if a <= 0x3FFF {
            self.rom_bank0.read(a)
        } else if a <= 0x7FFF {
            self.rom_bank1.read(a - 0x4000)
        } else if a <= 0x9FFF {
            self.vram.read(a - 0x8000)
        } else if a <= 0xBFFF {
            match self.external_ram {
                Some(r) => r.read(a - 0xA000),
                None => OPEN_BUS,
            }
        } else if a <= 0xCFFF {
            self.wram0.read(a - 0xC000)
        } else if a <= 0xDFFF {
            self.wram1.read(a - 0xD000)
        } else if a <= 0xFDFF {
            self.wram0.read(a - 0xE000)
        } else if a <= 0xFE9F {
            self.oam.read(a - 0xFE00)
        } else if a <= 0xFEFF {
            OPEN_BUS
        } else if a <= 0xFF7F {
            self.io.read((a - 0xFF00) as u16)
        } else if a <= 0xFFFE {
            self.hram.read(a - 0xFF80)
        } else if self.ie {
            1
        } else {
            0
        }
    }

    /// The bytes that a transfer from `page` copies into sprite memory.
    pub open spec fn dma_source(self, page: u8) -> Seq<u8> {
        Seq::new(OAM_SIZE as nat, |i: int| self.read((page as int * 256 + i) as u16))
    }

    /// The bus once `data` has been written at `address`.
    pub open spec fn write(self, address: u16, data: u8) -> Self {
        let a = address as int;
        if a <= 0x7FFF {
            self
        } else if a <= 0x9FFF {
            BusModel { vram: self.vram.write(a - 0x8000, data), ..self }
        } else if a <= 0xBFFF {
            BusModel {
                external_ram: match self.external_ram {
                    Some(r) => Some(r.write(a - 0xA000, data)),
                    None => None,
                },
                ..self
            }
        } else if a <= 0xCFFF {
            BusModel { wram0: self.wram0.write(a - 0xC000, data), ..self }
        } else if a <= 0xDFFF {
            BusModel { wram1: self.wram1.write(a - 0xD000, data), ..self }
        } else if a <= 0xFDFF {
            BusModel { wram0: self.wram0.write(a - 0xE000, data), ..self }
        } else if a <= 0xFE9F {
            BusModel { oam: self.oam.write(a - 0xFE00, data), ..self }
        } else if a <= 0xFEFF {
            self
        } else if a <= 0xFF7F {
            let s = BusModel { io: self.io.write((a - 0xFF00) as u16, data), ..self };
            if a == 0xFF00 + OAM_DMA {
                BusModel { oam: s.oam.write_block(0, s.dma_source(data)), ..s }
            } else {
                s
            }
        } else if a <= 0xFFFE {
            BusModel { hram: self.hram.write(a - 0xFF80, data), ..self }
        } else {
            BusModel { ie: data != 0, ..self }
        }
    }
}

/// The bus: owns every peripheral and decodes the 16-bit address space.
pub struct VirtualMemory {
    boot_rom: Rom<0x100>,
    rom_bank0: Rom<0x4000>,
    rom_bank1: Rom<0x4000>,
    vram: Ram<0x2000>,
    external_ram: Option<Ram<0x2000>>,
    wram0: Ram<0x1000>,
    wram1: Ram<0x1000>,
    oam: Oam,
    io: IoRegs,
    hram: Ram<0x7F>,
    ie: bool,
}

impl View for VirtualMemory {
    type V = BusModel;

    closed spec fn view(&self) -> BusModel {
        BusModel {
            boot_rom: self.boot_rom@,
            rom_bank0: self.rom_bank0@,
            rom_bank1: self.rom_bank1@,
            vram: self.vram@,
            external_ram: match self.external_ram {
                Some(r) => Some(r@),
                None => None,
            },
            wram0: self.wram0@,
            wram1: self.wram1@,
            oam: self.oam@,
            io: self.io@,
            hram: self.hram@,
            ie: self.ie,
        }
    }
}

/// No address of a page below 0xFF that a transfer copies from is fatal to read.
proof fn lemma_dma_source_readable(m: BusModel, page: u8)
    requires
        page != 0xFF,
    ensures
        forall|i: int| 0 <= i < OAM_SIZE ==> (#[trigger] m.read_fault((page as int * 256 + i) as u16)) is None,
{
}

impl VirtualMemory {
    pub closed spec fn wf(&self) -> bool {
        &&& self.boot_rom.wf()
        &&& self.rom_bank0.wf()
        &&& self.rom_bank1.wf()
        &&& self.vram.wf()
        &&& (self.external_ram matches Some(r) ==> r.wf())
        &&& self.wram0.wf()
        &&& self.wram1.wf()
        &&& self.oam.inv()
        &&& self.hram.wf()
    }

    /// The state of a well-formed bus is well formed.
    pub proof fn lemma_wf_view(&self)
        requires
            self.wf(),
        ensures
            self@.wf(),
    {
        self.boot_rom.lemma_wf_view();
        self.rom_bank0.lemma_wf_view();
        self.rom_bank1.lemma_wf_view();
        self.vram.lemma_wf_view();
        if let Some(r) = &self.external_ram {
            r.lemma_wf_view();
        }
        self.wram0.lemma_wf_view();
        self.wram1.lemma_wf_view();
        self.oam.lemma_wf_view();
        self.hram.lemma_wf_view();
    }

    /// Builds the bus around `cartridge`'s storage, with `boot_rom` mapped over
    /// the lowest addresses.
    pub fn new(cartridge: Cartridge, boot_rom: Vec<u8>) -> (r: Self)
        requires
            cartridge.wf(),
            cartridge@.bank0 is Some,
            cartridge@.bank1 is Some,
            boot_rom@.len() == BOOT_ROM_SIZE,
        ensures
            r.wf(),
            r@ == BusModel::initial(cartridge@, boot_rom@),
    {
        let mut cartridge = cartridge;
        let rom_bank0 = cartridge.take_bank0();
        let rom_bank1 = cartridge.take_bank1();
        let external_ram = cartridge.take_ram();
        VirtualMemory {
            boot_rom: Rom::new(boot_rom, 1),
            rom_bank0,
            rom_bank1,
            vram: Ram::default(),
            external_ram,
            wram0: Ram::default(),
            wram1: Ram::default(),
            oam: Oam::default(),
            io: IoRegs::default(),
            hram: Ram::default(),
            ie: true,
        }
    }

    pub fn joypad_ref(&self) -> (r: &JoyPad)
        ensures
            r@ == self@.io.joypad,
    {
        self.io.joypad_ref()
    }

    /// Forwards a button change from the input source to the joypad.
    pub fn update_button_state(&mut self, button: JoyPadButton, state: bool)
        requires
            old(self).wf(),
        ensures
            final(self).wf(),
            final(self)@ == (BusModel {
                io: IoModel { joypad: old(self)@.io.joypad.update(button, state), ..old(self)@.io },
                ..old(self)@
            }),
    {
        self.io.update_button_state(button, state);
    }

    /// Reads `address`, or says why the read is fatal.
    pub fn try_read(&self, address: u16) -> (r: Result<u8, BusFault>)
        requires
            self.wf(),
        ensures
            match r {
                Ok(v) => self@.read_fault(address) is None && v == self@.read(address),
                Err(f) => self@.read_fault(address) == Some(f),
            },
    {
        if 0xFEA0 <= address && address <= 0xFEFF {
            return Err(BusFault::ProhibitedArea(address));
        }
        if 0xFF00 <= address && address <= 0xFF7F && !is_handled(address - 0xFF00) {
            return Err(BusFault::UnhandledRegister(address - 0xFF00));
        }
        Ok(self.read(address))
    }

    /// Writes `data` at `address`, or says why the write is fatal and changes nothing.
    pub fn try_write(&mut self, address: u16, data: u8) -> (r: Result<(), BusFault>)
        requires
            old(self).wf(),
        ensures
            final(self).wf(),
            match r {
                Ok(()) => old(self)@.write_fault(address, data) is None
                    && final(self)@ == old(self)@.write(address, data),
                Err(f) => old(self)@.write_fault(address, data) == Some(f) && final(self)@ == old(self)@,
            },
    {
        if 0xFEA0 <= address && address <= 0xFEFF {
            return Err(BusFault::ProhibitedArea(address));
        }
        if 0xFF00 <= address && address <= 0xFF7F && !is_handled(address - 0xFF00) {
            return Err(BusFault::UnhandledRegister(address - 0xFF00));
        }
        if address == 0xFF00 + OAM_DMA && data == 0xFF {
            return Err(BusFault::UnhandledRegister(0x01));
        }
        self.write(address, data);
        Ok(())
    }

    fn write_io_regs(&mut self, address: u16, data: u8)
        requires
            old(self).wf(),
            handles(address),
            address == OAM_DMA ==> data != 0xFF,
        ensures
            final(self).wf(),
            final(self)@ == old(self)@.write((address + 0xFF00) as u16, data),
    {
        self.io.write(address, data);
        if address == OAM_DMA {
            let base_address = (data as u16) * 256;
            proof { lemma_dma_source_readable(self@, data); }
            let source = self.read_block(base_address, OAM_SIZE);
            proof {
                let after_io = BusModel { io: old(self)@.io.write(address, data), ..old(self)@ };
                assert(self@ == after_io);
                assert(source@ =~= after_io.dma_source(data));
            }
            self.oam.write_block(0, source.as_slice());
        }
    }

    fn read_io_regs(&self, address: u16) -> (r: u8)
        requires
            handles(address),
        ensures
            r == self@.io.read(address),
    {
        self.io.read(address)
    }
}

impl MemoryMappedPeripheral for VirtualMemory {
    open spec fn inv(&self) -> bool {
        self.wf()
    }

    open spec fn readable(&self, address: u16) -> bool {
        self@.read_fault(address) is None
    }

    open spec fn writable(&self, address: u16, data: u8) -> bool {
        self@.write_fault(address, data) is None
    }

    open spec fn read_value(&self, address: u16) -> u8 {
        self@.read(address)
    }

    open spec fn written(&self, after: Self, address: u16, data: u8) -> bool {
        after@ == self@.write(address, data)
    }

    fn write(&mut self, address: u16, data: u8) {
        if address <= 0x7FFF {
        } else if address <= 0x9FFF {
            self.vram.write(address - 0x8000, data);
        } else if address <= 0xBFFF {
            match &mut self.external_ram {
                Some(external_ram) => external_ram.write(address - 0xA000, data),
                None => {},
            }
        } else if address <= 0xCFFF {
            self.wram0.write(address - 0xC000, data);
        } else if address <= 0xDFFF {
            self.wram1.write(address - 0xD000, data);
        } else if address <= 0xFDFF {
            self.wram0.write(address - 0xE000, data);
        } else if address <= 0xFE9F {
            self.oam.write(address - 0xFE00, data);
        } else if address <= 0xFEFF {
        } else if address <= 0xFF7F {
            self.write_io_regs(address - 0xFF00, data);
        } else if address <= 0xFFFE {
            self.hram.write(address - 0xFF80, data);
        } else {
            self.ie = data != 0;
        }
    }

    fn read(&self, address: u16) -> (r: u8) {
        if address <= 0x00FF && self.io.boot_rom_enabled() {
            self.boot_rom.read(address)
        } else if address <= 0x3FFF {
            self.rom_bank0.read(address)
        } else if address <= 0x7FFF {
            self.rom_bank1.read(address - 0x4000)
        } else if address <= 0x9FFF {
            self.vram.read(address - 0x8000)
        } else if address <= 0xBFFF {
            match &self.external_ram {
                Some(external_ram) => external_ram.read(address - 0xA000),
                None => OPEN_BUS,
            }
        } else if address <= 0xCFFF {
            self.wram0.read(address - 0xC000)
        } else if address <= 0xDFFF {
            self.wram1.read(address - 0xD000)
        } else if address <= 0xFDFF {
            self.wram0.read(address - 0xE000)
        } else if address <= 0xFE9F {
            self.oam.read(address - 0xFE00)
        } else if address <= 0xFEFF {
            OPEN_BUS
        } else if address <= 0xFF7F {
            self.read_io_regs(address - 0xFF00)
        } else if address <= 0xFFFE {
            self.hram.read(address - 0xFF80)
        } else if self.ie {
            1
        } else {
            0
        }
    }
}

impl ReadBlock for VirtualMemory {
    fn read_block(&self, base_address: u16, len: usize) -> (r: Vec<u8>) {
        let mut output: Vec<u8> = Vec::new();
        let mut i: usize = 0;
        while i < len
            invariant
                self.inv(),
                i <= len,
                base_address + len <= 0x10000,
                forall|k: int| 0 <= k < len ==> #[trigger] self.readable((base_address + k) as u16),
                output@.len() == i,
                forall|k: int| 0 <= k < i ==> #[trigger] output@[k] == self.read_value((base_address + k) as u16),
            decreases len - i,
        {
            let address = (base_address as usize + i) as u16;
            assert(self.readable((base_address + i) as u16));
            output.push(self.read(address));
            i = i + 1;
        }
        output
    }
}

/// Every access to the prohibited range above sprite memory is fatal.
pub proof fn prohibited_area_is_fatal(m: BusModel, address: u16, data: u8)
    requires
        0xFEA0 <= address <= 0xFEFF,
    ensures
        m.read_fault(address) == Some(BusFault::ProhibitedArea(address)),
        m.write_fault(address, data) == Some(BusFault::ProhibitedArea(address)),
{
}

/// The echo of work RAM bank 0 at 0xE000..=0xEFFF reads as, and is written
/// as, the bank itself at 0x2000 below.
pub proof fn echo_mirrors_work_ram(m: BusModel, address: u16, data: u8)
    requires
        m.wf(),
        0xE000 <= address <= 0xEFFF,
    ensures
        m.read(address) == m.read((address - 0x2000) as u16),
        m.write(address, data) == m.write((address - 0x2000) as u16, data),
        m.write(address, data).read((address - 0x2000) as u16) == data,
{
}

/// A write of `page` to the transfer register copies the bytes that reads of
/// `page * 0x100 ..` return, in order, into sprite memory.
pub proof fn oam_dma_copies_page(m: BusModel, page: u8, i: int)
    requires
        m.wf(),
        m.write_fault((0xFF00 + OAM_DMA) as u16, page) is None,
        0 <= i < OAM_SIZE,
    ensures
        m.write((0xFF00 + OAM_DMA) as u16, page).read((0xFE00 + i) as u16) == m.read((page * 256 + i) as u16),
{
    let s = BusModel { io: m.io.write(OAM_DMA, page), ..m };
    assert(s.dma_source(page)[i] == m.read((page * 256 + i) as u16));
}

/// While the latch holds zero the boot ROM answers at the lowest addresses;
/// a nonzero write to the latch uncovers cartridge bank 0 there.
pub proof fn boot_rom_overlay_until_disabled(m: BusModel, address: u16, data: u8)
    requires
        m.io.boot_rom_en == 0,
        address <= 0xFF,
        data != 0,
    ensures
        m.read(address) == m.boot_rom.read(address as int),
        m.write((0xFF00 + BOOT_ROM_DISABLE) as u16, data).read(address) == m.rom_bank0.read(address as int),
{
}

/// Once the boot ROM is off, no write turns it back on.
pub proof fn boot_rom_stays_disabled(m: BusModel, address: u16, data: u8)
    requires
        !m.io.boot_rom_enabled(),
    ensures
        !m.write(address, data).io.boot_rom_enabled(),
        m.write(address, data).io.boot_rom_en == m.io.boot_rom_en,
{
}

} // verus!
