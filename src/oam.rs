//! Sprite memory: the object attribute table.

use vstd::prelude::*;
use crate::banked::BankedModel;
use crate::ram::Ram;
use crate::virtual_memory::{MemoryMappedPeripheral, WriteBlock};

verus! {

/// Bytes in the object attribute table.
pub const OAM_SIZE: usize = 0xA0;

/// The object attribute table, filled byte by byte or by a block transfer.
pub struct Oam {
    table: Ram<0xA0>,
}

impl View for Oam {
    type V = BankedModel;

    closed spec fn view(&self) -> BankedModel {
        self.table@
    }
}

impl Oam {
    /// A well-formed table is one bank of the table's size.
    pub proof fn lemma_wf_view(&self)
        requires
            self.inv(),
        ensures
            self@.wf(),
            self@.window == OAM_SIZE,
    {
        self.table.lemma_wf_view();
    }
}

impl Default for Oam {
    /// Every byte set to the open-bus value.
    fn default() -> (r: Self)
        ensures
            r.inv(),
            r@ == BankedModel::blank(OAM_SIZE as nat, 1),
    {
        Oam { table: Ram::new(1) }
    }
}

impl MemoryMappedPeripheral for Oam {
    closed spec fn inv(&self) -> bool {
        self.table.inv()
    }

    open spec fn readable(&self, address: u16) -> bool {
        true
    }

    open spec fn writable(&self, address: u16, data: u8) -> bool {
        true
    }

    open spec fn read_value(&self, address: u16) -> u8 {
        self@.read(address as int)
    }

    open spec fn written(&self, after: Self, address: u16, data: u8) -> bool {
        after@ == self@.write(address as int, data)
    }

    fn write(&mut self, address: u16, data: u8) {
        self.table.write(address, data);
    }

    fn read(&self, address: u16) -> (r: u8) {
        self.table.read(address)
    }
}

impl WriteBlock for Oam {
    open spec fn block_written(&self, after: Self, base_address: u16, block: Seq<u8>) -> bool {
        after@ == self@.write_block(base_address as int, block)
    }

    fn write_block(&mut self, base_address: u16, block: &[u8]) {
        self.table.write_block(base_address, block);
    }
}

} // verus!
