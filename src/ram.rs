//! Writable bank-switched storage.

use vstd::prelude::*;
use crate::banked::{BankedModel, OPEN_BUS};
use crate::virtual_memory::{MemoryMappedPeripheral, WriteBlock};

verus! {

/// Read-write storage of `S` bytes per bank.
pub struct Ram<const S: usize> {
    buffer: Vec<Vec<u8>>,
    banks: usize,
    actual_bank: usize,
}

impl<const S: usize> View for Ram<S> {
    type V = BankedModel;

    closed spec fn view(&self) -> BankedModel {
        BankedModel {
            window: S as nat,
            banks: Seq::new(self.buffer@.len(), |i: int| self.buffer@[i]@),
            active: self.actual_bank as nat,
        }
    }
}

impl<const S: usize> Ram<S> {
    pub closed spec fn wf(&self) -> bool {
        &&& self.buffer@.len() == self.banks
        &&& self.actual_bank < self.banks
        &&& forall|i: int| 0 <= i < self.buffer@.len() ==> (#[trigger] self.buffer@[i])@.len() == S
    }

    pub proof fn lemma_wf_view(&self)
        requires
            self.wf(),
        ensures
            self@.wf(),
            self@.window == S,
    {
        assert forall|i: int| 0 <= i < self@.banks.len() implies (#[trigger] self@.banks[i]).len() == self@.window by {
            assert(self.buffer@[i]@.len() == S);
        }
    }

    /// `banks` banks, every byte set to the open-bus value, bank 0 active.
    pub fn new(banks: usize) -> (r: Self)
        requires
            banks >= 1,
        ensures
            r.wf(),
            r@ == BankedModel::blank(S as nat, banks as nat),
    {
        let mut buffer: Vec<Vec<u8>> = Vec::new();
        let mut i: usize = 0;
        while i < banks
            invariant
                i <= banks,
                buffer@.len() == i,
                forall|k: int| 0 <= k < i ==> (#[trigger] buffer@[k])@ == Seq::new(S as nat, |j: int| OPEN_BUS),
            decreases banks - i,
        {
            let bank = vec![OPEN_BUS; S];
            assert(bank@ =~= Seq::new(S as nat, |j: int| OPEN_BUS));
            buffer.push(bank);
            i = i + 1;
        }
        let r = Ram { buffer, banks, actual_bank: 0 };
        assert(r@.banks =~= BankedModel::blank(S as nat, banks as nat).banks);
        r
    }

    /// Makes `bank` active when it is below the bank count; otherwise does nothing.
    pub fn sel_bank(&mut self, bank: usize)
        requires
            old(self).wf(),
        ensures
            final(self).wf(),
            final(self)@ == old(self)@.select(bank as int),
    {
        if bank >= self.banks {
            return;
        }
        self.actual_bank = bank;
        assert(self@.banks =~= old(self)@.banks);
    }
}

} // verus!

verus! {

impl<const S: usize> Default for Ram<S> {
    /// One bank, every byte set to the open-bus value.
    fn default() -> (r: Self)
        ensures
            r.wf(),
            r@ == BankedModel::blank(S as nat, 1),
    {
        Ram::new(1)
    }
}

impl<const S: usize> MemoryMappedPeripheral for Ram<S> {
    open spec fn inv(&self) -> bool {
        self.wf()
    }

    open spec fn readable(&self, address: u16) -> bool {
        true
    }

    open spec fn writable(&self, address: u16, data: u8) -> bool {
        true
    }

    open spec fn read_value(&self, address: u16) -> u8 {
        self@.read(address as int)
    }

    open spec fn written(&self, after: Self, address: u16, data: u8) -> bool {
        after@ == self@.write(address as int, data)
    }

    fn write(&mut self, address: u16, data: u8) {
        let a = address as usize;
        if a >= S {
            return;
        }
        let bank = self.actual_bank;
        proof { self.lemma_wf_view(); }
        self.buffer[bank].set(a, data);
        assert(self@.banks =~= old(self)@.write(address as int, data).banks);
    }

    fn read(&self, address: u16) -> (r: u8) {
        let a = address as usize;
        if a >= S {
            return OPEN_BUS;
        }
        proof { self.lemma_wf_view(); }
        self.buffer[self.actual_bank][a]
    }
}

impl<const S: usize> WriteBlock for Ram<S> {
    open spec fn block_written(&self, after: Self, base_address: u16, block: Seq<u8>) -> bool {
        after@ == self@.write_block(base_address as int, block)
    }

    fn write_block(&mut self, base_address: u16, block: &[u8]) {
        let base = base_address as usize;
        let bank = self.actual_bank;
        proof { self.lemma_wf_view(); }
        // Bytes that land inside the window; the rest of the block is dropped.
        let count: usize = if base >= S {
            0
        } else if block.len() < S - base {
            block.len()
        } else {
            S - base
        };
        let mut i: usize = 0;
        while i < count
            invariant
                self.wf(),
                count <= block@.len(),
                base + count <= S || count == 0,
                base >= S ==> count == 0,
                base < S ==> base + count == (if base + block@.len() < S { base + block@.len() } else { S as int }),
                i <= count,
                self.banks == old(self).banks,
                self.actual_bank == bank,
                self.buffer@.len() == old(self).buffer@.len(),
                forall|k: int| 0 <= k < self.buffer@.len() && k != bank ==> #[trigger] self.buffer@[k] == old(self).buffer@[k],
                forall|j: int| 0 <= j < S ==> #[trigger] self.buffer@[bank as int]@[j] == (
                    if base <= j < base + i { block@[j - base] } else { old(self).buffer@[bank as int]@[j] }),
            decreases count - i,
        {
            self.buffer[bank].set(base + i, block[i]);
            i = i + 1;
        }
        proof {
            old(self).lemma_wf_view();
            let target = old(self)@.write_block(base_address as int, block@);
            assert(self@.banks[bank as int] =~= target.banks[bank as int]);
            assert(self@.banks =~= target.banks);
        }
    }
}

} // verus!
