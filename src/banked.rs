//! The mathematical model shared by every bank-switched storage region.

use vstd::prelude::*;

verus! {

/// Byte returned by a read that no storage backs.
pub const OPEN_BUS: u8 = 0xFF;

/// A fixed window over `banks.len()` equally sized banks, one of them active.
pub struct BankedModel {
    pub window: nat,
    pub banks: Seq<Seq<u8>>,
    pub active: nat,
}

impl BankedModel {
    /// At least one bank, the active one among them, each exactly one window long.
    pub open spec fn wf(self) -> bool {
        &&& self.banks.len() >= 1
        &&& self.active < self.banks.len()
        &&& forall|i: int| 0 <= i < self.banks.len() ==> (#[trigger] self.banks[i]).len() == self.window
    }

    /// `count` banks of one window each, every byte set to the open-bus value.
    pub open spec fn blank(window: nat, count: nat) -> Self {
        BankedModel {
            window,
            banks: Seq::new(count, |i: int| Seq::new(window, |j: int| OPEN_BUS)),
            active: 0,
        }
    }

    /// `count` consecutive slices of one window each, taken from the front of `content`.
    pub open spec fn split(window: nat, content: Seq<u8>, count: nat) -> Self {
        BankedModel {
            window,
            banks: Seq::new(
                count,
                |i: int| content.subrange(i * window, (i + 1) * window),
            ),
            active: 0,
        }
    }

    /// The byte at `address` of the active bank, or the open-bus value past the window.
    pub open spec fn read(self, address: int) -> u8 {
        if 0 <= address < self.window {
            self.banks[self.active as int][address]
        } else {
            OPEN_BUS
        }
    }

    /// Stores `data` at `address` of the active bank; nothing past the window.
    pub open spec fn write(self, address: int, data: u8) -> Self {
        if 0 <= address < self.window {
            BankedModel {
                banks: self.banks.update(
                    self.active as int,
                    self.banks[self.active as int].update(address, data),
                ),
                ..self
            }
        } else {
            self
        }
    }

    /// Makes `bank` the active bank when it exists; otherwise nothing changes.
    pub open spec fn select(self, bank: int) -> Self {
        if 0 <= bank < self.banks.len() {
            BankedModel { active: bank as nat, ..self }
        } else {
            self
        }
    }

    /// Copies `block` into the active bank from `base` on, dropping what falls past the window.
    pub open spec fn write_block(self, base: int, block: Seq<u8>) -> Self {
        let old_bank = self.banks[self.active as int];
        BankedModel {
            banks: self.banks.update(
                self.active as int,
                Seq::new(
                    self.window,
                    |j: int|
                        if base <= j < base + block.len() {
                            block[j - base]
                        } else {
                            old_bank[j]
                        },
                ),
            ),
            ..self
        }
    }
}

/// Selecting a bank one past the last leaves the region as it was; selecting
/// the last bank makes reads return that bank's bytes.
pub proof fn bank_select_boundary(m: BankedModel, address: int)
    requires
        m.wf(),
        0 <= address < m.window,
    ensures
        m.select(m.banks.len() as int) == m,
        m.select(m.banks.len() - 1).read(address) == m.banks.last()[address],
{
}

} // verus!
