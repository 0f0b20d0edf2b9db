//! The object-attribute-memory transfer unit: a write to the trigger register
//! latches a source page, and the next scheduler tick copies that whole page
//! from work memory into sprite memory as one indivisible block.

use vstd::prelude::*;

use crate::types::Data;

verus! {

pub struct Dma {
    pub pending: bool,
    pub ram_addr: Data,
}

impl Dma {
    pub fn new() -> (r: Dma)
        ensures
            r == (Dma { pending: false, ram_addr: 0 }),
    {
        Dma { pending: false, ram_addr: 0 }
    }

    /// Whether a transfer was triggered and has not yet run.
    pub fn should_run(&self) -> (r: bool)
        ensures
            r == self.pending,
    {
        self.pending
    }

    /// The trigger-register write: latches the source page and marks the
    /// transfer pending.
    pub fn write(&mut self, data: Data)
        ensures
            (*final(self) == (Dma { pending: true, ram_addr: data })),
    {
        self.pending = true;
        self.ram_addr = data;
    }

    /// Copies the latched 256-byte page of work memory (mirrored through its
    /// 2KB) into sprite memory, atomically, and clears the pending mark.
    pub fn run(&mut self, work_ram: &Vec<Data>, sprite_ram: &mut Vec<Data>)
        requires
            work_ram@.len() == 0x800,
            old(sprite_ram)@.len() == 0x100,
        ensures
            (*final(self) == (Dma { pending: false, ..*old(self) })),
            final(sprite_ram)@.len() == 0x100,
            forall|i: int|
                0 <= i < 0x100 ==> final(sprite_ram)@[i] == work_ram@[(old(self).ram_addr * 0x100
                    + i) % 0x800],
    {
        let base: usize = (self.ram_addr as usize) * 0x100;
        let mut i: usize = 0;
        while i < 0x100
            invariant
                i <= 0x100,
                base == self.ram_addr * 0x100,
                work_ram@.len() == 0x800,
                sprite_ram@.len() == 0x100,
                *self == *old(self),
                forall|j: int|
                    0 <= j < i ==> sprite_ram@[j] == work_ram@[(self.ram_addr * 0x100 + j)
                        % 0x800],
            decreases 0x100 - i,
        {
            sprite_ram[i] = work_ram[(base + i) % 0x800];
            i = i + 1;
        }
        self.pending = false;
    }
}

} // verus!
