//! RAM: a flat array of bytes.
use vstd::prelude::*;
use crate::cpu::Address;
use crate::interrupt::InterruptController;
use super::device::Device;

verus! {

/// 4 MiB.
pub const MEMORY_SIZE: usize = 0x40_0000;

/// Byte-addressed RAM of `MEMORY_SIZE` bytes.
pub struct Memory {
    data: Vec<u8>,
}

impl View for Memory {
    type V = Seq<u8>;

    /// The `MEMORY_SIZE` bytes of the RAM.
    closed spec fn view(&self) -> Seq<u8> {
        Seq::new(MEMORY_SIZE as nat, |i: int| self.data@[i])
    }
}

impl Memory {
    /// The RAM always holds exactly `MEMORY_SIZE` bytes.
    #[verifier::type_invariant]
    closed spec fn inv(self) -> bool {
        self.data@.len() == MEMORY_SIZE
    }

    /// Every RAM holds `MEMORY_SIZE` bytes.
    pub proof fn lemma_size(&self)
        ensures
            self@.len() == MEMORY_SIZE,
    {
    }

    /// `MEMORY_SIZE` bytes, all zero.
    pub fn new() -> (r: Self)
        ensures
            r@ == Seq::new(MEMORY_SIZE as nat, |i: int| 0u8),
    {
        let data: Vec<u8> = vec![0; MEMORY_SIZE];
        assert(data@ =~= Seq::new(MEMORY_SIZE as nat, |i: int| 0u8));
        let r = Self { data };
        assert(r@ =~= Seq::new(MEMORY_SIZE as nat, |i: int| 0u8));
        r
    }

    /// Stores `value` at byte `index`.
    fn store(&mut self, index: usize, value: u8)
        requires
            index < MEMORY_SIZE,
        ensures
            final(self)@ == old(self)@.update(index as int, value),
        no_unwind
    {
        proof {
            use_type_invariant(&*self);
        }
        self.data[index] = value;
        assert(self@ =~= old(self)@.update(index as int, value));
    }

    /// The number of bytes.
    pub fn len(&self) -> (r: usize)
        ensures
            r == self@.len(),
            r == MEMORY_SIZE,
    {
        proof {
            use_type_invariant(self);
        }
        self.data.len()
    }
}

impl Device for Memory {
    open spec fn accepts(&self, offset: u32) -> bool {
        (offset as int) < self@.len()
    }

    /// The byte stored at `addr`.
    fn read8(&mut self, addr: Address) -> (r: u8)
        ensures
            r == old(self)@[addr.0 as int],
            final(self)@ == old(self)@,
    {
        proof {
            use_type_invariant(&*self);
        }
        self.data[addr.0 as usize]
    }

    /// Stores `data` at `addr`.
    fn write8(&mut self, addr: Address, data: u8)
        ensures
            final(self)@ == old(self)@.update(addr.0 as int, data),
    {
        self.store(addr.0 as usize, data);
    }

    /// RAM has no time-driven behaviour.
    fn tick(&mut self, int_controller: &mut InterruptController)
        ensures
            final(self)@ == old(self)@,
            final(int_controller)@ == old(int_controller)@,
    {
    }
}

} // verus!
