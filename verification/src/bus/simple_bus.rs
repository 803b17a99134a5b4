//! A bus with nothing on it but 64 KiB of RAM.

use vstd::prelude::*;
use crate::bus::{read_of, write_of, Bus, Byte, Transfer, Word};

verus! {

pub use crate::bus::MEMORY_SIZE;

/// Memory at every address, and nothing else.
pub struct SimpleBus {
    /// One byte for each address.
    pub ram: [Byte; 0x10000],
    /// The accesses made through [`Bus::read`] and [`Bus::write`].
    pub history: Ghost<Seq<Transfer>>,
}

/// A shorter name for the same memory.
pub type Mem = SimpleBus;

impl SimpleBus {
    /// A bus whose memory is all zero and that nobody has accessed.
    pub fn new() -> (bus: SimpleBus)
        ensures
            bus.mem() == Seq::new(MEMORY_SIZE as nat, |a: int| 0u8),
            bus.accesses() == Seq::<Transfer>::empty(),
    {
        SimpleBus { ram: [0; 0x10000], history: Ghost(Seq::empty()) }
    }
}

impl Default for SimpleBus {
    fn default() -> (bus: SimpleBus)
        ensures
            bus.mem() == Seq::new(MEMORY_SIZE as nat, |a: int| 0u8),
            bus.accesses() == Seq::<Transfer>::empty(),
    {
        SimpleBus::new()
    }
}

impl Bus for SimpleBus {
    open spec fn mem(&self) -> Seq<u8> {
        self.ram@
    }

    open spec fn accesses(&self) -> Seq<Transfer> {
        self.history@
    }

    proof fn spans_address_space(&self) {
    }

    fn read(&mut self, addr: Word, read_only: bool) -> (value: Byte) {
        let value = self.ram[addr as usize];
        proof {
            if !read_only {
                self.history@ = self.history@.push(read_of(addr, value));
            }
        }
        value
    }

    fn write(&mut self, addr: Word, value: Byte) {
        self.ram[addr as usize] = value;
        proof {
            self.history@ = self.history@.push(write_of(addr, value));
        }
    }
}

} // verus!
