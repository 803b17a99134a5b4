//! The 16-bit address space as the processor sees it.

use vstd::prelude::*;

pub mod simple_bus;

verus! {

/// What one address holds.
pub type Byte = u8;

/// An address, or two bytes read as one number.
pub type Word = u16;

/// Number of addresses a 16-bit address bus can form.
pub const MEMORY_SIZE: usize = 0x10000;

/// Whether a memory access is a read or a write.
#[derive(Clone, Copy, Debug, PartialEq, Eq, Structural)]
pub enum Access {
    Read,
    Write,
}

/// One access to the bus: the byte `value` was read from, or written to,
/// address `addr`.
#[derive(Clone, Copy, Debug, PartialEq, Eq, Structural)]
pub struct Transfer {
    pub access: Access,
    pub addr: Word,
    pub value: Byte,
}

/// The read of `value` at `addr`.
pub open spec fn read_of(addr: u16, value: u8) -> Transfer {
    Transfer { access: Access::Read, addr, value }
}

/// The write of `value` at `addr`.
pub open spec fn write_of(addr: u16, value: u8) -> Transfer {
    Transfer { access: Access::Write, addr, value }
}

/// What the processor needs from the outside world: a byte at every address.
///
/// A bus has two models.  `mem` is the byte currently held at each of the
/// `MEMORY_SIZE` addresses: a read returns the byte at the address and leaves
/// memory as it was; a write replaces the byte at the address and no other.
/// `accesses` is the history of the bus: every read and every write, in the
/// order in which they were made.  A read that is marked `read_only` only
/// looks at memory and is not part of the history.
pub trait Bus {
    /// The byte at each address, indexed by address.
    spec fn mem(&self) -> Seq<u8>;

    /// The accesses made so far, oldest first.
    spec fn accesses(&self) -> Seq<Transfer>;

    /// Every bus spans the whole address space.
    proof fn spans_address_space(&self)
        ensures
            self.mem().len() == MEMORY_SIZE,
    ;

    /// The byte at `addr`.  `read_only` marks a read made for inspection only,
    /// such as one by the disassembler.
    fn read(&mut self, addr: Word, read_only: bool) -> (value: Byte)
        ensures
            value == old(self).mem()[addr as int],
            final(self).mem() == old(self).mem(),
            final(self).accesses() == (if read_only {
                old(self).accesses()
            } else {
                old(self).accesses().push(read_of(addr, value))
            }),
    ;

    /// Stores `value` at `addr`.
    fn write(&mut self, addr: Word, value: Byte)
        ensures
            final(self).mem() == old(self).mem().update(addr as int, value),
            final(self).accesses() == old(self).accesses().push(write_of(addr, value)),
    ;
}

} // verus!
