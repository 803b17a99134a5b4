//! A cycle-counted interpreter for the MOS 6502.
//!
//! The processor lives in [`cpu`]; the memory it drives is any [`bus::Bus`].
//! Every executable function carries a contract that states its effect on the
//! registers and on memory, and the contracts are proved.

pub mod bus;
pub mod cpu;
