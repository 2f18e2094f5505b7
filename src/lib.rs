//! The instruction core of a MOS 6502: opcode decoding, addressing-mode
//! resolution, execution of the implemented instruction groups, and cycle
//! accounting over a flat 64K memory bus.
use vstd::prelude::*;

pub mod cpu;
pub mod instruction;
pub mod model;
pub mod status;

verus! {

} // verus!
