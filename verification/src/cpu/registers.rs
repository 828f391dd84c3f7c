//! The 6502 register file: accumulator, the two index registers and the
//! program counter.

use vstd::prelude::*;

verus! {

/// The registers of the processor.
#[derive(Clone, Copy, Debug)]
#[allow(non_snake_case)]
pub struct Registers {
    pub A: u8,
    pub X: u8,
    pub Y: u8,
    pub PC: u16,
}

impl Registers {
    /// A register file with every register at zero.
    pub fn new() -> (r: Registers)
        ensures
            r.A == 0 && r.X == 0 && r.Y == 0 && r.PC == 0,
    {
        Registers { A: 0, X: 0, Y: 0, PC: 0 }
    }
}

impl Default for Registers {
    fn default() -> (r: Registers)
        ensures
            r.A == 0 && r.X == 0 && r.Y == 0 && r.PC == 0,
    {
        Registers { A: 0, X: 0, Y: 0, PC: 0 }
    }
}

} // verus!
