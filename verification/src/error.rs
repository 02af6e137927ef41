use vstd::prelude::*;

use crate::mos6502::AddressingMode;

verus! {

/// Failure of a bus access: the address was outside every mapped range, or
/// the range it fell in refuses the operation.
#[derive(Clone, Copy, Debug, PartialEq, Eq, Structural)]
pub enum BusError {
    /// A read was attempted at an address no device answers.
    InvalidRead(u16),
    /// A write was attempted at an address no device answers.
    InvalidWrite(u16),
    /// A write was attempted at an address that is mapped read-only.
    ReadOnlyAddress(u16),
}

/// Failure of one instruction step or interrupt entry.
#[derive(Clone, Copy, Debug, PartialEq, Eq, Structural)]
pub enum CpuError {
    /// A handler was dispatched with an addressing mode it cannot consume;
    /// this marks a dispatch-table mismatch, not a runtime condition.
    InvalidAddressingMode(AddressingMode),
    /// The fetched opcode has no assigned instruction.
    OpcodeNotImplemented,
    /// A bus access failed while the instruction executed.
    InvalidBusOperation(BusError),
}

impl BusError {
    /// The address the failing access named.
    pub fn address(&self) -> (a: u16)
        ensures
            match *self {
                BusError::InvalidRead(x) => a == x,
                BusError::InvalidWrite(x) => a == x,
                BusError::ReadOnlyAddress(x) => a == x,
            },
    {
        match *self {
            BusError::InvalidRead(x) => x,
            BusError::InvalidWrite(x) => x,
            BusError::ReadOnlyAddress(x) => x,
        }
    }
}

} // verus!
