//! The emulator's error values: a load that falls outside memory, an
//! undefined opcode byte, and stack overflow or underflow during a step.

use vstd::prelude::*;
use vstd::string::StringExecFns;
use crate::text::push_hex2;
use crate::text::push_hex4;
use crate::text::spec_hex2;
use crate::text::spec_hex4;

verus! {

/// What went wrong.
#[derive(Clone, Copy, Debug, PartialEq, Eq, Structural)]
pub enum CpuErrorKind {
    SegFault,
    InvalidOpCode,
    StackOverflow,
    StackUnderflow,
}

/// An emulator failure, carrying the address it arose at.
#[derive(Debug, PartialEq)]
pub struct CpuError {
    pub message: String,
    pub addr: u16,
    pub kind: CpuErrorKind,
}

impl View for CpuError {
    type V = (Seq<char>, u16, CpuErrorKind);

    open spec fn view(&self) -> (Seq<char>, u16, CpuErrorKind) {
        (self.message@, self.addr, self.kind)
    }
}

/// The message of `CpuError::code_segment_out_of_range`.
pub open spec fn spec_msg_code_segment_out_of_range() -> Seq<char> {
    "CODE segment out of bounds"@
}

/// The message of `CpuError::unknown_opcode`.
pub open spec fn spec_msg_unknown_opcode(addr: u16, opcode: u8) -> Seq<char> {
    "Unknown opcode "@ + spec_hex2(opcode) + " at "@ + spec_hex4(addr)
}

/// The message of `CpuError::stack_overflow`.
pub open spec fn spec_msg_stack_overflow() -> Seq<char> {
    "Stack overflow occurred"@
}

/// The message of `CpuError::stack_underflow`.
pub open spec fn spec_msg_stack_underflow() -> Seq<char> {
    "Stack underflow; unable to pop from empty stack"@
}

impl CpuError {
    /// A load whose bytes would run past the end of memory.
    pub fn code_segment_out_of_range(addr: u16) -> (r: CpuError)
        ensures
            r@ == (spec_msg_code_segment_out_of_range(), addr, CpuErrorKind::SegFault),
    {
        CpuError {
            message: String::from_str("CODE segment out of bounds"),
            addr,
            kind: CpuErrorKind::SegFault,
        }
    }

    /// A fetched byte that the opcode table does not define.
    pub fn unknown_opcode(addr: u16, opcode: u8) -> (r: CpuError)
        ensures
            r@ == (spec_msg_unknown_opcode(addr, opcode), addr, CpuErrorKind::InvalidOpCode),
    {
        let mut message = String::from_str("Unknown opcode ");
        push_hex2(&mut message, opcode);
        message.append(" at ");
        push_hex4(&mut message, addr);
        CpuError { message, addr, kind: CpuErrorKind::InvalidOpCode }
    }

    /// A push onto a full stack page.
    pub fn stack_overflow(addr: u16) -> (r: CpuError)
        ensures
            r@ == (spec_msg_stack_overflow(), addr, CpuErrorKind::StackOverflow),
    {
        CpuError {
            message: String::from_str("Stack overflow occurred"),
            addr,
            kind: CpuErrorKind::StackOverflow,
        }
    }

    /// A pop from an empty stack page.
    pub fn stack_underflow(addr: u16) -> (r: CpuError)
        ensures
            r@ == (spec_msg_stack_underflow(), addr, CpuErrorKind::StackUnderflow),
    {
        CpuError {
            message: String::from_str("Stack underflow; unable to pop from empty stack"),
            addr,
            kind: CpuErrorKind::StackUnderflow,
        }
    }
}

} // verus!
