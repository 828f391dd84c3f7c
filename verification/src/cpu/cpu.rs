//! The 6502 processor: operand decoding for every addressing mode and
//! the per-instruction dispatch, with BCD-aware arithmetic and vectored
//! interrupts.

use vstd::prelude::*;
use crate::opcodes::AddressingMode;
use crate::opcodes::Mnemonic;
use crate::opcodes::OpCode;
use crate::opcodes::spec_from_raw_byte;
use crate::cpu::cpu_error::CpuError;
use crate::cpu::cpu_error::CpuErrorKind;
use crate::cpu::cpu_error::spec_msg_code_segment_out_of_range;
use crate::cpu::cpu_error::spec_msg_stack_overflow;
use crate::cpu::cpu_error::spec_msg_stack_underflow;
use crate::cpu::cpu_error::spec_msg_unknown_opcode;
use crate::cpu::flags::StatusFlags;
use crate::cpu::flags::spec_flags_from_u8;
use crate::cpu::flags::spec_flags_to_u8;
use crate::cpu::memory_bus::MemoryBus;
use crate::cpu::memory_bus::spec_read_u16;
use crate::cpu::registers::Registers;
use crate::cpu::stack::Stack;

verus! {

/// A decoded operand: a literal byte, a memory address, or nothing.
#[derive(Clone, Copy, Debug, PartialEq, Eq, Structural)]
pub enum Operand {
    Immediate(u8),
    Memory(u16),
    Implied,
}

/// The mathematical state of the processor: memory, registers, the
/// stack pointer, the flags, and the loaded code ranges.
pub struct CpuView {
    pub mem: Seq<u8>,
    pub a: u8,
    pub x: u8,
    pub y: u8,
    pub pc: u16,
    pub sp: int,
    pub flags: StatusFlags,
    pub segments: Seq<(u16, u32)>,
}

/// A step failure at the spec level, carrying the address of the
/// instruction it arose at.
pub enum StepFault {
    UnknownOpcode(u16, u8),
    StackOverflow(u16),
    StackUnderflow(u16),
}

/// The error record a step fault surfaces as.
pub open spec fn spec_fault_view(f: StepFault) -> (Seq<char>, u16, CpuErrorKind) {
    match f {
        StepFault::UnknownOpcode(addr, b) => (
            spec_msg_unknown_opcode(addr, b),
            addr,
            CpuErrorKind::InvalidOpCode,
        ),
        StepFault::StackOverflow(addr) => (
            spec_msg_stack_overflow(),
            addr,
            CpuErrorKind::StackOverflow,
        ),
        StepFault::StackUnderflow(addr) => (
            spec_msg_stack_underflow(),
            addr,
            CpuErrorKind::StackUnderflow,
        ),
    }
}

/// A 16-bit value with wraparound.
pub open spec fn spec_w16(x: int) -> u16 {
    (x % 0x10000) as u16
}

/// The low byte of an integer, in two's complement for negatives.
pub open spec fn spec_low(x: int) -> u8 {
    (((x % 256) + 256) % 256) as u8
}

/// The operand an opcode denotes, decoded before the program counter
/// advances. Zero-page indexing wraps within page zero; absolute
/// indexing and indirection wrap within the 16-bit address space.
pub open spec fn spec_operand(s: CpuView, op: OpCode) -> Operand {
    let op_start = spec_w16(s.pc + 1);
    match op.mode {
        AddressingMode::Implied => Operand::Implied,
        AddressingMode::Accumulator => Operand::Implied,
        AddressingMode::Immediate => Operand::Immediate(s.mem[op_start as int]),
        AddressingMode::Relative => Operand::Immediate(s.mem[op_start as int]),
        AddressingMode::ZeroPage => Operand::Memory(s.mem[op_start as int] as u16),
        AddressingMode::ZeroPageX => Operand::Memory(
            ((s.x + s.mem[op_start as int]) % 0x100) as u16,
        ),
        AddressingMode::ZeroPageY => Operand::Memory(
            ((s.y + s.mem[op_start as int]) % 0x100) as u16,
        ),
        AddressingMode::Absolute => Operand::Memory(spec_read_u16(s.mem, op_start)),
        AddressingMode::AbsoluteX => Operand::Memory(
            spec_w16(s.x + spec_read_u16(s.mem, op_start)),
        ),
        AddressingMode::AbsoluteY => Operand::Memory(
            spec_w16(s.y + spec_read_u16(s.mem, op_start)),
        ),
        AddressingMode::Indirect => Operand::Memory(
            spec_read_u16(s.mem, spec_read_u16(s.mem, op_start)),
        ),
        AddressingMode::IndirectX => Operand::Memory(
            spec_read_u16(s.mem, ((s.x + s.mem[op_start as int]) % 0x100) as u16),
        ),
        AddressingMode::IndirectY => Operand::Memory(
            spec_w16(s.y + spec_read_u16(s.mem, s.mem[op_start as int] as u16)),
        ),
    }
}

/// The byte an operand stands for: a literal as itself, an address as
/// the byte stored there, nothing as zero.
pub open spec fn spec_operand_value(s: CpuView, t: Operand) -> u8 {
    match t {
        Operand::Immediate(b) => b,
        Operand::Memory(addr) => s.mem[addr as int],
        Operand::Implied => 0,
    }
}

/// The address an operand stands for: a literal widens, nothing is zero.
pub open spec fn spec_operand_addr(t: Operand) -> u16 {
    match t {
        Operand::Immediate(b) => b as u16,
        Operand::Memory(addr) => addr,
        Operand::Implied => 0,
    }
}

/// A state with the zero and sign flags set from a result byte.
pub open spec fn spec_with_nz(s: CpuView, v: u8) -> CpuView {
    CpuView {
        flags: StatusFlags { zero: v == 0, sign: v >= 0x80, ..s.flags },
        ..s
    }
}

/// ADC: add the operand and the carry into the accumulator. In decimal
/// mode the nibbles are corrected to stay binary-coded decimal. The
/// overflow flag is set exactly when the inputs share a sign and the
/// result's sign differs from it.
pub open spec fn spec_adc(s: CpuView, m: u8) -> CpuView {
    let carry: int = if s.flags.carry { 1 } else { 0 };
    let binary = s.a + m + carry;
    let nibble_fix = s.flags.decimal && (s.a % 16) + (m % 16) + carry > 9;
    let r1 = if nibble_fix { binary + 6 } else { binary };
    let r2 = if s.flags.decimal && r1 > 0x99 { r1 + 0x60 } else { r1 };
    let sign = spec_low(r2) >= 0x80;
    CpuView {
        a: spec_low(r2),
        flags: StatusFlags {
            carry: r2 % 512 >= 256,
            zero: spec_low(r2) == 0,
            sign: sign,
            overflow: ((s.a >= 0x80) == (m >= 0x80)) && (sign != (s.a >= 0x80)),
            ..s.flags
        },
        ..s
    }
}

/// SBC: subtract the operand and the borrow (the inverted carry) from
/// the accumulator, with decimal-mode corrections mirrored from ADC.
/// The zero and sign flags come from the uncorrected difference, the
/// carry and the accumulator from the corrected one; overflow is set
/// exactly as in ADC, from the uncorrected difference's sign.
pub open spec fn spec_sbc(s: CpuView, m: u8) -> CpuView {
    let borrow: int = if s.flags.carry { 0 } else { 1 };
    let raw = s.a - m - borrow;
    let sign = spec_low(raw) >= 0x80;
    let nibble_fix = s.flags.decimal && (s.a % 16) - borrow < (m % 16);
    let r1 = if nibble_fix { raw - 6 } else { raw };
    let r2 = if s.flags.decimal && !(0 <= r1 <= 0x99) { r1 - 0x60 } else { r1 };
    CpuView {
        a: spec_low(r2),
        flags: StatusFlags {
            carry: 0 <= r2 < 0x100,
            zero: spec_low(raw) == 0,
            sign: sign,
            overflow: ((s.a >= 0x80) == (m >= 0x80)) && (sign != (s.a >= 0x80)),
            ..s.flags
        },
        ..s
    }
}

/// A shift or rotate result written back: to the accumulator for an
/// implied operand, to memory otherwise, with carry from the ejected
/// bit and zero and sign from the result.
pub open spec fn spec_shift_result(s: CpuView, t: Operand, v2: u8, carry_out: bool) -> CpuView {
    let flags = StatusFlags { carry: carry_out, zero: v2 == 0, sign: v2 >= 0x80, ..s.flags };
    match t {
        Operand::Implied => CpuView { a: v2, flags, ..s },
        _ => CpuView {
            mem: s.mem.update(spec_operand_addr(t) as int, v2),
            flags,
            ..s
        },
    }
}

/// The byte a shift or rotate works on: the accumulator for an implied
/// operand, the operand's byte otherwise.
pub open spec fn spec_shift_source(s: CpuView, t: Operand) -> u8 {
    match t {
        Operand::Implied => s.a,
        _ => spec_operand_value(s, t),
    }
}

/// A taken branch: the signed 8-bit offset moves the program counter,
/// which wraps at the ends of the address space.
pub open spec fn spec_branch(s: CpuView, taken: bool, offset: u8) -> CpuView {
    if taken {
        let delta: int = if offset >= 0x80 {
            offset - 0x100
        } else {
            offset as int
        };
        CpuView { pc: spec_w16(s.pc + delta), ..s }
    } else {
        s
    }
}

/// CMP/CPX/CPY: the register minus the operand sets carry when no
/// borrow was needed, zero on equality, and sign from the difference's
/// top bit.
pub open spec fn spec_compare(s: CpuView, reg: u8, m: u8) -> CpuView {
    let d = reg - m;
    CpuView {
        flags: StatusFlags {
            carry: d >= 0,
            zero: spec_low(d) == 0,
            sign: spec_low(d) >= 0x80,
            ..s.flags
        },
        ..s
    }
}

/// One byte pushed onto the stack page; the capacity check has already
/// been made.
pub open spec fn spec_push8(s: CpuView, v: u8) -> CpuView {
    CpuView {
        mem: s.mem.update(0x100 + s.sp - 1, v),
        sp: s.sp - 1,
        ..s
    }
}

/// A 16-bit value pushed onto the stack page little-endian; the
/// capacity check has already been made.
pub open spec fn spec_push16(s: CpuView, v: u16) -> CpuView {
    CpuView {
        mem: s.mem.update(0x100 + s.sp - 2, (v % 256) as u8).update(
            0x100 + s.sp - 1,
            (v / 256) as u8,
        ),
        sp: s.sp - 2,
        ..s
    }
}

/// The byte at the top of the stack page.
pub open spec fn spec_top8(s: CpuView) -> u8 {
    s.mem[0x100 + s.sp]
}

/// The 16-bit value at the top of the stack page, little-endian.
pub open spec fn spec_top16(s: CpuView) -> u16 {
    (s.mem[0x100 + s.sp] + s.mem[0x100 + s.sp + 1] * 0x100) as u16
}

/// What one instruction does to the machine, after the program counter
/// has advanced past it. `pc0` is the instruction's own address, used
/// only in fault values. A stack operation without room faults and
/// leaves the state to the caller.
pub open spec fn spec_exec(s: CpuView, mn: Mnemonic, t: Operand, pc0: u16) -> Result<
    CpuView,
    StepFault,
> {
    match mn {
        Mnemonic::ADC => Ok(spec_adc(s, spec_operand_value(s, t))),
        Mnemonic::AND => {
            let v = (s.a & spec_operand_value(s, t)) as u8;
            Ok(CpuView { a: v, ..spec_with_nz(s, v) })
        },
        Mnemonic::ASL => {
            let v = spec_shift_source(s, t);
            Ok(spec_shift_result(s, t, spec_low(v * 2), v >= 0x80))
        },
        Mnemonic::BCC => Ok(spec_branch(s, !s.flags.carry, spec_operand_value(s, t))),
        Mnemonic::BCS => Ok(spec_branch(s, s.flags.carry, spec_operand_value(s, t))),
        Mnemonic::BEQ => Ok(spec_branch(s, s.flags.zero, spec_operand_value(s, t))),
        Mnemonic::BIT => {
            let v = spec_operand_value(s, t);
            Ok(
                CpuView {
                    flags: StatusFlags {
                        zero: (s.a & v) == 0,
                        overflow: v & 0x40 == 0x40,
                        sign: v >= 0x80,
                        ..s.flags
                    },
                    ..s
                },
            )
        },
        Mnemonic::BMI => Ok(spec_branch(s, s.flags.sign, spec_operand_value(s, t))),
        Mnemonic::BNE => Ok(spec_branch(s, !s.flags.zero, spec_operand_value(s, t))),
        Mnemonic::BPL => Ok(spec_branch(s, !s.flags.sign, spec_operand_value(s, t))),
        Mnemonic::BRK => {
            // Push the advanced program counter and the flags with the
            // break bit set, disable interrupts, and jump through the
            // IRQ/BRK vector.
            if s.sp < 3 {
                Err(StepFault::StackOverflow(pc0))
            } else {
                let s2 = spec_push8(spec_push16(s, s.pc), (spec_flags_to_u8(s.flags) | 0x10) as u8);
                Ok(
                    CpuView {
                        pc: spec_read_u16(s2.mem, 0xFFFE),
                        flags: StatusFlags { interrupt_disabled: true, ..s.flags },
                        ..s2
                    },
                )
            }
        },
        Mnemonic::BVC => Ok(spec_branch(s, !s.flags.overflow, spec_operand_value(s, t))),
        Mnemonic::BVS => Ok(spec_branch(s, s.flags.overflow, spec_operand_value(s, t))),
        Mnemonic::CLC => Ok(CpuView { flags: StatusFlags { carry: false, ..s.flags }, ..s }),
        Mnemonic::CLD => Ok(CpuView { flags: StatusFlags { decimal: false, ..s.flags }, ..s }),
        Mnemonic::CLI => Ok(
            CpuView { flags: StatusFlags { interrupt_disabled: false, ..s.flags }, ..s },
        ),
        Mnemonic::CLV => Ok(CpuView { flags: StatusFlags { overflow: false, ..s.flags }, ..s }),
        Mnemonic::CMP => Ok(spec_compare(s, s.a, spec_operand_value(s, t))),
        Mnemonic::CPX => Ok(spec_compare(s, s.x, spec_operand_value(s, t))),
        Mnemonic::CPY => Ok(spec_compare(s, s.y, spec_operand_value(s, t))),
        Mnemonic::DEC => {
            let v = spec_low(spec_operand_value(s, t) - 1);
            Ok(
                CpuView {
                    mem: s.mem.update(spec_operand_addr(t) as int, v),
                    ..spec_with_nz(s, v)
                },
            )
        },
        Mnemonic::DEX => {
            let v = spec_low(s.x - 1);
            Ok(CpuView { x: v, ..spec_with_nz(s, v) })
        },
        Mnemonic::DEY => {
            let v = spec_low(s.y - 1);
            Ok(CpuView { y: v, ..spec_with_nz(s, v) })
        },
        Mnemonic::EOR => {
            let v = (s.a ^ spec_operand_value(s, t)) as u8;
            Ok(CpuView { a: v, ..spec_with_nz(s, v) })
        },
        Mnemonic::INC => {
            let v = spec_low(spec_operand_value(s, t) + 1);
            Ok(
                CpuView {
                    mem: s.mem.update(spec_operand_addr(t) as int, v),
                    ..spec_with_nz(s, v)
                },
            )
        },
        Mnemonic::INX => {
            let v = spec_low(s.x + 1);
            Ok(CpuView { x: v, ..spec_with_nz(s, v) })
        },
        Mnemonic::INY => {
            let v = spec_low(s.y + 1);
            Ok(CpuView { y: v, ..spec_with_nz(s, v) })
        },
        Mnemonic::JMP => Ok(CpuView { pc: spec_operand_addr(t), ..s }),
        Mnemonic::JSR => {
            // The pushed return address is the already-advanced program
            // counter; RTS pops it straight back.
            if s.sp < 2 {
                Err(StepFault::StackOverflow(pc0))
            } else {
                Ok(CpuView { pc: spec_operand_addr(t), ..spec_push16(s, s.pc) })
            }
        },
        Mnemonic::LDA => {
            let v = spec_operand_value(s, t);
            Ok(CpuView { a: v, ..spec_with_nz(s, v) })
        },
        Mnemonic::LDX => {
            let v = spec_operand_value(s, t);
            Ok(CpuView { x: v, ..spec_with_nz(s, v) })
        },
        Mnemonic::LDY => {
            let v = spec_operand_value(s, t);
            Ok(CpuView { y: v, ..spec_with_nz(s, v) })
        },
        Mnemonic::LSR => {
            let v = spec_shift_source(s, t);
            Ok(spec_shift_result(s, t, v / 2, v % 2 == 1))
        },
        Mnemonic::NOP => Ok(s),
        Mnemonic::ORA => {
            let v = (s.a | spec_operand_value(s, t)) as u8;
            Ok(CpuView { a: v, ..spec_with_nz(s, v) })
        },
        Mnemonic::PHA => if s.sp < 1 {
            Err(StepFault::StackOverflow(pc0))
        } else {
            Ok(spec_push8(s, s.a))
        },
        Mnemonic::PHP => if s.sp < 1 {
            Err(StepFault::StackOverflow(pc0))
        } else {
            Ok(spec_push8(s, spec_flags_to_u8(s.flags)))
        },
        Mnemonic::PLA => if s.sp >= 0xFF {
            Err(StepFault::StackUnderflow(pc0))
        } else {
            Ok(CpuView { a: spec_top8(s), sp: s.sp + 1, ..s })
        },
        Mnemonic::PLP => if s.sp >= 0xFF {
            Err(StepFault::StackUnderflow(pc0))
        } else {
            Ok(CpuView { flags: spec_flags_from_u8(spec_top8(s)), sp: s.sp + 1, ..s })
        },
        Mnemonic::ROL => {
            let v = spec_shift_source(s, t);
            let v2 = ((v * 2) % 256 + if s.flags.carry { 1int } else { 0 }) as u8;
            Ok(spec_shift_result(s, t, v2, v >= 0x80))
        },
        Mnemonic::ROR => {
            let v = spec_shift_source(s, t);
            let v2 = (v / 2 + if s.flags.carry { 0x80int } else { 0 }) as u8;
            Ok(spec_shift_result(s, t, v2, v % 2 == 1))
        },
        Mnemonic::RTI => {
            // Pop the flags (break bit cleared, unused bit set), then
            // the 16-bit return address.
            if !(s.sp < 0xFF && s.sp + 1 < 0xFE) {
                Err(StepFault::StackUnderflow(pc0))
            } else {
                let popped = spec_flags_from_u8(spec_top8(s));
                let s2 = CpuView { sp: s.sp + 1, ..s };
                Ok(
                    CpuView {
                        pc: spec_top16(s2),
                        sp: s2.sp + 2,
                        flags: StatusFlags { breakpoint: false, unused: true, ..popped },
                        ..s
                    },
                )
            }
        },
        Mnemonic::RTS => if s.sp >= 0xFE {
            Err(StepFault::StackUnderflow(pc0))
        } else {
            Ok(CpuView { pc: spec_top16(s), sp: s.sp + 2, ..s })
        },
        Mnemonic::SBC => Ok(spec_sbc(s, spec_operand_value(s, t))),
        Mnemonic::SEC => Ok(CpuView { flags: StatusFlags { carry: true, ..s.flags }, ..s }),
        Mnemonic::SED => Ok(CpuView { flags: StatusFlags { decimal: true, ..s.flags }, ..s }),
        Mnemonic::SEI => Ok(
            CpuView { flags: StatusFlags { interrupt_disabled: true, ..s.flags }, ..s },
        ),
        Mnemonic::STA => Ok(CpuView { mem: s.mem.update(spec_operand_addr(t) as int, s.a), ..s }),
        Mnemonic::STX => Ok(CpuView { mem: s.mem.update(spec_operand_addr(t) as int, s.x), ..s }),
        Mnemonic::STY => Ok(CpuView { mem: s.mem.update(spec_operand_addr(t) as int, s.y), ..s }),
        Mnemonic::TAX => Ok(CpuView { x: s.a, ..spec_with_nz(s, s.a) }),
        Mnemonic::TAY => Ok(CpuView { y: s.a, ..spec_with_nz(s, s.a) }),
        Mnemonic::TSX => {
            let v = spec_low(s.sp);
            Ok(CpuView { x: v, ..spec_with_nz(s, v) })
        },
        Mnemonic::TXA => Ok(CpuView { a: s.x, ..spec_with_nz(s, s.x) }),
        Mnemonic::TXS => Ok(CpuView { sp: s.x as int, ..s }),
        Mnemonic::TYA => Ok(CpuView { a: s.y, ..spec_with_nz(s, s.y) }),
    }
}

/// One instruction step: fetch the byte at the program counter, decode
/// its operand, advance the program counter by the instruction's
/// length, and execute it. Yields the new state and the instruction's
/// base cycle count. A byte outside the opcode table, or a stack fault,
/// leaves the state unchanged.
pub open spec fn spec_step(s: CpuView) -> Result<(CpuView, u8), StepFault> {
    let byte = s.mem[s.pc as int];
    match spec_from_raw_byte(byte) {
        None => Err(StepFault::UnknownOpcode(s.pc, byte)),
        Some(op) => {
            let t = spec_operand(s, op);
            let s2 = CpuView { pc: spec_w16(s.pc + op.length), ..s };
            match spec_exec(s2, op.mnemonic, t, s.pc) {
                Ok(s3) => Ok((s3, op.time)),
                Err(f) => Err(f),
            }
        },
    }
}

/// The program counter has run out of every loaded code range.
pub open spec fn spec_finished(s: CpuView) -> bool {
    forall|i: int|
        0 <= i < s.segments.len() ==> !((#[trigger] s.segments[i]).0 <= s.pc
            < s.segments[i].0 + s.segments[i].1)
}

/// Up to `n` instruction steps, stopping early when the program counter
/// leaves the loaded code; the cycle counts add up. A fault carries the
/// state as it stood before the failing step.
pub open spec fn spec_step_n(s: CpuView, n: int) -> Result<(CpuView, int), (CpuView, StepFault)>
    decreases n,
{
    if n <= 0 || spec_finished(s) {
        Ok((s, 0))
    } else {
        match spec_step(s) {
            Err(f) => Err((s, f)),
            Ok((s2, t)) => match spec_step_n(s2, n - 1) {
                Err(e) => Err(e),
                Ok((s3, sum)) => Ok((s3, t + sum)),
            },
        }
    }
}

/// The machine state is well formed: memory covers the full address
/// space, the stack pointer lies within its page, and every loaded
/// range fits in memory.
pub open spec fn spec_wf(s: CpuView) -> bool {
    &&& s.mem.len() == 0x10000
    &&& 0 <= s.sp <= 0xFF
    &&& forall|i: int|
        0 <= i < s.segments.len() ==> (#[trigger] s.segments[i]).0 + s.segments[i].1 <= 0x10000
}

/// Memory after a code image is copied in at `addr`.
pub open spec fn spec_load_mem(mem: Seq<u8>, addr: u16, code: Seq<u8>) -> Seq<u8> {
    Seq::new(mem.len(), |i: int|
        if addr <= i < addr + code.len() {
            code[i - addr]
        } else {
            mem[i]
        })
}


/// The default load address when none is supplied: a 16 KiB ROM image
/// leaves 32 KiB of main memory below it.
pub const DEFAULT_CODE_SEGMENT_START_ADDRESS: u16 = 0xC000;

/// A 6502 microprocessor: a 64 KiB memory bus, the register file, the
/// status flags, the stack pointer, and bookkeeping of the loaded code
/// ranges.
pub struct Cpu {
    pub memory: MemoryBus,
    pub registers: Registers,
    pub flags: StatusFlags,
    pub stack: Stack,
    /// The code ranges loaded so far, as (start, length) pairs in load
    /// order. Stepping stops when the program counter leaves all of
    /// them; a reset returns to the start of the first.
    pub segments: Vec<(u16, u32)>,
}

pub type CpuLoadResult = Result<(), CpuError>;

pub type CpuStepResult = Result<u8, CpuError>;

pub type CpuMultiStepResult = Result<u64, CpuError>;

impl View for Cpu {
    type V = CpuView;

    open spec fn view(&self) -> CpuView {
        CpuView {
            mem: self.memory@,
            a: self.registers.A,
            x: self.registers.X,
            y: self.registers.Y,
            pc: self.registers.PC,
            sp: self.stack.pointer as int,
            flags: self.flags,
            segments: self.segments@,
        }
    }
}

impl Cpu {
    /// The machine is well formed; see `spec_wf`.
    pub open spec fn wf(&self) -> bool {
        spec_wf(self@)
    }

    /// A powered-on processor: zeroed memory and registers, default
    /// flags, an empty stack, and nothing loaded.
    pub fn new() -> (r: Cpu)
        ensures
            r.wf(),
            r@.a == 0 && r@.x == 0 && r@.y == 0 && r@.pc == 0,
            r@.sp == 0xFF,
            r@.flags == crate::cpu::flags::spec_flags_default(),
            r@.segments.len() == 0,
            forall|i: int| 0 <= i < 0x10000 ==> r@.mem[i] == 0u8,
    {
        Cpu {
            memory: MemoryBus::new(),
            registers: Registers::new(),
            flags: StatusFlags::default(),
            stack: Stack::new(),
            segments: Vec::new(),
        }
    }

    /// Copies code into memory at `addr` (0xC000 when `None`) and
    /// records the range; the program counter is left alone until
    /// `reset` points it at the code. Fails, changing nothing, when the
    /// bytes would run past the top of memory.
    pub fn load(&mut self, code: &Vec<u8>, addr: Option<u16>) -> (r: CpuLoadResult)
        requires
            old(self).wf(),
        ensures
            final(self).wf(),
            ({
                let base = match addr {
                    Some(a) => a,
                    None => DEFAULT_CODE_SEGMENT_START_ADDRESS,
                };
                if base + code@.len() > 0x10000 {
                    r matches Err(e) && e@ == (
                        spec_msg_code_segment_out_of_range(),
                        base,
                        CpuErrorKind::SegFault,
                    ) && final(self)@ == old(self)@
                } else {
                    r is Ok && final(self)@ == CpuView {
                        mem: spec_load_mem(old(self)@.mem, base, code@),
                        segments: old(self)@.segments.push((base, code@.len() as u32)),
                        ..old(self)@
                    }
                }
            }),
    {
        let base = match addr {
            Some(a) => a,
            None => DEFAULT_CODE_SEGMENT_START_ADDRESS,
        };
        if code.len() > 0x10000 - base as usize {
            return Err(CpuError::code_segment_out_of_range(base));
        }
        let ghost mem0 = self.memory@;
        let mut i: usize = 0;
        while i < code.len()
            invariant
                0 <= i <= code@.len(),
                base + code@.len() <= 0x10000,
                self.memory.wf(),
                mem0.len() == 0x10000,
                self.registers == old(self).registers,
                self.stack == old(self).stack,
                self.segments == old(self).segments,
                self.flags == old(self).flags,
                forall|k: int|
                    0 <= k < 0x10000 ==> self.memory@[k] == (if base <= k < base + i {
                        code@[k - base]
                    } else {
                        mem0[k]
                    }),
            decreases code@.len() - i,
        {
            self.memory.write_byte(((base as u32 + i as u32) % 0x10000) as u16, code[i]);
            i = i + 1;
        }
        proof {
            assert(self.memory@ =~= spec_load_mem(mem0, base, code@));
        }
        self.segments.push((base, code.len() as u32));
        Ok(())
    }

    /// A copy of the bytes of the most recent load, read back out of
    /// memory; empty when nothing was loaded.
    pub fn get_code(&self) -> (r: Vec<u8>)
        requires
            self.wf(),
        ensures
            ({
                if self@.segments.len() == 0 {
                    r@.len() == 0
                } else {
                    let seg = self@.segments.last();
                    r@ == self@.mem.subrange(seg.0 as int, seg.0 + seg.1)
                }
            }),
    {
        let n = self.segments.len();
        if n == 0 {
            return Vec::new();
        }
        let (start, size) = self.segments[n - 1];
        proof {
            assert(self@.segments[n - 1].0 + self@.segments[n - 1].1 <= 0x10000);
        }
        let mut out: Vec<u8> = Vec::new();
        let mut i: u32 = 0;
        while i < size
            invariant
                0 <= i <= size,
                self.wf(),
                n - 1 < self.segments@.len(),
                (start, size) == self.segments@[n - 1],
                start + size <= 0x10000,
                out@ == self@.mem.subrange(start as int, start + i),
            decreases size - i,
        {
            out.push(self.memory.read_byte(((start as u32 + i) % 0x10000) as u16));
            proof {
                assert(out@ =~= self@.mem.subrange(start as int, start + i + 1));
            }
            i = i + 1;
        }
        out
    }

    /// Points the program counter at the start of the first loaded code
    /// range, or at the default load address when nothing was loaded.
    /// The first range is the program's entry: later loads add data or
    /// handlers elsewhere, and a reset must not start execution inside
    /// those.
    pub fn reset(&mut self)
        requires
            old(self).wf(),
        ensures
            final(self).wf(),
            final(self)@ == (CpuView {
                pc: if old(self)@.segments.len() > 0 {
                    old(self)@.segments[0].0
                } else {
                    DEFAULT_CODE_SEGMENT_START_ADDRESS
                },
                ..old(self)@
            }),
    {
        if self.segments.len() > 0 {
            let (start, _) = self.segments[0];
            self.registers.PC = start;
        } else {
            self.registers.PC = DEFAULT_CODE_SEGMENT_START_ADDRESS;
        }
    }

    /// Whether the program counter has run out of every loaded code
    /// range.
    pub fn finished(&self) -> (r: bool)
        ensures
            r == spec_finished(self@),
    {
        let pc = self.registers.PC;
        let mut i: usize = 0;
        while i < self.segments.len()
            invariant
                0 <= i <= self.segments@.len(),
                forall|k: int|
                    0 <= k < i ==> !((#[trigger] self.segments@[k]).0 <= pc < self.segments@[k].0
                        + self.segments@[k].1),
                pc == self@.pc,
            decreases self.segments@.len() - i,
        {
            let (start, size) = self.segments[i];
            if start <= pc && (pc as u64) < start as u64 + size as u64 {
                proof {
                    let ghost seg = self@.segments[i as int];
                    assert(seg.0 <= self@.pc < seg.0 + seg.1);
                    assert(!spec_finished(self@));
                }
                return false;
            }
            i = i + 1;
        }
        true
    }

    /// The operand the opcode at the program counter denotes; see
    /// `spec_operand`.
    fn operand_for(&self, op: &OpCode) -> (t: Operand)
        requires
            self.wf(),
        ensures
            t == spec_operand(self@, *op),
    {
        let op_start = ((self.registers.PC as u32 + 1) % 0x10000) as u16;
        match op.mode {
            AddressingMode::Implied => Operand::Implied,
            AddressingMode::Accumulator => Operand::Implied,
            AddressingMode::Immediate => Operand::Immediate(self.memory.read_byte(op_start)),
            AddressingMode::Relative => Operand::Immediate(self.memory.read_byte(op_start)),
            AddressingMode::ZeroPage => Operand::Memory(self.memory.read_byte(op_start) as u16),
            AddressingMode::ZeroPageX => Operand::Memory(
                ((self.registers.X as u32 + self.memory.read_byte(op_start) as u32) % 0x100)
                    as u16,
            ),
            AddressingMode::ZeroPageY => Operand::Memory(
                ((self.registers.Y as u32 + self.memory.read_byte(op_start) as u32) % 0x100)
                    as u16,
            ),
            AddressingMode::Absolute => Operand::Memory(self.memory.read_u16(op_start)),
            AddressingMode::AbsoluteX => Operand::Memory(
                ((self.registers.X as u32 + self.memory.read_u16(op_start) as u32) % 0x10000)
                    as u16,
            ),
            AddressingMode::AbsoluteY => Operand::Memory(
                ((self.registers.Y as u32 + self.memory.read_u16(op_start) as u32) % 0x10000)
                    as u16,
            ),
            AddressingMode::Indirect => Operand::Memory(
                self.memory.read_u16(self.memory.read_u16(op_start)),
            ),
            AddressingMode::IndirectX => Operand::Memory(
                self.memory.read_u16(
                    ((self.registers.X as u32 + self.memory.read_byte(op_start) as u32) % 0x100)
                        as u16,
                ),
            ),
            AddressingMode::IndirectY => Operand::Memory(
                ((self.registers.Y as u32 + self.memory.read_u16(
                    self.memory.read_byte(op_start) as u16,
                ) as u32) % 0x10000) as u16,
            ),
        }
    }

    /// The byte an operand stands for; see `spec_operand_value`.
    fn value_of(&self, t: Operand) -> (r: u8)
        requires
            self.wf(),
        ensures
            r == spec_operand_value(self@, t),
    {
        match t {
            Operand::Immediate(b) => b,
            Operand::Memory(addr) => self.memory.read_byte(addr),
            Operand::Implied => 0,
        }
    }

    /// The address an operand stands for; see `spec_operand_addr`.
    fn addr_of(t: Operand) -> (r: u16)
        ensures
            r == spec_operand_addr(t),
    {
        match t {
            Operand::Immediate(b) => b as u16,
            Operand::Memory(addr) => addr,
            Operand::Implied => 0,
        }
    }

    /// Sets the zero and sign flags from a result byte.
    fn set_nz(&mut self, v: u8)
        ensures
            final(self)@ == spec_with_nz(old(self)@, v),
    {
        self.flags.zero = v == 0;
        self.flags.sign = v >= 0x80;
    }

    /// Pushes one byte onto the stack page.
    fn push8(&mut self, v: u8)
        requires
            old(self).wf(),
            old(self).stack.pointer >= 1,
        ensures
            final(self).wf(),
            final(self)@ == spec_push8(old(self)@, v),
    {
        self.stack.pointer = self.stack.pointer - 1;
        self.memory.write_byte((0x100 + self.stack.pointer) as u16, v);
        proof {
            assert forall|i: int|
                0 <= i < self@.segments.len() implies (#[trigger] self@.segments[i]).0
                + self@.segments[i].1 <= 0x10000 by {
                assert(self@.segments[i] == old(self)@.segments[i]);
            }
        }
    }

    /// Pushes a 16-bit value onto the stack page, little-endian.
    fn push16(&mut self, v: u16)
        requires
            old(self).wf(),
            old(self).stack.pointer >= 2,
        ensures
            final(self).wf(),
            final(self)@ == spec_push16(old(self)@, v),
    {
        self.memory.write_byte((0x100 + self.stack.pointer - 2) as u16, (v % 256) as u8);
        self.memory.write_byte((0x100 + self.stack.pointer - 1) as u16, (v / 256) as u8);
        self.stack.pointer = self.stack.pointer - 2;
        proof {
            assert forall|i: int|
                0 <= i < self@.segments.len() implies (#[trigger] self@.segments[i]).0
                + self@.segments[i].1 <= 0x10000 by {
                assert(self@.segments[i] == old(self)@.segments[i]);
            }
        }
    }

    /// Pops one byte off the stack page.
    fn pop8(&mut self) -> (r: u8)
        requires
            old(self).wf(),
            old(self).stack.pointer < 0xFF,
        ensures
            final(self).wf(),
            r == spec_top8(old(self)@),
            final(self)@ == (CpuView { sp: old(self)@.sp + 1, ..old(self)@ }),
    {
        let v = self.memory.read_byte((0x100 + self.stack.pointer) as u16);
        self.stack.pointer = self.stack.pointer + 1;
        v
    }

    /// Pops a 16-bit value off the stack page, little-endian.
    fn pop16(&mut self) -> (r: u16)
        requires
            old(self).wf(),
            old(self).stack.pointer < 0xFE,
        ensures
            final(self).wf(),
            r == spec_top16(old(self)@),
            final(self)@ == (CpuView { sp: old(self)@.sp + 2, ..old(self)@ }),
    {
        let lo = self.memory.read_byte((0x100 + self.stack.pointer) as u16);
        let hi = self.memory.read_byte((0x100 + self.stack.pointer + 1) as u16);
        self.stack.pointer = self.stack.pointer + 2;
        lo as u16 + (hi as u16) * 0x100
    }
}


impl Cpu {
    /// ADC; see `spec_adc`.
    #[verifier::rlimit(50)]
    fn op_adc(&mut self, m: u8)
        requires
            old(self).wf(),
        ensures
            final(self)@ == spec_adc(old(self)@, m),
    {
        let carry: u16 = if self.flags.carry { 1 } else { 0 };
        let a0 = self.registers.A;
        let mut result: u16 = a0 as u16 + m as u16 + carry;
        if self.flags.decimal {
            if (a0 % 16) as u16 + (m % 16) as u16 + carry > 9 {
                result = result + 6;
            }
            if result > 0x99 {
                result = result + 0x60;
            }
        }
        let low = (result % 256) as u8;
        self.flags.carry = result % 512 >= 256;
        self.flags.zero = low == 0;
        self.flags.sign = low >= 0x80;
        self.flags.overflow = ((a0 >= 0x80) == (m >= 0x80)) && ((low >= 0x80) != (a0 >= 0x80));
        self.registers.A = low;
        proof {
            let s = old(self)@;
            let c: int = if s.flags.carry { 1 } else { 0 };
            let binary = s.a + m + c;
            let nf = s.flags.decimal && (s.a % 16) + (m % 16) + c > 9;
            let r1 = if nf { binary + 6 } else { binary };
            let r2 = if s.flags.decimal && r1 > 0x99 { r1 + 0x60 } else { r1 };
            assert(result == r2);
            assert(spec_low(r2) == (result % 256) as u8);
        }
    }

    /// SBC; see `spec_sbc`. The differences are computed shifted up by
    /// 512 so that the unsigned arithmetic cannot underflow.
    #[verifier::rlimit(100)]
    fn op_sbc(&mut self, m: u8)
        requires
            old(self).wf(),
        ensures
            final(self)@ == spec_sbc(old(self)@, m),
    {
        let borrow: u16 = if self.flags.carry { 0 } else { 1 };
        let a0 = self.registers.A;
        let raw512: u16 = a0 as u16 + 512 - m as u16 - borrow;
        let raw_low = (raw512 % 256) as u8;
        self.flags.zero = raw_low == 0;
        self.flags.sign = raw_low >= 0x80;
        self.flags.overflow = ((a0 >= 0x80) == (m >= 0x80)) && ((raw_low >= 0x80) != (a0
            >= 0x80));
        let mut r512: u16 = raw512;
        if self.flags.decimal {
            if (a0 % 16) as u16 + 16 - borrow < (m % 16) as u16 + 16 {
                r512 = r512 - 6;
            }
            if !(512 <= r512 && r512 <= 512 + 0x99) {
                r512 = r512 - 0x60;
            }
        }
        self.flags.carry = 512 <= r512 && r512 < 512 + 0x100;
        self.registers.A = (r512 % 256) as u8;
        proof {
            let s = old(self)@;
            let b: int = if s.flags.carry { 0 } else { 1 };
            let raw = s.a - m - b;
            assert(raw512 == raw + 512);
            assert(spec_low(raw) == raw_low) by {
                vstd::arithmetic::div_mod::lemma_mod_add_multiples_vanish(raw + 256, 256);
                vstd::arithmetic::div_mod::lemma_mod_add_multiples_vanish(raw, 256);
                vstd::arithmetic::div_mod::lemma_mod_add_multiples_vanish(raw % 256, 256);
                vstd::arithmetic::div_mod::lemma_mod_twice(raw, 256);
            }
            let nf = s.flags.decimal && (s.a % 16) - b < (m % 16);
            let r1 = if nf { raw - 6 } else { raw };
            let r2 = if s.flags.decimal && !(0 <= r1 <= 0x99) { r1 - 0x60 } else { r1 };
            assert(r512 == r2 + 512);
            assert(spec_low(r2) == (r512 % 256) as u8) by {
                vstd::arithmetic::div_mod::lemma_mod_add_multiples_vanish(r2 + 256, 256);
                vstd::arithmetic::div_mod::lemma_mod_add_multiples_vanish(r2, 256);
                vstd::arithmetic::div_mod::lemma_mod_add_multiples_vanish(r2 % 256, 256);
                vstd::arithmetic::div_mod::lemma_mod_twice(r2, 256);
            }
            assert((0 <= r2 < 0x100) == (512 <= r2 + 512 < 512 + 0x100));
        }
    }

    /// A branch: moves the program counter by the signed offset when the
    /// condition holds; see `spec_branch`.
    fn op_branch(&mut self, taken: bool, offset: u8)
        requires
            old(self).wf(),
        ensures
            final(self)@ == spec_branch(old(self)@, taken, offset),
    {
        if taken {
            if offset >= 0x80 {
                self.registers.PC = ((self.registers.PC as u32 + offset as u32 + 0xFF00)
                    % 0x10000) as u16;
            } else {
                self.registers.PC = ((self.registers.PC as u32 + offset as u32) % 0x10000) as u16;
            }
        }
    }

    /// A shift or rotate result stored back to the accumulator or to
    /// memory; see `spec_shift_result`.
    fn op_store_shift(&mut self, t: Operand, v2: u8, carry_out: bool)
        requires
            old(self).wf(),
        ensures
            final(self).wf(),
            final(self)@ == spec_shift_result(old(self)@, t, v2, carry_out),
    {
        self.flags.carry = carry_out;
        self.flags.zero = v2 == 0;
        self.flags.sign = v2 >= 0x80;
        match t {
            Operand::Implied => {
                self.registers.A = v2;
                proof {
                    lemma_segments_unchanged(old(self)@, self@);
                }
            },
            _ => {
                let addr = Self::addr_of(t);
                self.memory.write_byte(addr, v2);
                proof {
                    lemma_segments_unchanged(old(self)@, self@);
                }
            },
        }
    }

    /// CMP/CPX/CPY; see `spec_compare`. The difference is computed
    /// shifted up by 256 so that the unsigned arithmetic cannot
    /// underflow.
    fn op_compare(&mut self, reg: u8, m: u8)
        requires
            old(self).wf(),
        ensures
            final(self)@ == spec_compare(old(self)@, reg, m),
    {
        let d256: u16 = reg as u16 + 256 - m as u16;
        self.flags.carry = d256 >= 256;
        self.flags.zero = (d256 % 256) as u8 == 0;
        self.flags.sign = (d256 % 256) as u8 >= 0x80;
        proof {
            assert(spec_low(reg - m) == (d256 % 256) as u8);
        }
    }

    /// BIT: the zero flag from masking the accumulator, overflow and
    /// sign copied from bits 6 and 7 of the tested byte.
    fn op_bit(&mut self, m: u8)
        requires
            old(self).wf(),
        ensures
            final(self)@ == (CpuView {
                flags: StatusFlags {
                    zero: (old(self)@.a & m) == 0,
                    overflow: m & 0x40 == 0x40,
                    sign: m >= 0x80,
                    ..old(self)@.flags
                },
                ..old(self)@
            }),
    {
        self.flags.zero = (self.registers.A & m) == 0;
        self.flags.overflow = m & 0x40 == 0x40;
        self.flags.sign = m >= 0x80;
    }

    /// INC or DEC on memory: the wrapped successor or predecessor byte
    /// written back, with zero and sign from the result.
    fn op_step_mem(&mut self, t: Operand, up: bool)
        requires
            old(self).wf(),
        ensures
            final(self).wf(),
            ({
                let v = if up {
                    spec_low(spec_operand_value(old(self)@, t) + 1)
                } else {
                    spec_low(spec_operand_value(old(self)@, t) - 1)
                };
                final(self)@ == (CpuView {
                    mem: old(self)@.mem.update(spec_operand_addr(t) as int, v),
                    ..spec_with_nz(old(self)@, v)
                })
            }),
    {
        let v0 = self.value_of(t);
        let v: u8 = if up {
            if v0 == 255 {
                0
            } else {
                v0 + 1
            }
        } else {
            if v0 == 0 {
                255
            } else {
                v0 - 1
            }
        };
        let addr = Self::addr_of(t);
        self.memory.write_byte(addr, v);
        self.set_nz(v);
        proof {
            lemma_segments_unchanged(old(self)@, self@);
        }
    }
}

/// Two states with the same loaded ranges satisfy the range part of
/// well-formedness together.
pub proof fn lemma_segments_unchanged(a: CpuView, b: CpuView)
    requires
        spec_wf(a),
        b.segments == a.segments,
        b.mem.len() == a.mem.len(),
        0 <= b.sp <= 0xFF,
    ensures
        spec_wf(b),
{
    assert forall|i: int|
        0 <= i < b.segments.len() implies (#[trigger] b.segments[i]).0 + b.segments[i].1
        <= 0x10000 by {
        assert(b.segments[i] == a.segments[i]);
    }
}


/// What raising an interrupt does: push the program counter and the
/// flags, set the interrupt-disable bit, and jump through the given
/// vector. Without room on the stack it faults and changes nothing.
pub open spec fn spec_interrupt(s: CpuView, vector: u16) -> Result<CpuView, StepFault> {
    if s.sp < 3 {
        Err(StepFault::StackOverflow(s.pc))
    } else {
        let s2 = spec_push8(spec_push16(s, s.pc), spec_flags_to_u8(s.flags));
        Ok(
            CpuView {
                pc: spec_read_u16(s2.mem, vector),
                flags: StatusFlags { interrupt_disabled: true, ..s.flags },
                ..s2
            },
        )
    }
}

impl Cpu {
    /// The byte a shift or rotate works on; see `spec_shift_source`.
    fn shift_source(&self, t: Operand) -> (r: u8)
        requires
            self.wf(),
        ensures
            r == spec_shift_source(self@, t),
    {
        match t {
            Operand::Implied => self.registers.A,
            _ => self.value_of(t),
        }
    }

    /// Executes exactly one instruction and returns its base cycle
    /// count. Fails on a byte outside the opcode table and on a stack
    /// fault, and then changes nothing.
    pub fn step(&mut self) -> (r: CpuStepResult)
        requires
            old(self).wf(),
        ensures
            final(self).wf(),
            match r {
                Ok(t) => spec_step(old(self)@) == Ok::<(CpuView, u8), StepFault>(
                    (final(self)@, t),
                ),
                Err(e) => spec_step(old(self)@) is Err && e@ == spec_fault_view(
                    spec_step(old(self)@)->Err_0,
                ) && final(self)@ == old(self)@,
            },
    {
        let ghost s0 = old(self)@;
        let pc0 = self.registers.PC;
        let byte = self.memory.read_byte(pc0);
        let op = match OpCode::from_raw_byte(byte) {
            Some(op) => op,
            None => {
                return Err(CpuError::unknown_opcode(pc0, byte));
            },
        };
        let t = self.operand_for(&op);
        self.registers.PC = ((pc0 as u32 + op.length as u32) % 0x10000) as u16;
        let ghost s2 = (CpuView { pc: spec_w16(s0.pc + op.length), ..s0 });
        proof {
            assert(self@ == s2);
            lemma_segments_unchanged(s0, s2);
        }
        match self.exec_op(op.mnemonic, t, pc0) {
            Ok(_) => Ok(op.time),
            Err(e) => {
                self.registers.PC = pc0;
                assert(self@ == s0);
                Err(e)
            },
        }
    }

    /// Dispatches one already-decoded instruction; see `spec_exec`. On a
    /// stack fault nothing changes.
    fn exec_op(&mut self, mn: Mnemonic, t: Operand, pc0: u16) -> (r: Result<(), CpuError>)
        requires
            old(self).wf(),
        ensures
            final(self).wf(),
            match r {
                Ok(_) => spec_exec(old(self)@, mn, t, pc0) == Ok::<CpuView, StepFault>(
                    final(self)@,
                ),
                Err(e) => spec_exec(old(self)@, mn, t, pc0) is Err && e@ == spec_fault_view(
                    spec_exec(old(self)@, mn, t, pc0)->Err_0,
                ) && final(self)@ == old(self)@,
            },
    {
        match mn {
            Mnemonic::ADC | Mnemonic::AND | Mnemonic::ASL | Mnemonic::BCC | Mnemonic::BCS | Mnemonic::BEQ | Mnemonic::BIT | Mnemonic::BMI | Mnemonic::BNE | Mnemonic::BPL | Mnemonic::BRK | Mnemonic::BVC | Mnemonic::BVS | Mnemonic::CLC => self.exec_op_a(mn, t, pc0),
            Mnemonic::CLD | Mnemonic::CLI | Mnemonic::CLV | Mnemonic::CMP | Mnemonic::CPX | Mnemonic::CPY | Mnemonic::DEC | Mnemonic::DEX | Mnemonic::DEY | Mnemonic::EOR | Mnemonic::INC | Mnemonic::INX | Mnemonic::INY | Mnemonic::JMP => self.exec_op_b(mn, t, pc0),
            Mnemonic::JSR | Mnemonic::LDA | Mnemonic::LDX | Mnemonic::LDY | Mnemonic::LSR | Mnemonic::NOP | Mnemonic::ORA | Mnemonic::PHA | Mnemonic::PHP | Mnemonic::PLA | Mnemonic::PLP | Mnemonic::ROL | Mnemonic::ROR | Mnemonic::RTI => self.exec_op_c(mn, t, pc0),
            Mnemonic::RTS | Mnemonic::SBC | Mnemonic::SEC | Mnemonic::SED | Mnemonic::SEI | Mnemonic::STA | Mnemonic::STX | Mnemonic::STY | Mnemonic::TAX | Mnemonic::TAY | Mnemonic::TSX | Mnemonic::TXA | Mnemonic::TXS | Mnemonic::TYA => self.exec_op_d(mn, t, pc0),
        }
    }

    /// One quarter of the instruction dispatch; see `spec_exec`.
    #[verifier::rlimit(100)]
    fn exec_op_a(&mut self, mn: Mnemonic, t: Operand, pc0: u16) -> (r: Result<
        (),
        CpuError,
    >)
        requires
            old(self).wf(),
            mn is ADC || mn is AND || mn is ASL || mn is BCC || mn is BCS || mn is BEQ || mn is BIT || mn is BMI || mn is BNE || mn is BPL || mn is BRK || mn is BVC || mn is BVS || mn is CLC,
        ensures
            final(self).wf(),
            match r {
                Ok(_) => spec_exec(old(self)@, mn, t, pc0) == Ok::<CpuView, StepFault>(
                    final(self)@,
                ),
                Err(e) => spec_exec(old(self)@, mn, t, pc0) is Err && e@ == spec_fault_view(
                    spec_exec(old(self)@, mn, t, pc0)->Err_0,
                ) && final(self)@ == old(self)@,
            },
    {
        match mn {
            Mnemonic::ADC => {
                let m = self.value_of(t);
                self.op_adc(m);
            },
            Mnemonic::AND => {
                let m = self.value_of(t);
                let v = self.registers.A & m;
                self.registers.A = v;
                self.set_nz(v);
            },
            Mnemonic::ASL => {
                let v = self.shift_source(t);
                let v2 = ((v as u16 * 2) % 256) as u8;
                assert(v2 == spec_low(v * 2));
                self.op_store_shift(t, v2, v >= 0x80);
            },
            Mnemonic::BCC => {
                let off = self.value_of(t);
                let c = self.flags.carry;
                self.op_branch(!c, off);
            },
            Mnemonic::BCS => {
                let off = self.value_of(t);
                let c = self.flags.carry;
                self.op_branch(c, off);
            },
            Mnemonic::BEQ => {
                let off = self.value_of(t);
                let z = self.flags.zero;
                self.op_branch(z, off);
            },
            Mnemonic::BIT => {
                let m = self.value_of(t);
                self.op_bit(m);
            },
            Mnemonic::BMI => {
                let off = self.value_of(t);
                let sgn = self.flags.sign;
                self.op_branch(sgn, off);
            },
            Mnemonic::BNE => {
                let off = self.value_of(t);
                let z = self.flags.zero;
                self.op_branch(!z, off);
            },
            Mnemonic::BPL => {
                let off = self.value_of(t);
                let sgn = self.flags.sign;
                self.op_branch(!sgn, off);
            },
            Mnemonic::BRK => {
                if self.stack.pointer < 3 {
                    return Err(CpuError::stack_overflow(pc0));
                }
                let pcv = self.registers.PC;
                self.push16(pcv);
                let p = self.flags.to_u8() | 0x10;
                self.push8(p);
                self.flags.interrupt_disabled = true;
                let v = self.memory.read_u16(0xFFFE);
                self.registers.PC = v;
                proof {
                    lemma_segments_unchanged(old(self)@, self@);
                }
            },
            Mnemonic::BVC => {
                let off = self.value_of(t);
                let o = self.flags.overflow;
                self.op_branch(!o, off);
            },
            Mnemonic::BVS => {
                let off = self.value_of(t);
                let o = self.flags.overflow;
                self.op_branch(o, off);
            },
            Mnemonic::CLC => {
                self.flags.carry = false;
            },
            _ => {},
        }
        proof {
            lemma_segments_unchanged(old(self)@, self@);
        }
        Ok(())
    }

    /// One quarter of the instruction dispatch; see `spec_exec`.
    #[verifier::rlimit(100)]
    fn exec_op_b(&mut self, mn: Mnemonic, t: Operand, pc0: u16) -> (r: Result<
        (),
        CpuError,
    >)
        requires
            old(self).wf(),
            mn is CLD || mn is CLI || mn is CLV || mn is CMP || mn is CPX || mn is CPY || mn is DEC || mn is DEX || mn is DEY || mn is EOR || mn is INC || mn is INX || mn is INY || mn is JMP,
        ensures
            final(self).wf(),
            match r {
                Ok(_) => spec_exec(old(self)@, mn, t, pc0) == Ok::<CpuView, StepFault>(
                    final(self)@,
                ),
                Err(e) => spec_exec(old(self)@, mn, t, pc0) is Err && e@ == spec_fault_view(
                    spec_exec(old(self)@, mn, t, pc0)->Err_0,
                ) && final(self)@ == old(self)@,
            },
    {
        match mn {
            Mnemonic::CLD => {
                self.flags.decimal = false;
            },
            Mnemonic::CLI => {
                self.flags.interrupt_disabled = false;
            },
            Mnemonic::CLV => {
                self.flags.overflow = false;
            },
            Mnemonic::CMP => {
                let m = self.value_of(t);
                let a = self.registers.A;
                self.op_compare(a, m);
            },
            Mnemonic::CPX => {
                let m = self.value_of(t);
                let x = self.registers.X;
                self.op_compare(x, m);
            },
            Mnemonic::CPY => {
                let m = self.value_of(t);
                let y = self.registers.Y;
                self.op_compare(y, m);
            },
            Mnemonic::DEC => {
                self.op_step_mem(t, false);
            },
            Mnemonic::DEX => {
                let x = self.registers.X;
                let v: u8 = if x == 0 { 255 } else { x - 1 };
                assert(v == spec_low(x - 1));
                self.registers.X = v;
                self.set_nz(v);
            },
            Mnemonic::DEY => {
                let y = self.registers.Y;
                let v: u8 = if y == 0 { 255 } else { y - 1 };
                assert(v == spec_low(y - 1));
                self.registers.Y = v;
                self.set_nz(v);
            },
            Mnemonic::EOR => {
                let m = self.value_of(t);
                let v = self.registers.A ^ m;
                self.registers.A = v;
                self.set_nz(v);
            },
            Mnemonic::INC => {
                self.op_step_mem(t, true);
            },
            Mnemonic::INX => {
                let x = self.registers.X;
                let v: u8 = if x == 255 { 0 } else { x + 1 };
                assert(v == spec_low(x + 1));
                self.registers.X = v;
                self.set_nz(v);
            },
            Mnemonic::INY => {
                let y = self.registers.Y;
                let v: u8 = if y == 255 { 0 } else { y + 1 };
                assert(v == spec_low(y + 1));
                self.registers.Y = v;
                self.set_nz(v);
            },
            Mnemonic::JMP => {
                self.registers.PC = Self::addr_of(t);
            },
            _ => {},
        }
        proof {
            lemma_segments_unchanged(old(self)@, self@);
        }
        Ok(())
    }

    /// One quarter of the instruction dispatch; see `spec_exec`.
    #[verifier::rlimit(100)]
    fn exec_op_c(&mut self, mn: Mnemonic, t: Operand, pc0: u16) -> (r: Result<
        (),
        CpuError,
    >)
        requires
            old(self).wf(),
            mn is JSR || mn is LDA || mn is LDX || mn is LDY || mn is LSR || mn is NOP || mn is ORA || mn is PHA || mn is PHP || mn is PLA || mn is PLP || mn is ROL || mn is ROR || mn is RTI,
        ensures
            final(self).wf(),
            match r {
                Ok(_) => spec_exec(old(self)@, mn, t, pc0) == Ok::<CpuView, StepFault>(
                    final(self)@,
                ),
                Err(e) => spec_exec(old(self)@, mn, t, pc0) is Err && e@ == spec_fault_view(
                    spec_exec(old(self)@, mn, t, pc0)->Err_0,
                ) && final(self)@ == old(self)@,
            },
    {
        match mn {
            Mnemonic::JSR => {
                if self.stack.pointer < 2 {
                    return Err(CpuError::stack_overflow(pc0));
                }
                let pcv = self.registers.PC;
                self.push16(pcv);
                self.registers.PC = Self::addr_of(t);
                proof {
                    lemma_segments_unchanged(old(self)@, self@);
                }
            },
            Mnemonic::LDA => {
                let v = self.value_of(t);
                self.registers.A = v;
                self.set_nz(v);
            },
            Mnemonic::LDX => {
                let v = self.value_of(t);
                self.registers.X = v;
                self.set_nz(v);
            },
            Mnemonic::LDY => {
                let v = self.value_of(t);
                self.registers.Y = v;
                self.set_nz(v);
            },
            Mnemonic::LSR => {
                let v = self.shift_source(t);
                self.op_store_shift(t, v / 2, v % 2 == 1);
            },
            Mnemonic::NOP => {},
            Mnemonic::ORA => {
                let m = self.value_of(t);
                let v = self.registers.A | m;
                self.registers.A = v;
                self.set_nz(v);
            },
            Mnemonic::PHA => {
                if self.stack.pointer < 1 {
                    return Err(CpuError::stack_overflow(pc0));
                }
                let a = self.registers.A;
                self.push8(a);
            },
            Mnemonic::PHP => {
                if self.stack.pointer < 1 {
                    return Err(CpuError::stack_overflow(pc0));
                }
                let p = self.flags.to_u8();
                self.push8(p);
            },
            Mnemonic::PLA => {
                if self.stack.pointer >= 0xFF {
                    return Err(CpuError::stack_underflow(pc0));
                }
                let v = self.pop8();
                self.registers.A = v;
                proof {
                    lemma_segments_unchanged(old(self)@, self@);
                }
            },
            Mnemonic::PLP => {
                if self.stack.pointer >= 0xFF {
                    return Err(CpuError::stack_underflow(pc0));
                }
                let v = self.pop8();
                self.flags = StatusFlags::from(v);
                proof {
                    lemma_segments_unchanged(old(self)@, self@);
                }
            },
            Mnemonic::ROL => {
                let v = self.shift_source(t);
                let base = ((v as u16 * 2) % 256) as u8;
                let v2: u8 = if self.flags.carry { base + 1 } else { base };
                self.op_store_shift(t, v2, v >= 0x80);
            },
            Mnemonic::ROR => {
                let v = self.shift_source(t);
                let v2: u8 = if self.flags.carry { v / 2 + 0x80 } else { v / 2 };
                self.op_store_shift(t, v2, v % 2 == 1);
            },
            Mnemonic::RTI => {
                if self.stack.pointer >= 0xFD {
                    return Err(CpuError::stack_underflow(pc0));
                }
                let p = self.pop8();
                let pcv = self.pop16();
                self.registers.PC = pcv;
                let mut f = StatusFlags::from(p);
                f.breakpoint = false;
                f.unused = true;
                self.flags = f;
                proof {
                    lemma_segments_unchanged(old(self)@, self@);
                }
            },
            _ => {},
        }
        proof {
            lemma_segments_unchanged(old(self)@, self@);
        }
        Ok(())
    }

    /// One quarter of the instruction dispatch; see `spec_exec`.
    #[verifier::rlimit(100)]
    fn exec_op_d(&mut self, mn: Mnemonic, t: Operand, pc0: u16) -> (r: Result<
        (),
        CpuError,
    >)
        requires
            old(self).wf(),
            mn is RTS || mn is SBC || mn is SEC || mn is SED || mn is SEI || mn is STA || mn is STX || mn is STY || mn is TAX || mn is TAY || mn is TSX || mn is TXA || mn is TXS || mn is TYA,
        ensures
            final(self).wf(),
            match r {
                Ok(_) => spec_exec(old(self)@, mn, t, pc0) == Ok::<CpuView, StepFault>(
                    final(self)@,
                ),
                Err(e) => spec_exec(old(self)@, mn, t, pc0) is Err && e@ == spec_fault_view(
                    spec_exec(old(self)@, mn, t, pc0)->Err_0,
                ) && final(self)@ == old(self)@,
            },
    {
        match mn {
            Mnemonic::RTS => {
                if self.stack.pointer >= 0xFE {
                    return Err(CpuError::stack_underflow(pc0));
                }
                let pcv = self.pop16();
                self.registers.PC = pcv;
                proof {
                    lemma_segments_unchanged(old(self)@, self@);
                }
            },
            Mnemonic::SBC => {
                let m = self.value_of(t);
                self.op_sbc(m);
            },
            Mnemonic::SEC => {
                self.flags.carry = true;
            },
            Mnemonic::SED => {
                self.flags.decimal = true;
            },
            Mnemonic::SEI => {
                self.flags.interrupt_disabled = true;
            },
            Mnemonic::STA => {
                let addr = Self::addr_of(t);
                let a = self.registers.A;
                self.memory.write_byte(addr, a);
                proof {
                    lemma_segments_unchanged(old(self)@, self@);
                }
            },
            Mnemonic::STX => {
                let addr = Self::addr_of(t);
                let x = self.registers.X;
                self.memory.write_byte(addr, x);
                proof {
                    lemma_segments_unchanged(old(self)@, self@);
                }
            },
            Mnemonic::STY => {
                let addr = Self::addr_of(t);
                let y = self.registers.Y;
                self.memory.write_byte(addr, y);
                proof {
                    lemma_segments_unchanged(old(self)@, self@);
                }
            },
            Mnemonic::TAX => {
                let v = self.registers.A;
                self.registers.X = v;
                self.set_nz(v);
            },
            Mnemonic::TAY => {
                let v = self.registers.A;
                self.registers.Y = v;
                self.set_nz(v);
            },
            Mnemonic::TSX => {
                let v = (self.stack.pointer % 256) as u8;
                assert(v == spec_low(self@.sp));
                self.registers.X = v;
                self.set_nz(v);
            },
            Mnemonic::TXA => {
                let v = self.registers.X;
                self.registers.A = v;
                self.set_nz(v);
            },
            Mnemonic::TXS => {
                self.stack.pointer = self.registers.X as usize;
                proof {
                    lemma_segments_unchanged(old(self)@, self@);
                }
            },
            Mnemonic::TYA => {
                let v = self.registers.Y;
                self.registers.A = v;
                self.set_nz(v);
            },
            _ => {},
        }
        proof {
            lemma_segments_unchanged(old(self)@, self@);
        }
        Ok(())
    }


    /// Runs up to `n` instructions, stopping early once the program
    /// counter leaves the loaded code, and returns the cycles spent. The
    /// stop test covers every loaded range, not only the most recent
    /// one, so that a handler loaded at another address still runs when
    /// an interrupt moves the program counter into it. On a fault the
    /// machine stays as it stood before the failing step.
    pub fn step_n(&mut self, n: u32) -> (r: CpuMultiStepResult)
        requires
            old(self).wf(),
        ensures
            final(self).wf(),
            match r {
                Ok(v) => spec_step_n(old(self)@, n as int) == Ok::<
                    (CpuView, int),
                    (CpuView, StepFault),
                >((final(self)@, v as int)),
                Err(e) => spec_step_n(old(self)@, n as int) matches Err((sf, f)) && final(self)@
                    == sf && e@ == spec_fault_view(f),
            },
    {
        let mut total: u64 = 0;
        let mut i: u32 = 0;
        loop
            invariant_except_break
                0 <= i <= n,
                self.wf(),
                total <= 7 * (i as u64),
                spec_step_n(old(self)@, n as int) == (match spec_step_n(self@, n - i) {
                    Ok((s3, sum)) => Ok::<(CpuView, int), (CpuView, StepFault)>(
                        (s3, total + sum),
                    ),
                    Err(e) => Err(e),
                }),
            ensures
                self.wf(),
                spec_step_n(old(self)@, n as int) == Ok::<(CpuView, int), (CpuView, StepFault)>(
                    (self@, total as int),
                ),
            decreases n - i,
        {
            if i >= n {
                proof {
                    assert(spec_step_n(self@, n - i) == Ok::<
                        (CpuView, int),
                        (CpuView, StepFault),
                    >((self@, 0)));
                }
                break;
            }
            if self.finished() {
                proof {
                    assert(spec_step_n(self@, n - i) == Ok::<
                        (CpuView, int),
                        (CpuView, StepFault),
                    >((self@, 0)));
                }
                break;
            }
            let ghost before = self@;
            match self.step() {
                Ok(cycles) => {
                    proof {
                        crate::opcodes::lemma_opcode_table_consistent();
                        assert(cycles <= 7);
                    }
                    total = total + cycles as u64;
                    i = i + 1;
                },
                Err(e) => {
                    proof {
                        assert(spec_step_n(before, n - i) matches Err((sf, f)) && sf == before);
                    }
                    return Err(e);
                },
            }
        }
        Ok(total)
    }

    /// Raises a non-maskable interrupt: the program counter and the
    /// flags are pushed, interrupts are disabled, and execution moves to
    /// the handler named by the vector at 0xFFFA. Takes effect whatever
    /// the interrupt-disable flag says. Fails, changing nothing, when
    /// the stack lacks room.
    pub fn nmi(&mut self) -> (r: Result<(), CpuError>)
        requires
            old(self).wf(),
        ensures
            final(self).wf(),
            match r {
                Ok(_) => spec_interrupt(old(self)@, 0xFFFA) == Ok::<CpuView, StepFault>(
                    final(self)@,
                ),
                Err(e) => spec_interrupt(old(self)@, 0xFFFA) is Err && e@ == spec_fault_view(
                    spec_interrupt(old(self)@, 0xFFFA)->Err_0,
                ) && final(self)@ == old(self)@,
            },
    {
        self.interrupt(0xFFFA)
    }

    /// Raises a maskable interrupt through the vector at 0xFFFE; the
    /// request is ignored while the interrupt-disable flag is set.
    pub fn irq(&mut self) -> (r: Result<(), CpuError>)
        requires
            old(self).wf(),
        ensures
            final(self).wf(),
            old(self)@.flags.interrupt_disabled ==> r is Ok && final(self)@ == old(self)@,
            !old(self)@.flags.interrupt_disabled ==> match r {
                Ok(_) => spec_interrupt(old(self)@, 0xFFFE) == Ok::<CpuView, StepFault>(
                    final(self)@,
                ),
                Err(e) => spec_interrupt(old(self)@, 0xFFFE) is Err && e@ == spec_fault_view(
                    spec_interrupt(old(self)@, 0xFFFE)->Err_0,
                ) && final(self)@ == old(self)@,
            },
    {
        if self.flags.interrupt_disabled {
            return Ok(());
        }
        self.interrupt(0xFFFE)
    }

    /// The shared interrupt sequence; see `spec_interrupt`.
    fn interrupt(&mut self, vector: u16) -> (r: Result<(), CpuError>)
        requires
            old(self).wf(),
        ensures
            final(self).wf(),
            match r {
                Ok(_) => spec_interrupt(old(self)@, vector) == Ok::<CpuView, StepFault>(
                    final(self)@,
                ),
                Err(e) => spec_interrupt(old(self)@, vector) is Err && e@ == spec_fault_view(
                    spec_interrupt(old(self)@, vector)->Err_0,
                ) && final(self)@ == old(self)@,
            },
    {
        if self.stack.pointer < 3 {
            return Err(CpuError::stack_overflow(self.registers.PC));
        }
        let pcv = self.registers.PC;
        self.push16(pcv);
        let p = self.flags.to_u8();
        self.push8(p);
        self.flags.interrupt_disabled = true;
        let v = self.memory.read_u16(vector);
        self.registers.PC = v;
        proof {
            lemma_segments_unchanged(old(self)@, self@);
        }
        Ok(())
    }
}


/// The flag discipline of the register-writing instructions: after any
/// of them, the zero flag says whether the written byte is zero and the
/// sign flag copies its top bit.
#[verifier::rlimit(50)]
pub proof fn lemma_flag_discipline(s: CpuView, mn: Mnemonic, t: Operand, pc0: u16)
    ensures
        (mn == Mnemonic::LDA || mn == Mnemonic::ADC || mn == Mnemonic::AND || mn == Mnemonic::ORA
            || mn == Mnemonic::EOR || mn == Mnemonic::TXA || mn == Mnemonic::TYA) ==> (spec_exec(
            s,
            mn,
            t,
            pc0,
        ) matches Ok(s2) ==> s2.flags.zero == (s2.a == 0) && s2.flags.sign == (s2.a >= 0x80)),
        // SBC keeps its zero and sign flags from the uncorrected
        // difference, so in decimal mode they can disagree with the
        // corrected accumulator; outside decimal mode the discipline
        // holds.
        mn == Mnemonic::SBC && !s.flags.decimal ==> (spec_exec(s, mn, t, pc0) matches Ok(s2)
            ==> s2.flags.zero == (s2.a == 0) && s2.flags.sign == (s2.a >= 0x80)),
        (mn == Mnemonic::LDX || mn == Mnemonic::INX || mn == Mnemonic::DEX || mn == Mnemonic::TAX
            || mn == Mnemonic::TSX) ==> (spec_exec(s, mn, t, pc0) matches Ok(s2) ==> s2.flags.zero
            == (s2.x == 0) && s2.flags.sign == (s2.x >= 0x80)),
        (mn == Mnemonic::LDY || mn == Mnemonic::INY || mn == Mnemonic::DEY || mn == Mnemonic::TAY)
            ==> (spec_exec(s, mn, t, pc0) matches Ok(s2) ==> s2.flags.zero == (s2.y == 0)
            && s2.flags.sign == (s2.y >= 0x80)),
{
}


/// The flag discipline of the instructions whose result lands in memory
/// or is only compared: after a shift or rotate the zero and sign flags
/// track the stored byte; after INC or DEC on memory they track the
/// written byte; after a compare they track the low byte of the
/// difference.
#[verifier::rlimit(50)]
pub proof fn lemma_flag_discipline_stores(s: CpuView, mn: Mnemonic, t: Operand, pc0: u16)
    requires
        spec_wf(s),
    ensures
        (mn == Mnemonic::ASL || mn == Mnemonic::LSR || mn == Mnemonic::ROL || mn == Mnemonic::ROR)
            && t is Implied ==> (spec_exec(s, mn, t, pc0) matches Ok(s2) ==> s2.flags.zero == (
        s2.a == 0) && s2.flags.sign == (s2.a >= 0x80)),
        (mn == Mnemonic::ASL || mn == Mnemonic::LSR || mn == Mnemonic::ROL || mn == Mnemonic::ROR
            || mn == Mnemonic::INC || mn == Mnemonic::DEC) && t is Memory ==> (spec_exec(
            s,
            mn,
            t,
            pc0,
        ) matches Ok(s2) ==> s2.flags.zero == (s2.mem[spec_operand_addr(t) as int] == 0)
            && s2.flags.sign == (s2.mem[spec_operand_addr(t) as int] >= 0x80)),
        mn == Mnemonic::CMP ==> (spec_exec(s, mn, t, pc0) matches Ok(s2) ==> s2.flags.zero == (
        spec_low(s.a - spec_operand_value(s, t)) == 0) && s2.flags.sign == (spec_low(
            s.a - spec_operand_value(s, t),
        ) >= 0x80)),
        mn == Mnemonic::CPX ==> (spec_exec(s, mn, t, pc0) matches Ok(s2) ==> s2.flags.zero == (
        spec_low(s.x - spec_operand_value(s, t)) == 0) && s2.flags.sign == (spec_low(
            s.x - spec_operand_value(s, t),
        ) >= 0x80)),
        mn == Mnemonic::CPY ==> (spec_exec(s, mn, t, pc0) matches Ok(s2) ==> s2.flags.zero == (
        spec_low(s.y - spec_operand_value(s, t)) == 0) && s2.flags.sign == (spec_low(
            s.y - spec_operand_value(s, t),
        ) >= 0x80)),
{
}

} // verus!
