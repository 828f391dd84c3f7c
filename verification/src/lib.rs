//! A toolkit for the MOS 6502 8-bit microprocessor: a two-pass assembler
//! that turns assembly source text into machine-code segments, a
//! disassembler that renders machine code back into readable assembly, and
//! an emulator that executes 6502 machine code over a 64 KiB memory bus
//! with full addressing-mode, flag, stack and interrupt semantics.
//!
//! All three components share a single table of opcodes keyed both by raw
//! byte and by (mnemonic, addressing mode).

mod assembler;
mod cpu;
mod disassembler;
mod opcodes;
mod text;

pub use assembler::ImmediateBase;
pub use assembler::LexerToken;
pub use assembler::LexerTokenView;
pub use assembler::ParserToken;
pub use assembler::ParserTokenView;
pub use assembler::Assembler;
pub use assembler::AssemblerError;
pub use assembler::CodeSegment;
pub use assembler::Label;
pub use assembler::Lexer;
pub use assembler::LexerError;
pub use assembler::Parser;
pub use assembler::ParserError;
pub use assembler::Variable;
pub use cpu::Cpu;
pub use cpu::CpuError;
pub use cpu::CpuErrorKind;
pub use cpu::CpuLoadResult;
pub use cpu::CpuMultiStepResult;
pub use cpu::CpuStepResult;
pub use cpu::CpuView;
pub use cpu::Operand;
pub use cpu::StepFault;
pub use cpu::MemoryBus;
pub use cpu::Registers;
pub use cpu::Stack;
pub use cpu::StackError;
pub use cpu::StatusFlags;
pub use opcodes::AddressingMode;
pub use opcodes::Mnemonic;
pub use opcodes::OpCode;
pub use disassembler::Disassembler;
