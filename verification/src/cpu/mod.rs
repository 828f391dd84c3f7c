//! The emulator core: memory bus, register file, status flags, stack and
//! the instruction interpreter.

mod cpu;
mod cpu_error;
mod flags;
mod memory_bus;
mod registers;
mod stack;

pub use cpu::Cpu;
pub use cpu::CpuLoadResult;
pub use cpu::CpuMultiStepResult;
pub use cpu::CpuStepResult;
pub use cpu::CpuView;
pub use cpu::Operand;
pub use cpu::StepFault;
pub use cpu_error::CpuError;
pub use cpu_error::CpuErrorKind;
pub use flags::StatusFlags;
pub use memory_bus::MemoryBus;
pub use registers::Registers;
pub use stack::Stack;
pub use stack::StackError;
