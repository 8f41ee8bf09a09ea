//! The register file, the flags and the decode-execute engine.

pub mod byteutils;
pub mod cb_prefix;
pub mod cpu;
pub mod flags;
pub mod instr;
pub mod register;

pub use cpu::{Cpu, CpuState};
pub use flags::Flags;
pub use instr::{Cycles, Fault, HLAction, Step, Target};
pub use register::{Reg16, Reg8, Register};
