//! Instruction-processing core of an 8-bit handheld CPU and its memory map.
//!
//! The crate holds the register file, the four condition flags, the
//! segmented 16-bit address space and the fetch-decode-execute engine for the
//! primary and the prefixed opcode tables. Every function carries a contract
//! over a mathematical model of the machine state, and the contract is proved.

pub mod cpu;
pub mod memory;
