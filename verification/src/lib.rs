//! Instruction-level core of an Intel-8080-compatible interpreter: a
//! byte-addressable mirrored memory, the programmer-visible register file
//! with its five status flags, and a fetch-decode-execute step that covers
//! the full 256-value opcode space.

pub mod cpu;
pub mod instructions;
pub mod machine;
