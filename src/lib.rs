//! Execution core of an 8-bit machine in the style of the 6502: memory,
//! registers, an opcode registry and a fetch-decode-execute loop, each with a
//! mathematical model that the executable code is proved against.

pub mod cpu_constants;
pub mod opcodes;
pub mod machine;
pub mod cpu;
