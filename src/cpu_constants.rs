//! Opcode bytes of the instructions that programs for this machine use most.

use vstd::prelude::*;

verus! {

/// `LDA #imm`: load the accumulator with the operand byte.
pub const LDA_IMMEDIATE: u8 = 0xA9;

/// `LDA zp`: load the accumulator from a zero-page address.
pub const LDA_ZP: u8 = 0xA5;

/// `LDA zp,X`: load the accumulator from a zero-page address plus X.
pub const LDA_ZPX: u8 = 0xB5;

/// `LDA abs`: load the accumulator from an absolute address.
pub const LDA_ABS: u8 = 0xAD;

/// `LDA abs,X`: load the accumulator from an absolute address plus X.
pub const LDA_ABSX: u8 = 0xBD;

/// `LDA abs,Y`: load the accumulator from an absolute address plus Y.
pub const LDA_ABSY: u8 = 0xB9;

/// `LDA (zp,X)`: load the accumulator through a zero-page pointer chosen by X.
pub const LDA_INDX: u8 = 0xA1;

/// `LDA (zp),Y`: load the accumulator through a zero-page pointer, plus Y.
pub const LDA_INDY: u8 = 0xB1;

/// `STA zp`: store the accumulator at a zero-page address.
pub const STA_ZP: u8 = 0x85;

/// `TAX`: copy the accumulator into X.
pub const TAX: u8 = 0xAA;

/// `TAY`: copy the accumulator into Y.
pub const TAY: u8 = 0xA8;

/// `INX`: increment X.
pub const INX: u8 = 0xE8;

/// `BRK`: halt.
pub const BRK: u8 = 0x00;

} // verus!
