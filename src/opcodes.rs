//! The opcode registry: which opcode bytes the machine knows, and for each its
//! instruction, length, cycle cost and addressing mode.

use vstd::prelude::*;

verus! {

/// How an instruction finds the memory address it operates on.
#[allow(non_camel_case_types)]
#[derive(Clone, Copy, Debug, PartialEq, Eq, Structural)]
pub enum AddressingMode {
    Immediate,
    ZeroPage,
    ZeroPage_X,
    ZeroPage_Y,
    Absolute,
    Absolute_X,
    Absolute_Y,
    Indirect_X,
    Indirect_Y,
    /// The instruction has no memory operand.
    NoneAddressing,
}

/// The instruction families the machine executes.
#[derive(Clone, Copy, Debug, PartialEq, Eq, Structural)]
pub enum Mnemonic {
    /// Load the accumulator.
    Lda,
    /// Store the accumulator.
    Sta,
    /// Copy the accumulator into X.
    Tax,
    /// Copy the accumulator into Y.
    Tay,
    /// Increment X.
    Inx,
    /// Halt.
    Brk,
}

/// One entry of the registry.
#[derive(Clone, Copy, Debug, PartialEq, Eq, Structural)]
pub struct OpCode {
    pub opcode: u8,
    pub name: Mnemonic,
    /// Length of the instruction in bytes, the opcode byte included.
    pub takes_bytes: u16,
    /// Cycle cost; recorded, not used by execution.
    pub takes_cycles: u16,
    pub addressing_mode: AddressingMode,
}

impl OpCode {
    pub fn new(
        opcode: u8,
        name: Mnemonic,
        takes_bytes: u16,
        takes_cycles: u16,
        addressing_mode: AddressingMode,
    ) -> (r: Self)
        ensures
            r == (OpCode { opcode, name, takes_bytes, takes_cycles, addressing_mode }),
    {
        OpCode { opcode, name, takes_bytes, takes_cycles, addressing_mode }
    }
}

/// The entry in spec form, to keep the registry below readable.
pub open spec fn entry(
    opcode: u8,
    name: Mnemonic,
    takes_bytes: u16,
    takes_cycles: u16,
    addressing_mode: AddressingMode,
) -> OpCode {
    OpCode { opcode, name, takes_bytes, takes_cycles, addressing_mode }
}

/// The registry, in order.
pub open spec fn registry() -> Seq<OpCode> {
    seq![
        entry(0xA9, Mnemonic::Lda, 2, 2, AddressingMode::Immediate),
        entry(0xA5, Mnemonic::Lda, 2, 3, AddressingMode::ZeroPage),
        entry(0xB5, Mnemonic::Lda, 2, 4, AddressingMode::ZeroPage_X),
        entry(0xAD, Mnemonic::Lda, 3, 4, AddressingMode::Absolute),
        entry(0xBD, Mnemonic::Lda, 3, 4, AddressingMode::Absolute_X),
        entry(0xB9, Mnemonic::Lda, 3, 4, AddressingMode::Absolute_Y),
        entry(0xA1, Mnemonic::Lda, 2, 6, AddressingMode::Indirect_X),
        entry(0xB1, Mnemonic::Lda, 2, 5, AddressingMode::Indirect_Y),
        entry(0x85, Mnemonic::Sta, 2, 3, AddressingMode::ZeroPage),
        entry(0x95, Mnemonic::Sta, 2, 4, AddressingMode::ZeroPage_X),
        entry(0x8D, Mnemonic::Sta, 3, 4, AddressingMode::Absolute),
        entry(0x9D, Mnemonic::Sta, 3, 5, AddressingMode::Absolute_X),
        entry(0x99, Mnemonic::Sta, 3, 5, AddressingMode::Absolute_Y),
        entry(0x81, Mnemonic::Sta, 2, 6, AddressingMode::Indirect_X),
        entry(0x91, Mnemonic::Sta, 2, 6, AddressingMode::Indirect_Y),
        entry(0xAA, Mnemonic::Tax, 1, 2, AddressingMode::NoneAddressing),
        entry(0xA8, Mnemonic::Tay, 1, 2, AddressingMode::NoneAddressing),
        entry(0xE8, Mnemonic::Inx, 1, 2, AddressingMode::NoneAddressing),
        entry(0x00, Mnemonic::Brk, 1, 7, AddressingMode::NoneAddressing),
    ]
}

/// The first entry of `table` whose opcode byte is `b`, if any.
pub open spec fn lookup_opcode(table: Seq<OpCode>, b: u8) -> Option<OpCode>
    decreases table.len(),
{
    if table.len() == 0 {
        None
    } else if table[0].opcode == b {
        Some(table[0])
    } else {
        lookup_opcode(table.drop_first(), b)
    }
}

/// Every entry of `table` has a length of one to three bytes.
pub open spec fn lengths_in_range(table: Seq<OpCode>) -> bool {
    forall|i: int| 0 <= i < table.len() ==> 1 <= #[trigger] table[i].takes_bytes <= 3
}

/// Builds the registry.
pub fn opcodes() -> (r: Vec<OpCode>)
    ensures
        r@ == registry(),
{
    let r = vec![
        OpCode::new(0xA9, Mnemonic::Lda, 2, 2, AddressingMode::Immediate),
        OpCode::new(0xA5, Mnemonic::Lda, 2, 3, AddressingMode::ZeroPage),
        OpCode::new(0xB5, Mnemonic::Lda, 2, 4, AddressingMode::ZeroPage_X),
        OpCode::new(0xAD, Mnemonic::Lda, 3, 4, AddressingMode::Absolute),
        OpCode::new(0xBD, Mnemonic::Lda, 3, 4, AddressingMode::Absolute_X),
        OpCode::new(0xB9, Mnemonic::Lda, 3, 4, AddressingMode::Absolute_Y),
        OpCode::new(0xA1, Mnemonic::Lda, 2, 6, AddressingMode::Indirect_X),
        OpCode::new(0xB1, Mnemonic::Lda, 2, 5, AddressingMode::Indirect_Y),
        OpCode::new(0x85, Mnemonic::Sta, 2, 3, AddressingMode::ZeroPage),
        OpCode::new(0x95, Mnemonic::Sta, 2, 4, AddressingMode::ZeroPage_X),
        OpCode::new(0x8D, Mnemonic::Sta, 3, 4, AddressingMode::Absolute),
        OpCode::new(0x9D, Mnemonic::Sta, 3, 5, AddressingMode::Absolute_X),
        OpCode::new(0x99, Mnemonic::Sta, 3, 5, AddressingMode::Absolute_Y),
        OpCode::new(0x81, Mnemonic::Sta, 2, 6, AddressingMode::Indirect_X),
        OpCode::new(0x91, Mnemonic::Sta, 2, 6, AddressingMode::Indirect_Y),
        OpCode::new(0xAA, Mnemonic::Tax, 1, 2, AddressingMode::NoneAddressing),
        OpCode::new(0xA8, Mnemonic::Tay, 1, 2, AddressingMode::NoneAddressing),
        OpCode::new(0xE8, Mnemonic::Inx, 1, 2, AddressingMode::NoneAddressing),
        OpCode::new(0x00, Mnemonic::Brk, 1, 7, AddressingMode::NoneAddressing),
    ];
    assert(r@ =~= registry());
    r
}

/// Looks `instruction` up in `table`, by equality of the opcode byte.
pub fn find_opcode(table: &Vec<OpCode>, instruction: u8) -> (r: Option<OpCode>)
    ensures
        r == lookup_opcode(table@, instruction),
{
    let mut i: usize = 0;
    assert(table@.skip(0) =~= table@);
    while i < table.len()
        invariant
            i <= table@.len(),
            lookup_opcode(table@, instruction) == lookup_opcode(table@.skip(i as int), instruction),
        decreases table@.len() - i,
    {
        assert(table@.skip(i as int).drop_first() =~= table@.skip(i + 1));
        if table[i].opcode == instruction {
            return Some(table[i]);
        }
        i = i + 1;
    }
    None
}

/// Looks `instruction` up in the registry.
pub fn find_opcode_by_instruction(instruction: u8) -> (r: Option<OpCode>)
    ensures
        r == lookup_opcode(registry(), instruction),
{
    let table = opcodes();
    find_opcode(&table, instruction)
}

} // verus!
