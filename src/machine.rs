//! The mathematical model of the machine: its state as plain values, and what
//! each operation does to that state. `crate::cpu::CPU` is proved against it.

use vstd::prelude::*;
use crate::opcodes::{AddressingMode, Mnemonic, OpCode, registry, lookup_opcode, lengths_in_range};

verus! {

/// Number of addressable bytes: the whole 16-bit address space, so that every
/// `u16` is a valid address.
pub const MEMORY_SIZE: usize = 0x10000;

/// Where `load` places a program.
pub const PROGRAM_START: u16 = 0x8000;

/// Where the 16-bit entry point that `reset` jumps to is stored.
pub const RESET_VECTOR: u16 = 0xFFFC;

/// Largest program that fits between `PROGRAM_START` and the end of memory.
pub const PROGRAM_CAPACITY: usize = 0x8000;

/// Bit of the status register that is set when a result is zero.
pub const ZERO_FLAG: u8 = 0b0000_0010;

/// Bit of the status register that is set when a result has its top bit set.
pub const NEGATIVE_FLAG: u8 = 0b1000_0000;

/// A fault that ends a run.
#[derive(Clone, Copy, Debug, PartialEq, Eq, Structural)]
pub enum CpuError {
    /// An address was asked for an instruction that has no memory operand.
    UnsupportedAddressingMode,
    /// The fetched byte has no entry in the opcode registry.
    UnimplementedOpcode(u8),
}

/// Whether the machine goes on after an instruction.
#[derive(Clone, Copy, Debug, PartialEq, Eq, Structural)]
pub enum ExecState {
    Running,
    Halted,
}

/// The machine's state as plain values.
pub struct MachineState {
    pub a: u8,
    pub x: u8,
    pub y: u8,
    pub status: u8,
    pub pc: u16,
    pub mem: Seq<u8>,
}

/// A state whose memory covers the address space.
pub open spec fn valid(s: MachineState) -> bool {
    s.mem.len() == MEMORY_SIZE
}

/// `a + k` in the 16-bit address space, wrapping around.
pub open spec fn offset16(a: u16, k: int) -> u16 {
    ((a as int + k) % 0x10000) as u16
}

/// `a + k` within one byte, wrapping around.
pub open spec fn offset8(a: u8, k: int) -> u8 {
    ((a as int + k) % 0x100) as u8
}

/// The little-endian word made of a low and a high byte.
pub open spec fn word(lo: u8, hi: u8) -> u16 {
    (hi as int * 256 + lo as int) as u16
}

/// The word stored at `addr`, its high byte at the next address.
pub open spec fn read_word(mem: Seq<u8>, addr: u16) -> u16 {
    word(mem[addr as int], mem[offset16(addr, 1) as int])
}

/// `mem` with the word `v` stored at `addr`, low byte first.
pub open spec fn write_word(mem: Seq<u8>, addr: u16, v: u16) -> Seq<u8> {
    mem.update(addr as int, (v % 256) as u8).update(offset16(addr, 1) as int, (v / 256) as u8)
}

/// The status register after a result `v`: Zero and Negative follow `v`, the
/// other bits stay.
pub open spec fn with_flags(status: u8, v: u8) -> u8 {
    (status & !(ZERO_FLAG | NEGATIVE_FLAG)) | (if v == 0 { ZERO_FLAG } else { 0u8 }) | (v
        & NEGATIVE_FLAG)
}

/// The flag update, stated bit by bit: Zero is set exactly when `v` is zero,
/// Negative exactly when the top bit of `v` is set, and every other bit of the
/// status register stays as it was.
pub proof fn lemma_flag_update(status: u8, v: u8)
    ensures
        (with_flags(status, v) & ZERO_FLAG != 0) == (v == 0),
        (with_flags(status, v) & NEGATIVE_FLAG != 0) == (v & NEGATIVE_FLAG != 0),
        with_flags(status, v) & !(ZERO_FLAG | NEGATIVE_FLAG) == status & !(ZERO_FLAG
            | NEGATIVE_FLAG),
{
    let f = with_flags(status, v);
    assert(f & 0x02u8 != 0 <==> v == 0) by (bit_vector)
        requires
            f == (status & !(0x02u8 | 0x80u8)) | (if v == 0 { 0x02u8 } else { 0u8 }) | (v & 0x80u8),
    ;
    assert(f & 0x80u8 != 0 <==> v & 0x80u8 != 0) by (bit_vector)
        requires
            f == (status & !(0x02u8 | 0x80u8)) | (if v == 0 { 0x02u8 } else { 0u8 }) | (v & 0x80u8),
    ;
    assert(f & !(0x02u8 | 0x80u8) == status & !(0x02u8 | 0x80u8)) by (bit_vector)
        requires
            f == (status & !(0x02u8 | 0x80u8)) | (if v == 0 { 0x02u8 } else { 0u8 }) | (v & 0x80u8),
    ;
}

/// The address an instruction in `mode` operates on, with `s.pc` at its first
/// operand byte.
pub open spec fn operand_address(s: MachineState, mode: AddressingMode) -> Result<u16, CpuError> {
    let operand = s.mem[s.pc as int];
    match mode {
        AddressingMode::Immediate => Ok(s.pc),
        AddressingMode::ZeroPage => Ok(operand as u16),
        AddressingMode::ZeroPage_X => Ok(offset8(operand, s.x as int) as u16),
        AddressingMode::ZeroPage_Y => Ok(offset8(operand, s.y as int) as u16),
        AddressingMode::Absolute => Ok(read_word(s.mem, s.pc)),
        AddressingMode::Absolute_X => Ok(offset16(read_word(s.mem, s.pc), s.x as int)),
        AddressingMode::Absolute_Y => Ok(offset16(read_word(s.mem, s.pc), s.y as int)),
        AddressingMode::Indirect_X => {
            let ptr = offset8(operand, s.x as int);
            Ok(word(s.mem[ptr as int], s.mem[offset8(ptr, 1) as int]))
        },
        AddressingMode::Indirect_Y => {
            let base = word(s.mem[operand as int], s.mem[offset8(operand, 1) as int]);
            Ok(offset16(base, s.y as int))
        },
        AddressingMode::NoneAddressing => Err(CpuError::UnsupportedAddressingMode),
    }
}

/// `s` with the program counter moved past the operand bytes of `op`.
pub open spec fn skip_operands(s: MachineState, op: OpCode) -> MachineState {
    MachineState { pc: offset16(s.pc, op.takes_bytes - 1), ..s }
}

/// What the instruction `op` does, with `s.pc` just past its opcode byte.
pub open spec fn execute(s: MachineState, op: OpCode) -> Result<(MachineState, ExecState), CpuError> {
    match op.name {
        Mnemonic::Lda => match operand_address(s, op.addressing_mode) {
            Ok(addr) => {
                let v = s.mem[addr as int];
                let t = MachineState { a: v, status: with_flags(s.status, v), ..s };
                Ok((skip_operands(t, op), ExecState::Running))
            },
            Err(e) => Err(e),
        },
        Mnemonic::Sta => match operand_address(s, op.addressing_mode) {
            Ok(addr) => {
                let t = MachineState { mem: s.mem.update(addr as int, s.a), ..s };
                Ok((skip_operands(t, op), ExecState::Running))
            },
            Err(e) => Err(e),
        },
        Mnemonic::Tax => Ok(
            (MachineState { x: s.a, status: with_flags(s.status, s.a), ..s }, ExecState::Running),
        ),
        // The flags follow X, not the new Y.
        Mnemonic::Tay => Ok(
            (MachineState { y: s.a, status: with_flags(s.status, s.x), ..s }, ExecState::Running),
        ),
        Mnemonic::Inx => {
            let x = offset8(s.x, 1);
            Ok((MachineState { x, status: with_flags(s.status, x), ..s }, ExecState::Running))
        },
        Mnemonic::Brk => Ok((s, ExecState::Halted)),
    }
}

/// One fetch-decode-execute cycle. A fault leaves the state as it was.
pub open spec fn step_spec(s: MachineState) -> Result<(MachineState, ExecState), CpuError> {
    let b = s.mem[s.pc as int];
    match lookup_opcode(registry(), b) {
        None => Err(CpuError::UnimplementedOpcode(b)),
        Some(op) => execute(MachineState { pc: offset16(s.pc, 1), ..s }, op),
    }
}

/// At most `fuel` cycles, stopping at a halt or a fault: the last state and
/// how the run ended (`Ok(ExecState::Running)` when the fuel ran out).
pub open spec fn run_spec(s: MachineState, fuel: nat) -> (MachineState, Result<ExecState, CpuError>)
    decreases fuel,
{
    if fuel == 0 {
        (s, Ok(ExecState::Running))
    } else {
        match step_spec(s) {
            Err(e) => (s, Err(e)),
            Ok((t, ExecState::Halted)) => (t, Ok(ExecState::Halted)),
            Ok((t, ExecState::Running)) => run_spec(t, (fuel - 1) as nat),
        }
    }
}

/// `mem` with `program` copied in from `PROGRAM_START`.
pub open spec fn place_program(mem: Seq<u8>, program: Seq<u8>) -> Seq<u8> {
    Seq::new(
        mem.len(),
        |i: int|
            if PROGRAM_START <= i < PROGRAM_START + program.len() {
                program[i - PROGRAM_START]
            } else {
                mem[i]
            },
    )
}

/// The state after loading `program`: the bytes at `PROGRAM_START`, and
/// `PROGRAM_START` itself as the reset vector.
pub open spec fn load_spec(s: MachineState, program: Seq<u8>) -> MachineState {
    MachineState {
        mem: write_word(place_program(s.mem, program), RESET_VECTOR, PROGRAM_START),
        ..s
    }
}

/// The state after a reset: A, X and status cleared, Y kept, the program
/// counter read from the reset vector.
pub open spec fn reset_spec(s: MachineState) -> MachineState {
    MachineState { a: 0, x: 0, status: 0, pc: read_word(s.mem, RESET_VECTOR), ..s }
}

/// A lookup finds an entry of the table, with the byte asked for.
pub proof fn lemma_lookup_found(table: Seq<OpCode>, b: u8)
    ensures
        match lookup_opcode(table, b) {
            Some(op) => op.opcode == b && exists|i: int| 0 <= i < table.len() && table[i] == op,
            None => forall|i: int| 0 <= i < table.len() ==> table[i].opcode != b,
        },
    decreases table.len(),
{
    if table.len() > 0 && table[0].opcode != b {
        lemma_lookup_found(table.drop_first(), b);
        match lookup_opcode(table, b) {
            Some(op) => {
                let i = choose|i: int| 0 <= i < table.len() - 1 && table.drop_first()[i] == op;
                assert(table[i + 1] == op);
            },
            None => {
                assert forall|i: int| 0 <= i < table.len() implies table[i].opcode != b by {
                    if i > 0 {
                        assert(table[i] == table.drop_first()[i - 1]);
                    }
                }
            },
        }
    }
}

/// Every entry of the registry is one to three bytes long.
pub proof fn lemma_registry_lengths()
    ensures
        lengths_in_range(registry()),
{
    let t = registry();
    assert forall|i: int| 0 <= i < t.len() implies 1 <= #[trigger] t[i].takes_bytes <= 3 by {
        assert(0 <= i < 19);
    }
}

/// An entry that the registry gives back is one to three bytes long.
pub proof fn lemma_lookup_length(b: u8)
    ensures
        lookup_opcode(registry(), b) matches Some(op) ==> 1 <= op.takes_bytes <= 3,
{
    lemma_registry_lengths();
    lemma_lookup_found(registry(), b);
}

/// Writing a word and reading it back at the same address gives the word,
/// at every address, the top one included (its high byte wraps to zero).
pub proof fn lemma_word_round_trip(mem: Seq<u8>, addr: u16, v: u16)
    requires
        mem.len() == MEMORY_SIZE,
    ensures
        read_word(write_word(mem, addr, v), addr) == v,
{
    let m = write_word(mem, addr, v);
    assert(offset16(addr, 1) != addr);
    assert(m[addr as int] == (v % 256) as u8);
    assert(m[offset16(addr, 1) as int] == (v / 256) as u8);
    assert((v / 256) as int * 256 + (v % 256) as int == v as int);
}

/// No two entries of the registry share an opcode byte.
pub proof fn lemma_registry_keys_unique()
    ensures
        forall|i: int, j: int|
            0 <= i < registry().len() && 0 <= j < registry().len() && #[trigger] registry()[i].opcode
                == #[trigger] registry()[j].opcode ==> i == j,
{
    let t = registry();
    assert(t.len() == 19);
    assert forall|i: int, j: int|
        0 <= i < t.len() && 0 <= j < t.len() && #[trigger] t[i].opcode == #[trigger] t[j].opcode implies i
            == j by {
        assert(0 <= i < 19 && 0 <= j < 19);
    }
}

/// A byte with no registry entry faults with `UnimplementedOpcode`: the cycle
/// and every run that reaches it stop there, with the state unchanged.
pub proof fn lemma_unknown_opcode_faults(s: MachineState, fuel: nat)
    requires
        lookup_opcode(registry(), s.mem[s.pc as int]) is None,
        fuel > 0,
    ensures
        step_spec(s) == Err::<(MachineState, ExecState), CpuError>(
            CpuError::UnimplementedOpcode(s.mem[s.pc as int]),
        ),
        run_spec(s, fuel) == (s, Err::<ExecState, CpuError>(
            CpuError::UnimplementedOpcode(s.mem[s.pc as int]),
        )),
{
}

/// After a load, a reset starts execution at `PROGRAM_START`, and leaves the
/// loaded program in place.
pub proof fn lemma_load_then_reset(s: MachineState, program: Seq<u8>)
    requires
        valid(s),
        program.len() <= PROGRAM_CAPACITY,
    ensures
        reset_spec(load_spec(s, program)).pc == PROGRAM_START,
        forall|i: int|
            0 <= i < program.len() && PROGRAM_START + i < RESET_VECTOR ==> reset_spec(
                load_spec(s, program),
            ).mem[PROGRAM_START + i] == program[i],
{
    let m = load_spec(s, program).mem;
    assert(m[RESET_VECTOR as int] == 0x00);
    assert(m[offset16(RESET_VECTOR, 1) as int] == 0x80);
}

} // verus!
