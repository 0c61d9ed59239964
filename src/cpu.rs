//! The machine itself: registers, memory, and the fetch-decode-execute loop.

use vstd::prelude::*;
use crate::machine::{
    CpuError, ExecState, MachineState, MEMORY_SIZE, NEGATIVE_FLAG, PROGRAM_CAPACITY, PROGRAM_START,
    RESET_VECTOR, ZERO_FLAG, lemma_flag_update, lemma_lookup_length, load_spec, offset8,
    operand_address, place_program, read_word, reset_spec, run_spec, step_spec, valid, with_flags,
    word, write_word,
};
use crate::opcodes::{AddressingMode, Mnemonic, OpCode, registry, opcodes, find_opcode};

verus! {

/// Facts about the bit patterns that the executable code builds.
proof fn lemma_word_bits(lo: u8, hi: u8)
    ensures
        ((hi as u16) << 8u16) | (lo as u16) == word(lo, hi),
{
    let l = lo as u16;
    let h = hi as u16;
    assert((h << 8u16) | l == h * 256 + l) by (bit_vector)
        requires
            l < 256,
            h < 256,
    ;
}

proof fn lemma_split_bits(v: u16)
    ensures
        (v & 0xff) as u8 == (v % 256) as u8,
        (v >> 8u16) as u8 == (v / 256) as u8,
{
    assert(v & 0xff == v % 256) by (bit_vector);
    assert(v >> 8u16 == v / 256) by (bit_vector);
}

/// Setting or clearing Zero, then Negative, gives `with_flags`.
proof fn lemma_flag_steps(s: u8, v: u8)
    ensures
        with_flags(s, v) == ({
            let t = if v == 0 { s | ZERO_FLAG } else { s & !ZERO_FLAG };
            if v & NEGATIVE_FLAG != 0 { t | NEGATIVE_FLAG } else { t & !NEGATIVE_FLAG }
        }),
{
    let f = with_flags(s, v);
    assert(f == ({
        let t = if v == 0 { s | 0x02u8 } else { s & !0x02u8 };
        if v & 0x80u8 != 0 { t | 0x80u8 } else { t & !0x80u8 }
    })) by (bit_vector)
        requires
            f == (s & !(0x02u8 | 0x80u8)) | (if v == 0 { 0x02u8 } else { 0u8 }) | (v & 0x80u8),
    ;
}

/// An 8-bit register machine with 64 KiB of memory.
pub struct CPU {
    pub register_a: u8,
    pub status: u8,
    pub program_counter: u16,
    pub register_x: u8,
    pub register_y: u8,
    memory: Vec<u8>,
    opcodes: Vec<OpCode>,
}

impl View for CPU {
    type V = MachineState;

    closed spec fn view(&self) -> MachineState {
        MachineState {
            a: self.register_a,
            x: self.register_x,
            y: self.register_y,
            status: self.status,
            pc: self.program_counter,
            mem: self.memory@,
        }
    }
}

impl CPU {
    /// The registry that the machine decodes with is the opcode registry.
    pub closed spec fn decodes_with_registry(&self) -> bool {
        self.opcodes@ == registry()
    }

    /// Memory covers the address space and decoding uses the registry.
    pub open spec fn wf(&self) -> bool {
        &&& valid(self@)
        &&& self.decodes_with_registry()
    }

    /// A machine with every register and every byte of memory zero.
    pub fn new() -> (r: Self)
        ensures
            r.wf(),
            r@ == (MachineState {
                a: 0,
                x: 0,
                y: 0,
                status: 0,
                pc: 0,
                mem: Seq::new(MEMORY_SIZE as nat, |i: int| 0u8),
            }),
    {
        let mut memory: Vec<u8> = Vec::with_capacity(MEMORY_SIZE);
        let mut i: usize = 0;
        while i < MEMORY_SIZE
            invariant
                i <= MEMORY_SIZE,
                memory@ == Seq::new(i as nat, |j: int| 0u8),
            decreases MEMORY_SIZE - i,
        {
            memory.push(0u8);
            i = i + 1;
            assert(memory@ =~= Seq::new(i as nat, |j: int| 0u8));
        }
        CPU {
            register_a: 0,
            status: 0,
            program_counter: 0,
            register_x: 0,
            register_y: 0,
            memory,
            opcodes: opcodes(),
        }
    }

    /// The byte at `addr`.
    pub fn mem_read(&self, addr: u16) -> (r: u8)
        requires
            self.wf(),
        ensures
            r == self@.mem[addr as int],
    {
        self.memory[addr as usize]
    }

    /// The little-endian word at `pos`; the high byte comes from `pos + 1`,
    /// wrapping from the top of memory to address zero.
    pub fn mem_read_u16(&self, pos: u16) -> (r: u16)
        requires
            self.wf(),
        ensures
            r == read_word(self@.mem, pos),
    {
        let lo = self.mem_read(pos);
        let hi = self.mem_read(pos.wrapping_add(1));
        proof {
            lemma_word_bits(lo, hi);
        }
        ((hi as u16) << 8u16) | (lo as u16)
    }

    /// Stores `data` at `addr`.
    pub fn mem_write(&mut self, addr: u16, data: u8)
        requires
            old(self).wf(),
        ensures
            final(self).wf(),
            final(self)@ == (MachineState { mem: old(self)@.mem.update(addr as int, data), ..old(self)@ }),
    {
        self.memory.set(addr as usize, data);
    }

    /// Stores `data` at `pos`, low byte first; the high byte goes to
    /// `pos + 1`, wrapping from the top of memory to address zero.
    pub fn mem_write_u16(&mut self, pos: u16, data: u16)
        requires
            old(self).wf(),
        ensures
            final(self).wf(),
            final(self)@ == (MachineState { mem: write_word(old(self)@.mem, pos, data), ..old(self)@ }),
    {
        proof {
            lemma_split_bits(data);
        }
        let hi = (data >> 8u16) as u8;
        let lo = (data & 0xff) as u8;
        self.mem_write(pos, lo);
        self.mem_write(pos.wrapping_add(1), hi);
    }

    /// Clears A, X and the status register and jumps to the reset vector.
    /// Y keeps its value.
    pub fn reset(&mut self)
        requires
            old(self).wf(),
        ensures
            final(self).wf(),
            final(self)@ == reset_spec(old(self)@),
    {
        self.register_a = 0;
        self.register_x = 0;
        self.status = 0;
        self.program_counter = self.mem_read_u16(RESET_VECTOR);
    }

    /// Copies `program` into memory from `PROGRAM_START` and points the reset
    /// vector there.
    pub fn load(&mut self, program: Vec<u8>)
        requires
            old(self).wf(),
            program@.len() <= PROGRAM_CAPACITY,
        ensures
            final(self).wf(),
            final(self)@ == load_spec(old(self)@, program@),
    {
        let ghost start = self@;
        let mut i: usize = 0;
        assert(place_program(start.mem, program@.take(0)) =~= start.mem);
        while i < program.len()
            invariant
                self.wf(),
                i <= program@.len() <= PROGRAM_CAPACITY,
                valid(start),
                self@ == (MachineState { mem: place_program(start.mem, program@.take(i as int)), ..start }),
            decreases program@.len() - i,
        {
            self.mem_write((PROGRAM_START as usize + i) as u16, program[i]);
            i = i + 1;
            assert(self@.mem =~= place_program(start.mem, program@.take(i as int)));
        }
        assert(program@.take(i as int) =~= program@);
        self.mem_write_u16(RESET_VECTOR, PROGRAM_START);
    }

    /// Loads `program`, resets, and runs until a halt or a fault.
    pub fn load_and_run(&mut self, program: Vec<u8>) -> (r: Result<ExecState, CpuError>)
        requires
            old(self).wf(),
            program@.len() <= PROGRAM_CAPACITY,
        ensures
            final(self).wf(),
            (final(self)@, r) == run_spec(
                reset_spec(load_spec(old(self)@, program@)),
                u64::MAX as nat,
            ),
    {
        self.load(program);
        self.reset();
        self.run()
    }

    /// The effective address for `mode`, with the program counter at the
    /// first operand byte. Fails for an instruction without a memory operand.
    pub fn get_operand_address(&self, mode: &AddressingMode) -> (r: Result<u16, CpuError>)
        requires
            self.wf(),
        ensures
            r == operand_address(self@, *mode),
    {
        let pc = self.program_counter;
        match mode {
            AddressingMode::Immediate => Ok(pc),
            AddressingMode::ZeroPage => Ok(self.mem_read(pc) as u16),
            AddressingMode::Absolute => Ok(self.mem_read_u16(pc)),
            AddressingMode::ZeroPage_X => {
                let pos = self.mem_read(pc);
                Ok(pos.wrapping_add(self.register_x) as u16)
            },
            AddressingMode::ZeroPage_Y => {
                let pos = self.mem_read(pc);
                Ok(pos.wrapping_add(self.register_y) as u16)
            },
            AddressingMode::Absolute_X => {
                let base = self.mem_read_u16(pc);
                Ok(base.wrapping_add(self.register_x as u16))
            },
            AddressingMode::Absolute_Y => {
                let base = self.mem_read_u16(pc);
                Ok(base.wrapping_add(self.register_y as u16))
            },
            AddressingMode::Indirect_X => {
                let base = self.mem_read(pc);
                let ptr = base.wrapping_add(self.register_x);
                let lo = self.mem_read(ptr as u16);
                let hi = self.mem_read(ptr.wrapping_add(1) as u16);
                proof {
                    lemma_word_bits(lo, hi);
                }
                Ok(((hi as u16) << 8u16) | (lo as u16))
            },
            AddressingMode::Indirect_Y => {
                let base = self.mem_read(pc);
                let lo = self.mem_read(base as u16);
                let hi = self.mem_read(base.wrapping_add(1) as u16);
                proof {
                    lemma_word_bits(lo, hi);
                }
                let deref_base = ((hi as u16) << 8u16) | (lo as u16);
                Ok(deref_base.wrapping_add(self.register_y as u16))
            },
            AddressingMode::NoneAddressing => Err(CpuError::UnsupportedAddressingMode),
        }
    }

    /// Sets Zero when `result` is zero and Negative when its top bit is set,
    /// clearing each otherwise; the other status bits stay.
    pub fn update_zero_and_negative_flags(&mut self, result: u8)
        requires
            old(self).wf(),
        ensures
            final(self).wf(),
            final(self)@ == (MachineState { status: with_flags(old(self)@.status, result), ..old(self)@ }),
            (final(self)@.status & ZERO_FLAG != 0) == (result == 0),
            (final(self)@.status & NEGATIVE_FLAG != 0) == (result & NEGATIVE_FLAG != 0),
            final(self)@.status & !(ZERO_FLAG | NEGATIVE_FLAG) == old(self)@.status & !(ZERO_FLAG
                | NEGATIVE_FLAG),
    {
        let s = self.status;
        if result == 0 {
            self.status = self.status | ZERO_FLAG;
        } else {
            self.status = self.status & !ZERO_FLAG;
        }
        if result & NEGATIVE_FLAG != 0 {
            self.status = self.status | NEGATIVE_FLAG;
        } else {
            self.status = self.status & !NEGATIVE_FLAG;
        }
        proof {
            lemma_flag_steps(s, result);
            lemma_flag_update(s, result);
        }
    }

    /// Loads the accumulator from the operand of an instruction in `mode`.
    /// A fault changes nothing.
    fn lda(&mut self, mode: &AddressingMode) -> (r: Result<(), CpuError>)
        requires
            old(self).wf(),
        ensures
            final(self).wf(),
            match operand_address(old(self)@, *mode) {
                Ok(addr) => {
                    let v = old(self)@.mem[addr as int];
                    r == Ok::<(), CpuError>(()) && final(self)@ == (MachineState {
                        a: v,
                        status: with_flags(old(self).status, v),
                        ..old(self)@
                    })
                },
                Err(e) => r == Err::<(), CpuError>(e) && final(self)@ == old(self)@,
            },
    {
        let addr = match self.get_operand_address(mode) {
            Ok(addr) => addr,
            Err(e) => return Err(e),
        };
        let value = self.mem_read(addr);
        self.register_a = value;
        self.update_zero_and_negative_flags(value);
        Ok(())
    }

    /// Stores the accumulator at the operand address of an instruction in
    /// `mode`. A fault changes nothing.
    fn sta(&mut self, mode: &AddressingMode) -> (r: Result<(), CpuError>)
        requires
            old(self).wf(),
        ensures
            final(self).wf(),
            match operand_address(old(self)@, *mode) {
                Ok(addr) => r == Ok::<(), CpuError>(()) && final(self)@ == (MachineState {
                    mem: old(self)@.mem.update(addr as int, old(self).register_a),
                    ..old(self)@
                }),
                Err(e) => r == Err::<(), CpuError>(e) && final(self)@ == old(self)@,
            },
    {
        let addr = match self.get_operand_address(mode) {
            Ok(addr) => addr,
            Err(e) => return Err(e),
        };
        self.mem_write(addr, self.register_a);
        Ok(())
    }

    /// Copies the accumulator into X; the flags follow X.
    fn tax(&mut self)
        requires
            old(self).wf(),
        ensures
            final(self).wf(),
            final(self)@ == (MachineState {
                x: old(self).register_a,
                status: with_flags(old(self).status, old(self).register_a),
                ..old(self)@
            }),
    {
        self.register_x = self.register_a;
        self.update_zero_and_negative_flags(self.register_x);
    }

    /// Copies the accumulator into Y; the flags follow X, which this
    /// instruction leaves as it is.
    fn tay(&mut self)
        requires
            old(self).wf(),
        ensures
            final(self).wf(),
            final(self)@ == (MachineState {
                y: old(self).register_a,
                status: with_flags(old(self).status, old(self).register_x),
                ..old(self)@
            }),
    {
        self.register_y = self.register_a;
        self.update_zero_and_negative_flags(self.register_x);
    }

    /// Increments X, wrapping from 0xFF to 0; the flags follow X.
    fn inx(&mut self)
        requires
            old(self).wf(),
        ensures
            final(self).wf(),
            final(self)@ == (MachineState {
                x: offset8(old(self).register_x, 1),
                status: with_flags(old(self).status, offset8(old(self).register_x, 1)),
                ..old(self)@
            }),
    {
        self.register_x = self.register_x.wrapping_add(1);
        self.update_zero_and_negative_flags(self.register_x);
    }

    /// Fetches, decodes and executes one instruction. On a fault the machine
    /// is left as it was before the instruction.
    pub fn step(&mut self) -> (r: Result<ExecState, CpuError>)
        requires
            old(self).wf(),
        ensures
            final(self).wf(),
            match step_spec(old(self)@) {
                Ok((s, e)) => r == Ok::<ExecState, CpuError>(e) && final(self)@ == s,
                Err(e) => r == Err::<ExecState, CpuError>(e) && final(self)@ == old(self)@,
            },
    {
        let pc = self.program_counter;
        let instruction = self.mem_read(pc);
        let op = match find_opcode(&self.opcodes, instruction) {
            Some(op) => op,
            None => return Err(CpuError::UnimplementedOpcode(instruction)),
        };
        proof {
            lemma_lookup_length(instruction);
        }
        self.program_counter = pc.wrapping_add(1);
        match op.name {
            Mnemonic::Lda => {
                match self.lda(&op.addressing_mode) {
                    Ok(()) => {},
                    Err(e) => {
                        self.program_counter = pc;
                        return Err(e);
                    },
                }
                self.program_counter = self.program_counter.wrapping_add(op.takes_bytes - 1);
            },
            Mnemonic::Sta => {
                match self.sta(&op.addressing_mode) {
                    Ok(()) => {},
                    Err(e) => {
                        self.program_counter = pc;
                        return Err(e);
                    },
                }
                self.program_counter = self.program_counter.wrapping_add(op.takes_bytes - 1);
            },
            Mnemonic::Tax => self.tax(),
            Mnemonic::Tay => self.tay(),
            Mnemonic::Inx => self.inx(),
            Mnemonic::Brk => return Ok(ExecState::Halted),
        }
        Ok(ExecState::Running)
    }

    /// Executes at most `max_steps` instructions, stopping at a halt or a
    /// fault. `Ok(ExecState::Running)` means the budget ran out first.
    pub fn run_with_limit(&mut self, max_steps: u64) -> (r: Result<ExecState, CpuError>)
        requires
            old(self).wf(),
        ensures
            final(self).wf(),
            (final(self)@, r) == run_spec(old(self)@, max_steps as nat),
    {
        let ghost start = self@;
        let mut remaining: u64 = max_steps;
        while remaining > 0
            invariant
                self.wf(),
                start == old(self)@,
                run_spec(self@, remaining as nat) == run_spec(start, max_steps as nat),
            decreases remaining,
        {
            let outcome = self.step();
            match outcome {
                Err(e) => {
                    return Err(e);
                },
                Ok(ExecState::Halted) => return Ok(ExecState::Halted),
                Ok(ExecState::Running) => {},
            }
            remaining = remaining - 1;
        }
        Ok(ExecState::Running)
    }

    /// Runs until a halt or a fault, within a budget of `u64::MAX`
    /// instructions.
    pub fn run(&mut self) -> (r: Result<ExecState, CpuError>)
        requires
            old(self).wf(),
        ensures
            final(self).wf(),
            (final(self)@, r) == run_spec(old(self)@, u64::MAX as nat),
    {
        self.run_with_limit(u64::MAX)
    }
}

} // verus!
