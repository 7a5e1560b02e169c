//! The machine: a program counter, 32 registers, a memory, and the chunks of
//! output written so far. [`Machine`] is its mathematical model and says what
//! one instruction does; [`State`] is the machine that runs.

use vstd::prelude::*;
use crate::alu::{alu, alu_spec, holds, holds_spec};
use crate::bitfield::{Reg, wrap};
use crate::decode::{decode, decode_spec};
use crate::instr::{AluOp, Condition, Instr, LoadKind, StoreKind, REGISTERS};
use crate::memory::{in_range, load, load_spec, read_bytes, read_word, store, store_spec, word_at};

verus! {

/// The register that holds the stack pointer.
pub const SP: Reg = 2;

/// The register that holds the number of the call, at an environment call.
pub const A0: Reg = 10;

/// The register that holds the address of the bytes to write.
pub const A1: Reg = 11;

/// The register that holds the number of bytes to write.
pub const A2: Reg = 12;

/// The address of the first instruction.
pub const ENTRY: u32 = 8;

/// The call that ends the program: the letters `EXIT` as one number.
pub const SYSCALL_EXIT: u32 = 0x4558_4954;

/// The call that writes bytes of memory to the output.
pub const SYSCALL_WRITE: u32 = 1;

/// Why an execution could not go on.
#[derive(Clone, Copy, Debug, PartialEq, Eq, Structural)]
pub enum Fault {
    /// The word, which is given, encodes no instruction of the machine.
    Decode(u32),
    /// An instruction fetch, a load, a store or a write call reached outside
    /// the memory.
    MemoryBounds,
    /// An environment call with a number, which is given, that stands for no
    /// call.
    Syscall(u32),
    /// The input is too short to hold the size of the zeroed region.
    Truncated,
    /// More instructions were executed than the counter can hold.
    CounterOverflow,
}

/// How the execution of one instruction ended.
#[derive(Clone, Copy, Debug, PartialEq, Eq, Structural)]
pub enum Status {
    /// The instruction could not be executed; the machine is as it was.
    Error(Fault),
    /// The instruction was executed, and the program goes on.
    Continue,
    /// The instruction was executed, and it ended the program.
    Finished,
}

/// The mathematical model of the machine.
pub struct Machine {
    /// The address of the next instruction.
    pub pc: u32,
    /// The 32 registers.
    pub regs: Seq<u32>,
    /// The memory.
    pub memory: Seq<u8>,
    /// The chunks of bytes written to the output, oldest first.
    pub output: Seq<Seq<u8>>,
}

impl Machine {
    /// There are 32 registers, and register 0 holds zero.
    pub open spec fn wf(self) -> bool {
        self.regs.len() == REGISTERS && self.regs[0] == 0
    }

    /// The machine as it starts on a memory image: at the entry address,
    /// all registers zero but the stack pointer, which holds the length of
    /// the memory (modulo 2^32), and nothing written yet.
    pub open spec fn initial(memory: Seq<u8>) -> Machine {
        Machine {
            pc: ENTRY,
            regs: Seq::new(REGISTERS as nat, |i: int| 0u32).update(
                SP as int,
                wrap(memory.len() as int),
            ),
            memory,
            output: Seq::empty(),
        }
    }

    /// The machine with `value` in register `reg`. Register 0 takes no
    /// value: a write to it changes nothing.
    pub open spec fn set_reg(self, reg: Reg, value: u32) -> Machine {
        if reg == 0 {
            self
        } else {
            Machine { regs: self.regs.update(reg as int, value), ..self }
        }
    }

    /// The machine with its program counter at `pc`.
    pub open spec fn goto(self, pc: u32) -> Machine {
        Machine { pc, ..self }
    }

    /// The address of the instruction after the one at the program counter.
    pub open spec fn next_pc(self) -> u32 {
        wrap(self.pc + 4)
    }

    /// The address that lies `offset` bytes from the instruction at the
    /// program counter: what an upper immediate is added to.
    pub open spec fn relative(self, offset: int) -> u32 {
        wrap(self.pc + offset)
    }

    /// The address that lies `offset` bytes from the program counter as it
    /// stands after the fetch, which is [`Machine::next_pc`]: where a direct
    /// jump or a taken branch goes.
    pub open spec fn ahead(self, offset: int) -> u32 {
        wrap(self.next_pc() + offset)
    }

    /// The address that an indirect jump goes to: register `base` plus
    /// `offset`, with the lowest bit cleared. The program counter has no
    /// part in it.
    pub open spec fn indirect(self, base: Reg, offset: int) -> u32 {
        let sum = wrap(self.regs[base as int] + offset);
        (sum - sum % 2) as u32
    }

    /// The instruction word at the program counter, `None` where a byte of
    /// it lies outside the memory.
    pub open spec fn fetch(self) -> Option<u32> {
        if in_range(self.memory, self.pc, 4) {
            Some(word_at(self.memory, self.pc as int) as u32)
        } else {
            None
        }
    }

    /// What an environment call does. With the exit number in register
    /// `A0` it ends the program. With the write number there it appends the
    /// bytes of memory that registers `A1` (address) and `A2` (length) name
    /// to the output, or fails if one of them lies outside the memory. Any
    /// other number is a fault.
    pub open spec fn environment_call(self) -> (Machine, Status) {
        let number = self.regs[A0 as int];
        let address = self.regs[A1 as int];
        let length = self.regs[A2 as int];
        if number == SYSCALL_EXIT {
            (self.goto(self.next_pc()), Status::Finished)
        } else if number == SYSCALL_WRITE {
            if in_range(self.memory, address, length as nat) {
                (
                    Machine {
                        pc: self.next_pc(),
                        output: self.output.push(
                            self.memory.subrange(address as int, address + length),
                        ),
                        ..self
                    },
                    Status::Continue,
                )
            } else {
                (self, Status::Error(Fault::MemoryBounds))
            }
        } else {
            (self, Status::Error(Fault::Syscall(number)))
        }
    }

    /// What a load does: it reads memory at register `base` plus `offset`
    /// into `rd`, or fails where it reaches outside the memory.
    pub open spec fn load(self, kind: LoadKind, rd: Reg, base: Reg, offset: int) -> (
        Machine,
        Status,
    ) {
        match load_spec(kind, self.memory, wrap(self.regs[base as int] + offset)) {
            Some(value) => (self.set_reg(rd, value).goto(self.next_pc()), Status::Continue),
            None => (self, Status::Error(Fault::MemoryBounds)),
        }
    }

    /// What a store does: it writes the low bytes of register `source` to
    /// memory at register `base` plus `offset`, or fails where it reaches
    /// outside the memory.
    pub open spec fn store(self, width: StoreKind, base: Reg, source: Reg, offset: int) -> (
        Machine,
        Status,
    ) {
        match store_spec(
            width,
            self.memory,
            wrap(self.regs[base as int] + offset),
            self.regs[source as int],
        ) {
            Some(memory) => (Machine { pc: self.next_pc(), memory, ..self }, Status::Continue),
            None => (self, Status::Error(Fault::MemoryBounds)),
        }
    }

    /// The machine after an arithmetic instruction: `rd` holds what `op`
    /// makes of register `rs1` and `operand`.
    pub open spec fn compute(self, op: AluOp, rd: Reg, rs1: Reg, operand: u32) -> Machine {
        self.set_reg(rd, alu_spec(op, self.regs[rs1 as int], operand)).goto(self.next_pc())
    }

    /// The machine after a branch: `offset` bytes from the program counter
    /// after the fetch if the condition holds of the two registers, else at
    /// the next instruction.
    pub open spec fn branch(self, condition: Condition, rs1: Reg, rs2: Reg, offset: int) -> Machine {
        self.goto(
            if holds_spec(condition, self.regs[rs1 as int], self.regs[rs2 as int]) {
                self.ahead(offset)
            } else {
                self.next_pc()
            },
        )
    }

    /// The machine after a jump to `target`: `rd` holds the address of the
    /// next instruction.
    pub open spec fn link(self, rd: Reg, target: u32) -> Machine {
        self.set_reg(rd, self.next_pc()).goto(target)
    }

    /// What the instruction `instr`, fetched at the program counter, does to
    /// the machine. Where the status is an error the machine is unchanged.
    pub open spec fn execute(self, instr: Instr) -> (Machine, Status) {
        match instr {
            Instr::LoadUpper { rd, value } => (
                self.set_reg(rd, value).goto(self.next_pc()),
                Status::Continue,
            ),
            Instr::AddUpperPc { rd, value } => (
                self.set_reg(rd, self.relative(value as int)).goto(self.next_pc()),
                Status::Continue,
            ),
            Instr::Jump { rd, offset } => (
                self.link(rd, self.ahead(offset as int)),
                Status::Continue,
            ),
            Instr::JumpRegister { rd, base, offset } => (
                self.link(rd, self.indirect(base, offset as int)),
                Status::Continue,
            ),
            Instr::Branch { condition, rs1, rs2, offset } => (
                self.branch(condition, rs1, rs2, offset as int),
                Status::Continue,
            ),
            Instr::Load { kind, rd, base, offset } => self.load(kind, rd, base, offset as int),
            Instr::Store { width, base, source, offset } => self.store(
                width,
                base,
                source,
                offset as int,
            ),
            Instr::AluImmediate { op, rd, rs1, operand } => (
                self.compute(op, rd, rs1, operand),
                Status::Continue,
            ),
            Instr::AluRegister { op, rd, rs1, rs2 } => (
                self.compute(op, rd, rs1, self.regs[rs2 as int]),
                Status::Continue,
            ),
            Instr::EnvironmentCall => self.environment_call(),
        }
    }

    /// What one step does: it fetches the word at the program counter,
    /// decodes it and executes the instruction.
    pub open spec fn step(self) -> (Machine, Status) {
        match self.fetch() {
            None => (self, Status::Error(Fault::MemoryBounds)),
            Some(word) => match decode_spec(word) {
                None => (self, Status::Error(Fault::Decode(word))),
                Some(instr) => self.execute(instr),
            },
        }
    }
}

/// The views of the chunks of output.
pub open spec fn chunks(output: Seq<Vec<u8>>) -> Seq<Seq<u8>> {
    output.map_values(|chunk: Vec<u8>| chunk@)
}

/// The register file: 32 registers, the first of which holds zero at all
/// times.
struct Registers {
    slots: [u32; 32],
}

impl Registers {
    #[verifier::type_invariant]
    spec fn zero_holds_zero(&self) -> bool {
        self.slots[0] == 0
    }

    /// All registers zero.
    fn new() -> (registers: Registers)
        ensures
            registers.slots@ == Seq::new(REGISTERS as nat, |i: int| 0u32),
    {
        let registers = Registers { slots: [0u32; 32] };
        assert(registers.slots@ =~= Seq::new(REGISTERS as nat, |i: int| 0u32));
        registers
    }

    /// The value of register `reg`.
    fn get(&self, reg: Reg) -> (value: u32)
        requires
            reg < REGISTERS,
        ensures
            value == self.slots@[reg as int],
            self.slots@[0] == 0,
    {
        proof {
            use_type_invariant(self);
        }
        self.slots[reg]
    }

    /// Writes `value` to register `reg`, unless that is register 0.
    fn set(&mut self, reg: Reg, value: u32)
        requires
            reg < REGISTERS,
        ensures
            final(self).slots@ == if reg == 0 {
                old(self).slots@
            } else {
                old(self).slots@.update(reg as int, value)
            },
            final(self).slots@[0] == 0,
    {
        proof {
            use_type_invariant(&*self);
        }
        if reg != 0 {
            self.slots[reg] = value;
        }
    }
}

/// The machine that runs. It has 32 registers and register 0 holds zero, at
/// all times: [`State::pc`] says so of every machine.
pub struct State {
    pc: u32,
    regs: Registers,
    memory: Vec<u8>,
    output: Vec<Vec<u8>>,
}

impl View for State {
    type V = Machine;

    closed spec fn view(&self) -> Machine {
        Machine {
            pc: self.pc,
            regs: self.regs.slots@,
            memory: self.memory@,
            output: chunks(self.output@),
        }
    }
}

impl State {
    /// The machine as it starts on the memory image `memory`.
    pub fn new(memory: Vec<u8>) -> (state: State)
        ensures
            state@ == Machine::initial(memory@),
            state@.wf(),
    {
        let length: usize = memory.len();
        #[verifier::truncate]
        let top: u32 = length as u32;
        assert(top == (length as u64) % 0x1_0000_0000u64) by (bit_vector)
            requires
                top == length as u32,
        ;
        let mut regs: Registers = Registers::new();
        regs.set(SP, top);
        let state = State { pc: ENTRY, regs, memory, output: Vec::new() };
        assert(state@.regs =~= Machine::initial(memory@).regs);
        assert(state@.output =~= Machine::initial(memory@).output);
        state
    }

    /// Brings what holds of every machine into a proof: it has 32
    /// registers, and register 0 holds zero.
    pub(crate) fn always_wf(&self)
        ensures
            self@.wf(),
    {
        proof {
            use_type_invariant(&self.regs);
        }
    }

    /// Every machine has 32 registers.
    pub proof fn lemma_register_count(&self)
        ensures
            self@.regs.len() == REGISTERS,
    {
    }

    /// The program counter.
    pub fn pc(&self) -> (pc: u32)
        ensures
            pc == self@.pc,
            self@.wf(),
    {
        proof {
            use_type_invariant(&self.regs);
        }
        self.pc
    }

    /// Moves the program counter to `pc`.
    pub fn set_pc(&mut self, pc: u32)
        ensures
            final(self)@ == old(self)@.goto(pc),
            old(self)@.wf(),
            final(self)@.wf(),
    {
        proof {
            use_type_invariant(&self.regs);
        }
        self.pc = pc;
    }

    /// The value of register `reg`.
    pub fn reg(&self, reg: Reg) -> (value: u32)
        requires
            reg < REGISTERS,
        ensures
            value == self@.regs[reg as int],
            reg == 0 ==> value == 0,
            self@.wf(),
    {
        self.regs.get(reg)
    }

    /// Writes `value` to register `reg`. A write to register 0 is dropped:
    /// that register reads as zero whatever is written to it.
    pub fn set_reg(&mut self, reg: Reg, value: u32)
        requires
            reg < REGISTERS,
        ensures
            final(self)@ == old(self)@.set_reg(reg, value),
            final(self)@.regs[0] == 0,
            old(self)@.wf(),
            final(self)@.wf(),
    {
        proof {
            use_type_invariant(&self.regs);
        }
        self.regs.set(reg, value);
    }

    /// The memory.
    pub fn memory(&self) -> (memory: &Vec<u8>)
        ensures
            memory@ == self@.memory,
    {
        &self.memory
    }

    /// The chunks of bytes written to the output so far, oldest first.
    pub fn output(&self) -> (output: &Vec<Vec<u8>>)
        ensures
            chunks(output@) == self@.output,
    {
        &self.output
    }

    /// Gives up the machine for the chunks of bytes that it wrote.
    pub fn into_output(self) -> (output: Vec<Vec<u8>>)
        ensures
            chunks(output@) == self@.output,
    {
        self.output
    }

    /// Makes an environment call.
    fn environment_call(&mut self) -> (status: Status)
        ensures
            (final(self)@, status) == old(self)@.environment_call(),
    {
        let number: u32 = self.regs.get(A0);
        if number == SYSCALL_EXIT {
            self.pc = self.pc.wrapping_add(4);
            Status::Finished
        } else if number == SYSCALL_WRITE {
            match read_bytes(&self.memory, self.regs.get(A1), self.regs.get(A2)) {
                Some(bytes) => {
                    let ghost before = self.output@;
                    self.output.push(bytes);
                    assert(chunks(self.output@) =~= chunks(before).push(bytes@));
                    self.pc = self.pc.wrapping_add(4);
                    Status::Continue
                },
                None => Status::Error(Fault::MemoryBounds),
            }
        } else {
            Status::Error(Fault::Syscall(number))
        }
    }

    /// Jumps to `target` and leaves the address of the next instruction in
    /// `rd`.
    fn link(&mut self, rd: Reg, target: u32)
        requires
            rd < REGISTERS,
        ensures
            final(self)@ == old(self)@.link(rd, target),
    {
        let next: u32 = self.pc.wrapping_add(4);
        self.set_reg(rd, next);
        self.pc = target;
    }

    /// The address that an indirect jump goes to.
    fn indirect(&self, base: Reg, offset: i32) -> (target: u32)
        requires
            base < REGISTERS,
        ensures
            target == self@.indirect(base, offset as int),
    {
        let sum: u32 = self.regs.get(base).wrapping_add_signed(offset);
        let target: u32 = sum & !1u32;
        assert(target == sum - sum % 2) by (bit_vector)
            requires
                target == sum & !1u32,
        ;
        target
    }

    /// Executes a branch.
    fn branch(&mut self, condition: Condition, rs1: Reg, rs2: Reg, offset: i32)
        requires
            rs1 < REGISTERS,
            rs2 < REGISTERS,
        ensures
            final(self)@ == old(self)@.branch(condition, rs1, rs2, offset as int),
    {
        let next: u32 = self.pc.wrapping_add(4);
        if holds(condition, self.regs.get(rs1), self.regs.get(rs2)) {
            self.pc = next.wrapping_add_signed(offset);
        } else {
            self.pc = next;
        }
    }

    /// Executes a load.
    fn load(&mut self, kind: LoadKind, rd: Reg, base: Reg, offset: i32) -> (status: Status)
        requires
            rd < REGISTERS,
            base < REGISTERS,
        ensures
            (final(self)@, status) == old(self)@.load(kind, rd, base, offset as int),
    {
        let address: u32 = self.regs.get(base).wrapping_add_signed(offset);
        match load(kind, &self.memory, address) {
            Some(value) => {
                let next: u32 = self.pc.wrapping_add(4);
                self.set_reg(rd, value);
                self.pc = next;
                Status::Continue
            },
            None => Status::Error(Fault::MemoryBounds),
        }
    }

    /// Executes a store.
    fn store(&mut self, width: StoreKind, base: Reg, source: Reg, offset: i32) -> (status: Status)
        requires
            base < REGISTERS,
            source < REGISTERS,
        ensures
            (final(self)@, status) == old(self)@.store(width, base, source, offset as int),
    {
        let address: u32 = self.regs.get(base).wrapping_add_signed(offset);
        let value: u32 = self.regs.get(source);
        if store(width, &mut self.memory, address, value) {
            self.pc = self.pc.wrapping_add(4);
            Status::Continue
        } else {
            Status::Error(Fault::MemoryBounds)
        }
    }

    /// Executes an arithmetic instruction.
    fn compute(&mut self, op: AluOp, rd: Reg, rs1: Reg, operand: u32)
        requires
            rd < REGISTERS,
            rs1 < REGISTERS,
        ensures
            final(self)@ == old(self)@.compute(op, rd, rs1, operand),
    {
        let value: u32 = alu(op, self.regs.get(rs1), operand);
        let next: u32 = self.pc.wrapping_add(4);
        self.set_reg(rd, value);
        self.pc = next;
    }

    /// Executes `instr`, which was fetched at the program counter.
    pub fn execute(&mut self, instr: Instr) -> (status: Status)
        requires
            instr.wf(),
        ensures
            (final(self)@, status) == old(self)@.execute(instr),
            old(self)@.wf(),
            final(self)@.wf(),
    {
        proof {
            use_type_invariant(&self.regs);
        }
        match instr {
            Instr::LoadUpper { rd, value } => {
                let next: u32 = self.pc.wrapping_add(4);
                self.set_reg(rd, value);
                self.pc = next;
                Status::Continue
            },
            Instr::AddUpperPc { rd, value } => {
                let next: u32 = self.pc.wrapping_add(4);
                self.set_reg(rd, self.pc.wrapping_add(value));
                self.pc = next;
                Status::Continue
            },
            Instr::Jump { rd, offset } => {
                let target: u32 = self.pc.wrapping_add(4).wrapping_add_signed(offset);
                self.link(rd, target);
                Status::Continue
            },
            Instr::JumpRegister { rd, base, offset } => {
                let target: u32 = self.indirect(base, offset);
                self.link(rd, target);
                Status::Continue
            },
            Instr::Branch { condition, rs1, rs2, offset } => {
                self.branch(condition, rs1, rs2, offset);
                Status::Continue
            },
            Instr::Load { kind, rd, base, offset } => self.load(kind, rd, base, offset),
            Instr::Store { width, base, source, offset } => self.store(width, base, source, offset),
            Instr::AluImmediate { op, rd, rs1, operand } => {
                self.compute(op, rd, rs1, operand);
                Status::Continue
            },
            Instr::AluRegister { op, rd, rs1, rs2 } => {
                let operand: u32 = self.regs.get(rs2);
                self.compute(op, rd, rs1, operand);
                Status::Continue
            },
            Instr::EnvironmentCall => self.environment_call(),
        }
    }

    /// Executes the instruction at the program counter.
    pub fn step(&mut self) -> (status: Status)
        ensures
            (final(self)@, status) == old(self)@.step(),
            old(self)@.wf(),
            final(self)@.wf(),
    {
        proof {
            use_type_invariant(&self.regs);
        }
        match read_word(&self.memory, self.pc) {
            None => Status::Error(Fault::MemoryBounds),
            Some(word) => match decode(word) {
                None => Status::Error(Fault::Decode(word)),
                Some(instr) => self.execute(instr),
            },
        }
    }
}

} // verus!
