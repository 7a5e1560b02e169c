//! What holds of the machine whatever the program: laws about the zero
//! register, wrapping arithmetic, memory, jumps, and the ends of a run.

use vstd::prelude::*;
use vstd::arithmetic::power2::{lemma2_to64, pow2};
use crate::alu::{alu_spec, holds_spec};
use crate::bitfield::{lemma_field_bound, signed, twos, wrap, Reg};
use crate::decode::{decode_spec, known_opcode_spec, ECALL};
use crate::instr::{AluOp, Condition, Instr, LoadKind, StoreKind, REGISTERS};
use crate::machine::{Fault, Machine, Status, A0, ENTRY, SP, SYSCALL_EXIT};
use crate::memory::{in_range, load_spec, load_width, store_spec, store_width, word_at};
use crate::run::{bss_size, image_spec, later, riscv_spec, BSS_LIMIT, COUNTER_MAX};

verus! {

/// A write to register 0 changes nothing.
pub proof fn lemma_zero_register_takes_no_value(m: Machine, value: u32)
    ensures
        m.set_reg(0, value) == m,
{
}

/// Every instruction that the decoder hands out names registers that exist.
pub proof fn lemma_decoded_is_wf(word: u32)
    ensures
        decode_spec(word) matches Some(instr) ==> instr.wf(),
{
    lemma2_to64();
    lemma_field_bound(word, 7, 5);
    lemma_field_bound(word, 15, 5);
    lemma_field_bound(word, 20, 5);
}

/// No instruction changes register 0: it holds zero after the instruction if
/// it did before.
pub proof fn lemma_execute_keeps_zero_register(m: Machine, instr: Instr)
    requires
        m.wf(),
        instr.wf(),
    ensures
        m.execute(instr).0.wf(),
{
}

/// No step changes register 0.
pub proof fn lemma_step_keeps_zero_register(m: Machine)
    requires
        m.wf(),
    ensures
        m.step().0.wf(),
{
    match m.fetch() {
        None => {},
        Some(word) => {
            lemma_decoded_is_wf(word);
            match decode_spec(word) {
                None => {},
                Some(instr) => {
                    lemma_execute_keeps_zero_register(m, instr);
                },
            }
        },
    }
}

/// Register 0 holds zero at the end of every run that starts with zero
/// there.
pub proof fn lemma_run_keeps_zero_register(m: Machine, fuel: nat)
    requires
        m.wf(),
    ensures
        m.run(fuel).0.wf(),
    decreases fuel,
{
    if fuel > 0 {
        lemma_step_keeps_zero_register(m);
        if m.step().1 == Status::Continue {
            lemma_run_keeps_zero_register(m.step().0, (fuel - 1) as nat);
        }
    }
}

/// The two readings of a pattern differ by a multiple of 2^32, and the
/// signed reading lies between -2^31 and 2^31.
pub proof fn lemma_signed_is_congruent(x: u32)
    ensures
        (signed(x) - x) % 0x1_0000_0000 == 0,
        -0x8000_0000 <= signed(x) < 0x8000_0000,
        wrap(signed(x)) == x,
{
}

/// Sums and differences wrap: the result is congruent modulo 2^32 to the
/// true sum or difference, whichever way the operands are read.
pub proof fn lemma_sum_wraps(a: u32, b: u32)
    ensures
        (alu_spec(AluOp::Add, a, b) - (a + b)) % 0x1_0000_0000 == 0,
        (signed(alu_spec(AluOp::Add, a, b)) - (signed(a) + signed(b))) % 0x1_0000_0000 == 0,
        (alu_spec(AluOp::Sub, a, b) - (a - b)) % 0x1_0000_0000 == 0,
        (signed(alu_spec(AluOp::Sub, a, b)) - (signed(a) - signed(b))) % 0x1_0000_0000 == 0,
{
}

/// Adding an immediate wraps: with the immediate `i` given as its 32-bit
/// pattern, the result is congruent modulo 2^32 to the register plus `i`.
pub proof fn lemma_add_immediate_wraps(a: u32, i: int)
    ensures
        (alu_spec(AluOp::Add, a, wrap(i)) - (a + i)) % 0x1_0000_0000 == 0,
{
}

/// A shift left wraps: the result is congruent modulo 2^32 to the first
/// operand times two to the amount.
pub proof fn lemma_shift_left_wraps(a: u32, b: u32)
    ensures
        (alu_spec(AluOp::ShiftLeft, a, b) - a * pow2((b % 32) as nat)) % 0x1_0000_0000 == 0,
{
    let product: int = a * pow2((b % 32) as nat);
    assert((product % 0x1_0000_0000 - product) % 0x1_0000_0000 == 0) by {
        vstd::arithmetic::div_mod::lemma_mod_twice(product, 0x1_0000_0000);
        vstd::arithmetic::div_mod::lemma_sub_mod_noop(product % 0x1_0000_0000, product, 0x1_0000_0000);
    }
}

/// The signed comparison reads both patterns as two's complement, the
/// unsigned one as plain numbers. So they agree where the two operands have
/// the same top bit, and differ where they do not.
pub proof fn lemma_less_reads_twos_complement(a: u32, b: u32)
    ensures
        alu_spec(AluOp::Less, a, b) == 1 <==> signed(a) < signed(b),
        alu_spec(AluOp::LessUnsigned, a, b) == 1 <==> a < b,
        (a < 0x8000_0000) == (b < 0x8000_0000) ==> alu_spec(AluOp::Less, a, b) == alu_spec(
            AluOp::LessUnsigned,
            a,
            b,
        ),
        (a < 0x8000_0000) != (b < 0x8000_0000) ==> alu_spec(AluOp::Less, a, b) != alu_spec(
            AluOp::LessUnsigned,
            a,
            b,
        ),
{
}

/// What a load of kind `kind` makes of the low bytes of `value`.
pub open spec fn widened(kind: LoadKind, value: u32) -> u32 {
    match kind {
        LoadKind::Byte => wrap(twos(value as int % 0x100, 8)),
        LoadKind::Half => wrap(twos(value as int % 0x1_0000, 16)),
        LoadKind::Word => value,
        LoadKind::ByteUnsigned => (value % 0x100) as u32,
        LoadKind::HalfUnsigned => (value % 0x1_0000) as u32,
    }
}

/// A load reads back what a store of the same width wrote at the same
/// address: the low bytes of the value stored, widened as the load does.
pub proof fn lemma_load_reads_what_store_wrote(
    width: StoreKind,
    kind: LoadKind,
    memory: Seq<u8>,
    address: u32,
    value: u32,
)
    requires
        load_width(kind) == store_width(width),
        in_range(memory, address, store_width(width)),
    ensures
        store_spec(width, memory, address, value) matches Some(after) && load_spec(
            kind,
            after,
            address,
        ) == Some(widened(kind, value)),
{
    let b0: int = value as int % 0x100;
    let b1: int = value as int / 0x100 % 0x100;
    let b2: int = value as int / 0x1_0000 % 0x100;
    let b3: int = value as int / 0x100_0000;
    assert(b0 + 0x100 * b1 == value as int % 0x1_0000);
    assert(b0 + 0x100 * b1 + 0x1_0000 * b2 + 0x100_0000 * b3 == value);
}

/// A store instruction followed by a load instruction of the same width,
/// base and offset leaves in the load's register what the store wrote.
pub proof fn lemma_store_then_load(
    m: Machine,
    width: StoreKind,
    kind: LoadKind,
    base: Reg,
    source: Reg,
    rd: Reg,
    offset: int,
)
    requires
        m.wf(),
        0 < rd < REGISTERS,
        base < REGISTERS,
        source < REGISTERS,
        load_width(kind) == store_width(width),
        m.store(width, base, source, offset).1 == Status::Continue,
    ensures
        ({
            let stored = m.store(width, base, source, offset).0;
            let loaded = stored.load(kind, rd, base, offset);
            &&& loaded.1 == Status::Continue
            &&& loaded.0.regs[rd as int] == widened(kind, m.regs[source as int])
        }),
{
    let address = wrap(m.regs[base as int] + offset);
    lemma_load_reads_what_store_wrote(width, kind, m.memory, address, m.regs[source as int]);
}

/// The target of an indirect jump is made of a register and the offset
/// alone: the same jump from any other address goes to the same place.
pub proof fn lemma_indirect_jump_ignores_pc(m: Machine, pc: u32, rd: Reg, base: Reg, offset: i32)
    ensures
        m.execute(Instr::JumpRegister { rd, base, offset }).0.pc == m.indirect(base, offset as int),
        m.goto(pc).execute(Instr::JumpRegister { rd, base, offset }).0.pc == m.execute(
            Instr::JumpRegister { rd, base, offset },
        ).0.pc,
{
}

/// The target of a direct jump and of a taken branch is counted from the
/// program counter after the fetch, which is also the return address. An
/// upper immediate is added to the address of the instruction itself.
pub proof fn lemma_direct_jump_adds_pc(
    m: Machine,
    rd: Reg,
    offset: i32,
    value: u32,
    condition: Condition,
    rs1: Reg,
    rs2: Reg,
)
    requires
        m.wf(),
        0 < rd < REGISTERS,
    ensures
        m.execute(Instr::Jump { rd, offset }).0.pc == wrap(m.pc + 4 + offset),
        m.execute(Instr::Jump { rd, offset }).0.regs[rd as int] == wrap(m.pc + 4),
        m.execute(Instr::Branch { condition, rs1, rs2, offset }).0.pc == if holds_spec(
            condition,
            m.regs[rs1 as int],
            m.regs[rs2 as int],
        ) {
            wrap(m.pc + 4 + offset)
        } else {
            wrap(m.pc + 4)
        },
        m.execute(Instr::AddUpperPc { rd, value }).0.regs[rd as int] == wrap(m.pc + value),
        m.execute(Instr::AddUpperPc { rd, value }).0.pc == wrap(m.pc + 4),
{
}

/// A run ends at its first instruction if that is an environment call with
/// the exit number: the count is 1.
pub proof fn lemma_exit_counts_one(m: Machine, fuel: nat)
    requires
        fuel > 0,
        m.fetch() == Some(ECALL),
        m.regs[A0 as int] == SYSCALL_EXIT,
    ensures
        m.run(fuel).1 == Ok::<nat, Fault>(1),
{
}

/// A fault ends the run: where a step fails, the run ends there with that
/// fault, and nothing is counted.
pub proof fn lemma_fault_ends_run(m: Machine, fuel: nat, fault: Fault)
    requires
        fuel > 0,
        m.step().1 == Status::Error(fault),
    ensures
        m.run(fuel) == (m, Err::<nat, Fault>(fault)),
{
}

/// A run whose first word encodes no instruction ends at once with a decode
/// fault.
pub proof fn lemma_unknown_instruction_ends_run(m: Machine, fuel: nat, word: u32)
    requires
        fuel > 0,
        m.fetch() == Some(word),
        decode_spec(word) is None,
    ensures
        m.run(fuel) == (m, Err::<nat, Fault>(Fault::Decode(word))),
{
}

/// A step fails only for a word that encodes nothing, an access outside the
/// memory, or an unknown call.
pub proof fn lemma_step_faults(m: Machine)
    ensures
        m.step().1 matches Status::Error(fault) ==> (fault is Decode || fault is MemoryBounds
            || fault is Syscall) && m.step().0 == m,
{
}

/// The machine after `steps` steps.
pub open spec fn after(m: Machine, steps: nat) -> Machine
    decreases steps,
{
    if steps == 0 {
        m
    } else {
        after(m.step().0, (steps - 1) as nat)
    }
}

/// Whether each of the first `steps` steps is executed and lets the program
/// go on.
pub open spec fn goes_on(m: Machine, steps: nat) -> bool
    decreases steps,
{
    steps == 0 || (m.step().1 == Status::Continue && goes_on(m.step().0, (steps - 1) as nat))
}

/// A run counts the instructions executed. It ends with the count `count`
/// exactly where the first `count - 1` steps go on and the next one ends the
/// program; it then leaves the machine as it is after `count` steps. So no
/// run has a count once a step has failed.
pub proof fn lemma_run_counts_steps(m: Machine, fuel: nat, count: nat)
    ensures
        m.run(fuel).1 == Ok::<nat, Fault>(count) <==> 1 <= count <= fuel && goes_on(
            m,
            (count - 1) as nat,
        ) && after(m, (count - 1) as nat).step().1 == Status::Finished,
        m.run(fuel).1 == Ok::<nat, Fault>(count) ==> m.run(fuel).0 == after(m, count),
    decreases fuel,
{
    if fuel > 0 {
        let next = m.step().0;
        if m.step().1 == Status::Continue {
            if count >= 1 {
                lemma_run_counts_steps(next, (fuel - 1) as nat, (count - 1) as nat);
                assert(after(m, count) == after(next, (count - 1) as nat));
            } else {
                lemma_run_counts_steps(next, (fuel - 1) as nat, 0);
            }
        } else {
            assert(after(next, 0) == next);
            assert(after(m, 1) == after(next, 0));
        }
    }
}

/// A run ends with the fault of the first step that fails, where the steps
/// before it go on; it then leaves the machine as it was before that step.
pub proof fn lemma_run_ends_at_first_fault(m: Machine, fuel: nat, steps: nat, fault: Fault)
    requires
        steps < fuel,
        goes_on(m, steps),
        after(m, steps).step().1 == Status::Error(fault),
    ensures
        m.run(fuel) == (after(m, steps), Err::<nat, Fault>(fault)),
    decreases steps,
{
    lemma_step_faults(after(m, steps));
    if steps > 0 {
        lemma_run_ends_at_first_fault(m.step().0, (fuel - 1) as nat, (steps - 1) as nat, fault);
    }
}

/// A run gives up exactly where the program has not ended after `fuel`
/// steps.
pub proof fn lemma_run_gives_up(m: Machine, fuel: nat)
    ensures
        m.run(fuel).1 == Err::<nat, Fault>(Fault::CounterOverflow) <==> goes_on(m, fuel),
    decreases fuel,
{
    if fuel > 0 {
        lemma_step_faults(m);
        lemma_run_gives_up(m.step().0, (fuel - 1) as nat);
    }
}

/// A run is made of its stretches: it ends as the run from the end of its
/// first stretch does, unless that stretch ended the program or failed.
pub proof fn lemma_run_in_stretches(m: Machine, count: nat, limit: nat)
    requires
        count <= limit,
    ensures
        ({
            let (end, counted, status) = m.run_to_write(count, limit);
            later(m.run((limit - count) as nat), count) == match status {
                Status::Continue => later(end.run((limit - counted) as nat), counted),
                Status::Finished => (end, Ok::<nat, Fault>(counted)),
                Status::Error(fault) => (end, Err::<nat, Fault>(fault)),
            }
        }),
        count <= m.run_to_write(count, limit).1 <= limit,
    decreases limit - count,
{
    if count < limit {
        lemma_step_faults(m);
        let (next, status) = m.step();
        if status == Status::Continue {
            if next.output.len() == m.output.len() {
                lemma_run_in_stretches(next, count + 1, limit);
            }
        }
    }
}

/// The machine that [`riscv_spec`] starts on for an input of at least four
/// bytes.
pub open spec fn start_of(input: Seq<u8>) -> Machine {
    Machine::initial(image_spec(input))
}

/// The whole run gives a count only for a program that ends: the count is
/// `count` exactly where the first `count - 1` steps go on and the next one
/// ends the program. So there is no count once a step has failed.
pub proof fn lemma_riscv_counts_only_finished_runs(input: Seq<u8>, count: nat)
    requires
        input.len() >= 4,
    ensures
        riscv_spec(input).0 == Ok::<nat, Fault>(count) <==> 1 <= count <= COUNTER_MAX && goes_on(
            start_of(input),
            (count - 1) as nat,
        ) && after(start_of(input), (count - 1) as nat).step().1 == Status::Finished,
{
    lemma_run_counts_steps(start_of(input), COUNTER_MAX as nat, count);
}

/// The whole run ends with the fault of the first step that fails, and what
/// was written before that step is its output.
pub proof fn lemma_riscv_ends_at_first_fault(input: Seq<u8>, steps: nat, fault: Fault)
    requires
        input.len() >= 4,
        steps < COUNTER_MAX,
        goes_on(start_of(input), steps),
        after(start_of(input), steps).step().1 == Status::Error(fault),
    ensures
        riscv_spec(input) == (Err::<nat, Fault>(fault), after(start_of(input), steps).output),
{
    lemma_run_ends_at_first_fault(start_of(input), COUNTER_MAX as nat, steps, fault);
}

/// Where the input asks for more zero bytes than the limit, the machine
/// starts on the input without its last four bytes and exactly 16 MiB of
/// zeros behind it, with the length of that memory (modulo 2^32) as its
/// stack pointer.
pub proof fn lemma_riscv_caps_zeroed_region(input: Seq<u8>)
    requires
        input.len() >= 4,
        word_at(input, input.len() - 4) > BSS_LIMIT,
    ensures
        start_of(input).memory == input.subrange(0, input.len() - 4) + Seq::new(
            16 * 1024 * 1024,
            |i: int| 0u8,
        ),
        start_of(input).memory.len() == input.len() - 4 + 16 * 1024 * 1024,
        start_of(input).regs[SP as int] == wrap(input.len() - 4 + 16 * 1024 * 1024),
        start_of(input).pc == ENTRY,
        start_of(input).wf(),
{
    assert(start_of(input).memory =~= input.subrange(0, input.len() - 4) + Seq::new(
        16 * 1024 * 1024,
        |i: int| 0u8,
    ));
}

/// A word whose opcode is none of the machine's encodes no instruction.
pub proof fn lemma_unknown_opcode_encodes_nothing(word: u32)
    requires
        !known_opcode_spec(word),
    ensures
        decode_spec(word) is None,
{
}

/// The image is the input without its last four bytes, and then zeros: as
/// many as those four bytes ask for, but never more than the limit.
pub proof fn lemma_image_layout(input: Seq<u8>)
    requires
        input.len() >= 4,
    ensures
        bss_size(input) <= BSS_LIMIT,
        image_spec(input).len() == input.len() - 4 + bss_size(input),
        forall|i: int| 0 <= i < input.len() - 4 ==> image_spec(input)[i] == input[i],
        forall|i: int| input.len() - 4 <= i < image_spec(input).len() ==> image_spec(input)[i] == 0,
{
}

} // verus!
