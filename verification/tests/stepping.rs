use riscv_zkvm_lib::instr::{AluOp, Condition, Instr, LoadKind, StoreKind};
use riscv_zkvm_lib::machine::{Fault, State, Status};

/// A memory of `length` zero bytes with `word` at `address`.
fn memory_with(length: usize, address: usize, word: u32) -> Vec<u8> {
    let mut memory = vec![0u8; length];
    memory[address..address + 4].copy_from_slice(&word.to_le_bytes());
    memory
}

#[test]
fn a_new_machine_starts_at_the_entry_with_the_stack_at_the_top() {
    let state = State::new(vec![0u8; 40]);
    assert_eq!(state.pc(), 8);
    assert_eq!(state.reg(2), 40);
    for reg in 0..32 {
        if reg != 2 {
            assert_eq!(state.reg(reg), 0);
        }
    }
    assert_eq!(state.memory().len(), 40);
    assert!(state.output().is_empty());
}

#[test]
fn a_write_to_register_zero_is_dropped() {
    let mut state = State::new(vec![0u8; 16]);
    state.set_reg(0, 0xdead_beef);
    assert_eq!(state.reg(0), 0);
    state.set_reg(1, 0xdead_beef);
    assert_eq!(state.reg(1), 0xdead_beef);
    assert_eq!(state.reg(0), 0);
}

#[test]
fn an_instruction_that_targets_register_zero_leaves_it_zero() {
    // addi x0, x0, 7
    let mut state = State::new(memory_with(16, 8, 0x0070_0013));
    assert_eq!(state.step(), Status::Continue);
    assert_eq!(state.reg(0), 0);
    assert_eq!(state.pc(), 12);
    // jal x0, -4 leaves no return address.
    let mut state = State::new(memory_with(16, 8, 0xffdf_f06f));
    assert_eq!(state.step(), Status::Continue);
    assert_eq!(state.reg(0), 0);
    assert_eq!(state.pc(), 8);
}

#[test]
fn an_indirect_jump_takes_no_account_of_the_program_counter() {
    // jalr x0, 4(x0), at address 100.
    let mut state = State::new(memory_with(128, 100, 0x0040_0067));
    state.set_pc(100);
    assert_eq!(state.step(), Status::Continue);
    assert_eq!(state.pc(), 4);
}

#[test]
fn an_indirect_jump_clears_the_lowest_bit_and_links() {
    let mut state = State::new(vec![0u8; 64]);
    state.set_pc(20);
    state.set_reg(5, 43);
    let status = state.execute(Instr::JumpRegister { rd: 1, base: 5, offset: -2 });
    assert_eq!(status, Status::Continue);
    assert_eq!(state.pc(), 40);
    assert_eq!(state.reg(1), 24);
    // The base is read before the return address is written.
    let mut state = State::new(vec![0u8; 64]);
    state.set_pc(20);
    state.set_reg(1, 48);
    state.execute(Instr::JumpRegister { rd: 1, base: 1, offset: 4 });
    assert_eq!(state.pc(), 52);
    assert_eq!(state.reg(1), 24);
}

#[test]
fn a_direct_jump_counts_from_the_program_counter_after_the_fetch() {
    // jal x1, 8, at address 100.
    let mut state = State::new(memory_with(128, 100, 0x0080_00ef));
    state.set_pc(100);
    assert_eq!(state.step(), Status::Continue);
    assert_eq!(state.pc(), 112);
    assert_eq!(state.reg(1), 104);
    // jal x1, 16, at the entry.
    let memory = memory_with(12, 8, 0x0100_00ef);
    let mut state = State::new(memory.clone());
    state.set_reg(2, 0);
    assert_eq!(state.step(), Status::Continue);
    assert_eq!(state.reg(1), 12);
    assert_eq!(state.pc(), 28);
    assert_eq!(state.memory(), &memory);
}

#[test]
fn an_upper_immediate_is_added_to_the_address_of_the_instruction() {
    // auipc x5, 1, at address 100.
    let mut state = State::new(memory_with(128, 100, 0x0000_1297));
    state.set_pc(100);
    assert_eq!(state.step(), Status::Continue);
    assert_eq!(state.reg(5), 0x1000 + 100);
    assert_eq!(state.pc(), 104);
    // lui x5, 0x12345
    let mut state = State::new(memory_with(16, 8, 0x1234_52b7));
    assert_eq!(state.step(), Status::Continue);
    assert_eq!(state.reg(5), 0x1234_5000);
    assert_eq!(state.pc(), 12);
}

#[test]
fn a_branch_is_taken_or_falls_through() {
    let branch = Instr::Branch { condition: Condition::Less, rs1: 1, rs2: 2, offset: -8 };
    let mut state = State::new(vec![0u8; 64]);
    state.set_pc(20);
    state.set_reg(1, 0xffff_ffff);
    state.set_reg(2, 1);
    assert_eq!(state.execute(branch), Status::Continue);
    assert_eq!(state.pc(), 16);
    let mut state = State::new(vec![0u8; 64]);
    state.set_pc(20);
    state.set_reg(1, 1);
    state.set_reg(2, 0xffff_ffff);
    assert_eq!(state.execute(branch), Status::Continue);
    assert_eq!(state.pc(), 24);
}

#[test]
fn addresses_wrap_modulo_two_to_the_32() {
    let mut state = State::new(vec![0u8; 64]);
    state.set_pc(4);
    assert_eq!(state.execute(Instr::Jump { rd: 1, offset: -12 }), Status::Continue);
    assert_eq!(state.pc(), 0xffff_fffc);
    assert_eq!(state.reg(1), 8);
    let mut state = State::new(vec![0u8; 64]);
    state.set_pc(0xffff_fffc);
    let branch = Instr::Branch { condition: Condition::Equal, rs1: 0, rs2: 0, offset: 8 };
    assert_eq!(state.execute(branch), Status::Continue);
    assert_eq!(state.pc(), 8);
    let mut state = State::new(vec![0u8; 64]);
    state.set_pc(0xffff_fffc);
    assert_eq!(state.execute(Instr::AddUpperPc { rd: 1, value: 0x1000 }), Status::Continue);
    assert_eq!(state.reg(1), 0xffc);
    assert_eq!(state.pc(), 0);
    let mut state = State::new(vec![0u8; 64]);
    state.set_reg(1, 0xffff_ffff);
    let load = Instr::Load { kind: LoadKind::ByteUnsigned, rd: 3, base: 1, offset: 5 };
    state.execute(Instr::Store { width: StoreKind::Byte, base: 1, source: 1, offset: 5 });
    assert_eq!(state.memory()[4], 0xff);
    assert_eq!(state.execute(load), Status::Continue);
    assert_eq!(state.reg(3), 0xff);
}

#[test]
fn a_store_then_a_load_returns_the_stored_pattern() {
    let mut state = State::new(vec![0u8; 64]);
    state.set_reg(1, 32);
    state.set_reg(2, 0x89ab_cdef);
    let status = state.execute(Instr::Store {
        width: StoreKind::Word,
        base: 1,
        source: 2,
        offset: -4,
    });
    assert_eq!(status, Status::Continue);
    assert_eq!(state.pc(), 12);
    assert_eq!(&state.memory()[28..32], &[0xef, 0xcd, 0xab, 0x89]);
    state.execute(Instr::Load { kind: LoadKind::Word, rd: 3, base: 1, offset: -4 });
    assert_eq!(state.reg(3), 0x89ab_cdef);
    state.execute(Instr::Store { width: StoreKind::Half, base: 1, source: 2, offset: 0 });
    state.execute(Instr::Load { kind: LoadKind::HalfUnsigned, rd: 4, base: 1, offset: 0 });
    state.execute(Instr::Load { kind: LoadKind::Half, rd: 5, base: 1, offset: 0 });
    assert_eq!(state.reg(4), 0xcdef);
    assert_eq!(state.reg(5), 0xffff_cdef);
    state.execute(Instr::Store { width: StoreKind::Byte, base: 1, source: 2, offset: 8 });
    state.execute(Instr::Load { kind: LoadKind::ByteUnsigned, rd: 6, base: 1, offset: 8 });
    state.execute(Instr::Load { kind: LoadKind::Byte, rd: 7, base: 1, offset: 8 });
    assert_eq!(state.reg(6), 0xef);
    assert_eq!(state.reg(7), 0xffff_ffef);
    assert_eq!(state.pc(), 8 + 4 * 8);
}

#[test]
fn arithmetic_instructions_write_their_result() {
    let mut state = State::new(vec![0u8; 64]);
    state.set_reg(1, 0xffff_ffff);
    state.set_reg(2, 2);
    state.execute(Instr::AluRegister { op: AluOp::Add, rd: 3, rs1: 1, rs2: 2 });
    assert_eq!(state.reg(3), 1);
    state.execute(Instr::AluImmediate { op: AluOp::Add, rd: 4, rs1: 2, operand: 0xffff_fffd });
    assert_eq!(state.reg(4), 0xffff_ffff);
    state.execute(Instr::AluRegister { op: AluOp::Less, rd: 5, rs1: 1, rs2: 2 });
    assert_eq!(state.reg(5), 1);
    state.execute(Instr::AluRegister { op: AluOp::LessUnsigned, rd: 6, rs1: 1, rs2: 2 });
    assert_eq!(state.reg(6), 0);
    assert_eq!(state.pc(), 24);
}

#[test]
fn a_fault_leaves_the_machine_as_it_was() {
    let mut state = State::new(memory_with(16, 8, 0xffff_ffff));
    assert_eq!(state.step(), Status::Error(Fault::Decode(0xffff_ffff)));
    assert_eq!(state.pc(), 8);
    // lw x5, 0(x6) with x6 far outside the memory.
    let mut state = State::new(memory_with(16, 8, 0x0003_2283));
    state.set_reg(6, 0xffff_ffff);
    assert_eq!(state.step(), Status::Error(Fault::MemoryBounds));
    assert_eq!(state.pc(), 8);
    assert_eq!(state.reg(5), 0);
    // sw x5, 0(x6) with only three bytes left.
    let mut state = State::new(memory_with(16, 8, 0x0053_2023));
    state.set_reg(6, 13);
    state.set_reg(5, 0xffff_ffff);
    assert_eq!(state.step(), Status::Error(Fault::MemoryBounds));
    assert_eq!(state.pc(), 8);
    assert_eq!(&state.memory()[12..16], &[0, 0, 0, 0]);
}

#[test]
fn a_fetch_outside_the_memory_is_a_fault() {
    let mut state = State::new(vec![0u8; 10]);
    assert_eq!(state.step(), Status::Error(Fault::MemoryBounds));
    let mut state = State::new(Vec::new());
    assert_eq!(state.step(), Status::Error(Fault::MemoryBounds));
}

#[test]
fn the_exit_call_finishes() {
    let mut state = State::new(memory_with(16, 8, 0x0000_0073));
    state.set_reg(10, 0x4558_4954);
    assert_eq!(state.step(), Status::Finished);
    assert_eq!(state.pc(), 12);
}

#[test]
fn the_write_call_emits_bytes_of_memory() {
    let mut memory = memory_with(32, 8, 0x0000_0073);
    memory[20..25].copy_from_slice(b"hello");
    let mut state = State::new(memory);
    state.set_reg(10, 1);
    state.set_reg(11, 20);
    state.set_reg(12, 5);
    assert_eq!(state.step(), Status::Continue);
    assert_eq!(state.pc(), 12);
    assert_eq!(state.output(), &vec![b"hello".to_vec()]);
    // A second call appends a second chunk; an empty one counts.
    state.set_pc(8);
    state.set_reg(11, 32);
    state.set_reg(12, 0);
    assert_eq!(state.step(), Status::Continue);
    assert_eq!(state.output(), &vec![b"hello".to_vec(), Vec::new()]);
}

#[test]
fn the_write_call_fails_outside_the_memory() {
    let mut state = State::new(memory_with(32, 8, 0x0000_0073));
    state.set_reg(10, 1);
    state.set_reg(11, 30);
    state.set_reg(12, 3);
    assert_eq!(state.step(), Status::Error(Fault::MemoryBounds));
    assert_eq!(state.pc(), 8);
    assert!(state.output().is_empty());
}

#[test]
fn an_unknown_call_is_a_fault() {
    let mut state = State::new(memory_with(16, 8, 0x0000_0073));
    assert_eq!(state.step(), Status::Error(Fault::Syscall(0)));
    state.set_reg(10, 2);
    assert_eq!(state.step(), Status::Error(Fault::Syscall(2)));
    assert_eq!(state.pc(), 8);
}
