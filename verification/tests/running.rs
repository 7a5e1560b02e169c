use riscv_zkvm_lib::machine::{Fault, State, Status};
use riscv_zkvm_lib::run::{load_image, riscv};

/// An input: eight bytes of header, the words of `program`, `data` behind
/// them, and the size of the zeroed region.
fn input(program: &[u32], data: &[u8], bss: u32) -> Vec<u8> {
    let mut bytes = vec![0u8; 8];
    for word in program {
        bytes.extend_from_slice(&word.to_le_bytes());
    }
    bytes.extend_from_slice(data);
    bytes.extend_from_slice(&bss.to_le_bytes());
    bytes
}

const LUI_A0_EXIT: u32 = 0x4558_5537;
const ADDI_A0_EXIT: u32 = 0x9545_0513;
const ECALL: u32 = 0x0000_0073;

#[test]
fn a_lone_exit_call_counts_one() {
    let mut memory = vec![0u8; 12];
    memory[8..12].copy_from_slice(&ECALL.to_le_bytes());
    let mut state = State::new(memory);
    state.set_reg(10, 0x4558_4954);
    assert_eq!(state.run(), Ok(1));
}

#[test]
fn the_shortest_program_that_exits_counts_three() {
    let run = riscv(&input(&[LUI_A0_EXIT, ADDI_A0_EXIT, ECALL], &[], 0));
    assert_eq!(run.result, Ok(3));
    assert!(run.output.is_empty());
}

#[test]
fn an_unknown_first_instruction_ends_the_run_with_no_count() {
    let run = riscv(&input(&[0xffff_ffff, LUI_A0_EXIT, ADDI_A0_EXIT, ECALL], &[], 0));
    assert_eq!(run.result, Err(Fault::Decode(0xffff_ffff)));
    let mut state = State::new(input(&[0x0000_0000], &[], 0));
    assert_eq!(state.run(), Err(Fault::Decode(0)));
    assert_eq!(state.pc(), 8);
}

#[test]
fn store_then_branch_then_exit() {
    // lui a0, addi a0: the exit number; sw a0, 0(x0); beq x0, x0, 4, which
    // skips a word that encodes nothing; ecall.
    let program = [LUI_A0_EXIT, ADDI_A0_EXIT, 0x00a0_2023, 0x0000_0263, 0xffff_ffff, ECALL];
    let run = riscv(&input(&program, &[], 0));
    assert_eq!(run.result, Ok(5));
    let mut state = State::new(load_image(&input(&program, &[], 0)).unwrap());
    assert_eq!(state.run(), Ok(5));
    assert_eq!(&state.memory()[0..4], &[0x54, 0x49, 0x58, 0x45]);
    assert_eq!(state.pc(), 8 + 6 * 4);
    assert_eq!(state.reg(10), 0x4558_4954);
}

#[test]
fn the_loader_caps_the_zeroed_region() {
    let image = load_image(&input(&[ECALL], &[], 20_000_000)).unwrap();
    assert_eq!(image.len(), 12 + 16 * 1024 * 1024);
    assert_eq!(&image[8..12], &ECALL.to_le_bytes());
    assert!(image[12..].iter().all(|byte| *byte == 0));
}

#[test]
fn the_loader_appends_the_zeros_asked_for() {
    let image = load_image(&input(&[ECALL], &[7, 7], 5)).unwrap();
    assert_eq!(image, vec![0, 0, 0, 0, 0, 0, 0, 0, 0x73, 0, 0, 0, 7, 7, 0, 0, 0, 0, 0]);
    let image = load_image(&input(&[], &[], 16 * 1024 * 1024)).unwrap();
    assert_eq!(image.len(), 8 + 16 * 1024 * 1024);
    let image = load_image(&input(&[], &[], 16 * 1024 * 1024 + 1)).unwrap();
    assert_eq!(image.len(), 8 + 16 * 1024 * 1024);
    let image = load_image(&vec![0, 0, 0, 0]).unwrap();
    assert!(image.is_empty());
}

#[test]
fn the_loader_refuses_an_input_without_a_size() {
    assert_eq!(load_image(&Vec::new()), Err(Fault::Truncated));
    assert_eq!(load_image(&vec![1, 2, 3]), Err(Fault::Truncated));
    let run = riscv(&vec![1, 2, 3]);
    assert_eq!(run.result, Err(Fault::Truncated));
    assert!(run.output.is_empty());
}

#[test]
fn the_stack_pointer_starts_behind_the_zeroed_region() {
    // sw sp, 0(x0), then exit.
    let program = [0x0020_2023, LUI_A0_EXIT, ADDI_A0_EXIT, ECALL];
    let mut state = State::new(load_image(&input(&program, &[], 100)).unwrap());
    assert_eq!(state.run(), Ok(4));
    assert_eq!(&state.memory()[0..4], &(8u32 + 16 + 100).to_le_bytes());
}

#[test]
fn the_zeroed_region_can_be_read_and_written() {
    // addi x6, x0, 28; sw x6, 4(x6); lw x5, 4(x6); then exit.
    let program = [0x01c0_0313, 0x0063_2223, 0x0043_2283, LUI_A0_EXIT, ADDI_A0_EXIT, ECALL];
    let mut state = State::new(load_image(&input(&program, &[], 4)).unwrap());
    assert_eq!(state.memory().len(), 36);
    assert_eq!(state.run(), Ok(6));
    assert_eq!(state.reg(5), 28);
    // Without the region the store reaches outside the memory.
    let run = riscv(&input(&program, &[], 0));
    assert_eq!(run.result, Err(Fault::MemoryBounds));
}

#[test]
fn a_program_writes_its_output() {
    // addi a0, x0, 1; addi a1, x0, 44; addi a2, x0, 5; ecall; ecall again;
    // then exit.
    let program = [
        0x0010_0513,
        0x02c0_0593,
        0x0050_0613,
        ECALL,
        ECALL,
        LUI_A0_EXIT,
        ADDI_A0_EXIT,
        ECALL,
        0,
    ];
    let run = riscv(&input(&program, b"hello", 0));
    assert_eq!(run.result, Ok(8));
    assert_eq!(run.output, vec![b"hello".to_vec(), b"hello".to_vec()]);
}

#[test]
fn output_written_before_a_fault_is_kept() {
    // The write call, then a word that encodes nothing.
    let program = [0x0010_0513, 0x02c0_0593, 0x0050_0613, ECALL, 0xffff_ffff, 0, 0, 0, 0];
    let run = riscv(&input(&program, b"hello", 0));
    assert_eq!(run.result, Err(Fault::Decode(0xffff_ffff)));
    assert_eq!(run.output, vec![b"hello".to_vec()]);
}

#[test]
fn running_off_the_end_of_the_memory_is_a_fault() {
    // addi x1, x0, 5 and nothing behind it.
    let run = riscv(&input(&[0x0050_0093], &[], 0));
    assert_eq!(run.result, Err(Fault::MemoryBounds));
    let run = riscv(&vec![0, 0, 0, 0]);
    assert_eq!(run.result, Err(Fault::MemoryBounds));
}

#[test]
fn an_unknown_call_ends_the_run() {
    let run = riscv(&input(&[ECALL], &[], 0));
    assert_eq!(run.result, Err(Fault::Syscall(0)));
    // addi a0, x0, 5; ecall
    let run = riscv(&input(&[0x0050_0513, ECALL], &[], 0));
    assert_eq!(run.result, Err(Fault::Syscall(5)));
}

#[test]
fn a_loop_counts_every_instruction() {
    // addi x1, x0, 3; addi x1, x1, -1; bne x1, x0, -8; then exit.
    let program = [0x0030_0093, 0xfff0_8093, 0xfe00_9ce3, LUI_A0_EXIT, ADDI_A0_EXIT, ECALL];
    let run = riscv(&input(&program, &[], 0));
    assert_eq!(run.result, Ok(1 + 3 * 2 + 3));
}

#[test]
fn a_run_can_be_made_in_stretches_that_end_at_each_write() {
    // The write call twice, then exit.
    let program = [
        0x0010_0513,
        0x02c0_0593,
        0x0050_0613,
        ECALL,
        ECALL,
        LUI_A0_EXIT,
        ADDI_A0_EXIT,
        ECALL,
        0,
    ];
    let mut state = State::new(load_image(&input(&program, b"hello", 0)).unwrap());
    assert_eq!(state.run_to_write(0), (4, Status::Continue));
    assert_eq!(state.output(), &vec![b"hello".to_vec()]);
    assert_eq!(state.run_to_write(4), (5, Status::Continue));
    assert_eq!(state.output().len(), 2);
    assert_eq!(state.run_to_write(5), (8, Status::Finished));
    assert_eq!(state.output().len(), 2);
}

#[test]
fn a_stretch_does_not_count_the_instruction_that_fails() {
    // addi x1, x0, 5, then a word that encodes nothing.
    let mut state = State::new(load_image(&input(&[0x0050_0093, 0xffff_ffff], &[], 0)).unwrap());
    assert_eq!(state.run_to_write(0), (1, Status::Error(Fault::Decode(0xffff_ffff))));
    assert_eq!(state.pc(), 12);
    assert_eq!(state.run_to_write(1), (1, Status::Error(Fault::Decode(0xffff_ffff))));
}

#[test]
fn a_stretch_gives_up_where_the_counter_is_full() {
    let mut state = State::new(load_image(&input(&[0x0050_0093, ECALL], &[], 0)).unwrap());
    assert_eq!(
        state.run_to_write(u128::MAX),
        (u128::MAX, Status::Error(Fault::CounterOverflow))
    );
    assert_eq!(state.pc(), 8);
    // One instruction is still counted; it writes nothing, so the stretch
    // goes on and finds the counter full.
    assert_eq!(
        state.run_to_write(u128::MAX - 1),
        (u128::MAX, Status::Error(Fault::CounterOverflow))
    );
    assert_eq!(state.pc(), 12);
}
