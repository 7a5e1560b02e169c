use riscv_zkvm_lib::alu::{alu, holds};
use riscv_zkvm_lib::instr::{AluOp, Condition};

#[test]
fn add_and_sub_wrap_modulo_two_to_the_32() {
    assert_eq!(alu(AluOp::Add, 2, 3), 5);
    assert_eq!(alu(AluOp::Add, 0xffff_ffff, 1), 0);
    assert_eq!(alu(AluOp::Add, 0xffff_ffff, 0xffff_ffff), 0xffff_fffe);
    assert_eq!(alu(AluOp::Add, 7, 0xffff_fffb), 2);
    assert_eq!(alu(AluOp::Sub, 5, 3), 2);
    assert_eq!(alu(AluOp::Sub, 0, 1), 0xffff_ffff);
    assert_eq!(alu(AluOp::Sub, 0x8000_0000, 1), 0x7fff_ffff);
}

#[test]
fn shifts_use_the_low_five_bits_of_the_amount() {
    assert_eq!(alu(AluOp::ShiftLeft, 1, 31), 0x8000_0000);
    assert_eq!(alu(AluOp::ShiftLeft, 3, 31), 0x8000_0000);
    assert_eq!(alu(AluOp::ShiftLeft, 1, 32), 1);
    assert_eq!(alu(AluOp::ShiftLeft, 1, 33), 2);
    assert_eq!(alu(AluOp::ShiftRight, 0x8000_0000, 31), 1);
    assert_eq!(alu(AluOp::ShiftRight, 0x8000_0000, 32), 0x8000_0000);
    assert_eq!(alu(AluOp::ShiftRight, 0xffff_ffff, 36), 0x0fff_ffff);
    assert_eq!(alu(AluOp::ShiftRightArithmetic, 0x8000_0000, 31), 0xffff_ffff);
    assert_eq!(alu(AluOp::ShiftRightArithmetic, 0x8000_0000, 4), 0xf800_0000);
    assert_eq!(alu(AluOp::ShiftRightArithmetic, 0x4000_0000, 4), 0x0400_0000);
    assert_eq!(alu(AluOp::ShiftRightArithmetic, 0xffff_fff9, 1), 0xffff_fffc);
    assert_eq!(alu(AluOp::ShiftRightArithmetic, 0xffff_fff9, 33), 0xffff_fffc);
}

#[test]
fn signed_and_unsigned_comparison_read_the_same_bits_differently() {
    assert_eq!(alu(AluOp::Less, 0xffff_ffff, 0), 1);
    assert_eq!(alu(AluOp::LessUnsigned, 0xffff_ffff, 0), 0);
    assert_eq!(alu(AluOp::Less, 0, 0xffff_ffff), 0);
    assert_eq!(alu(AluOp::LessUnsigned, 0, 0xffff_ffff), 1);
    assert_eq!(alu(AluOp::Less, 1, 2), 1);
    assert_eq!(alu(AluOp::LessUnsigned, 1, 2), 1);
    assert_eq!(alu(AluOp::Less, 0x8000_0000, 0x8000_0001), 1);
    assert_eq!(alu(AluOp::LessUnsigned, 0x8000_0000, 0x8000_0001), 1);
    assert_eq!(alu(AluOp::Less, 5, 5), 0);
    assert_eq!(alu(AluOp::LessUnsigned, 5, 5), 0);
    assert_eq!(alu(AluOp::Less, 0x7fff_ffff, 0x8000_0000), 0);
    assert_eq!(alu(AluOp::LessUnsigned, 0x7fff_ffff, 0x8000_0000), 1);
}

#[test]
fn bitwise_operations() {
    assert_eq!(alu(AluOp::Xor, 0b1100, 0b1010), 0b0110);
    assert_eq!(alu(AluOp::Or, 0b1100, 0b1010), 0b1110);
    assert_eq!(alu(AluOp::And, 0b1100, 0b1010), 0b1000);
    assert_eq!(alu(AluOp::Xor, 0xffff_ffff, 0xffff_ffff), 0);
}

#[test]
fn branch_conditions() {
    assert!(holds(Condition::Equal, 7, 7));
    assert!(!holds(Condition::Equal, 7, 8));
    assert!(holds(Condition::NotEqual, 7, 8));
    assert!(!holds(Condition::NotEqual, 7, 7));
    assert!(holds(Condition::Less, 0xffff_ffff, 0));
    assert!(!holds(Condition::Less, 0, 0xffff_ffff));
    assert!(holds(Condition::GreaterEqual, 0, 0xffff_ffff));
    assert!(holds(Condition::GreaterEqual, 3, 3));
    assert!(!holds(Condition::GreaterEqual, 0x8000_0000, 0x7fff_ffff));
    assert!(holds(Condition::LessUnsigned, 0, 0xffff_ffff));
    assert!(!holds(Condition::LessUnsigned, 0xffff_ffff, 0));
    assert!(holds(Condition::GreaterEqualUnsigned, 0xffff_ffff, 0));
    assert!(holds(Condition::GreaterEqualUnsigned, 3, 3));
    assert!(!holds(Condition::GreaterEqualUnsigned, 0, 1));
}
