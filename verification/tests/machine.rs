use stack85::control;
use stack85::control::Control;

fn boot(program: &[u8], size: usize) -> Control {
    let mut image = vec![0u8; size];
    image[..program.len()].copy_from_slice(program);
    let mut c = control::new();
    c.load_image(image);
    c.start();
    c
}

fn run(c: &mut Control) {
    let mut fuel: u32 = 10_000;
    while c.is_running() && fuel > 0 {
        c.execute_instruction();
        fuel -= 1;
    }
    assert!(!c.is_running(), "program did not halt");
}

fn top(c: &Control) -> u8 {
    c.mem_read(c.stack_ptr())
}

#[test]
fn sum_equals_64() {
    let program = [
        control::SET_STACK,
        0x00,
        0x01,
        control::CONST_3,
        control::SAVE_0,
        control::ENTER,
        control::IMM_CONST,
        48,
        control::IMM_CONST,
        16,
        control::IMM_CONST_D,
        0x10,
        0x00,
        control::CALL,
        control::LEAVE,
        control::WAIT,
        // Subroutine at 0x10: S0 = 1 if the two arguments sum to the third,
        // else 0.
        control::LOCAL_1,
        control::LOCAL_0,
        control::ADD,
        control::LOCAL_2,
        control::IMM_CONST,
        64,
        control::COMPARE,
        control::IF_EQUAL,
        control::IMM_BRANCH,
        2,
        control::IMM_BRANCH,
        3,
        control::CONST_1,
        control::SAVE_0,
        control::GOBACK,
        control::CONST_0,
        control::SAVE_0,
        control::GOBACK,
    ];
    let mut c = boot(&program, 512);
    run(&mut c);
    assert_eq!(c.save_0(), 1);
}

#[test]
fn carry_chain() {
    let program = [
        control::IMM_CONST,
        0xFF,
        control::IMM_CONST,
        0x01,
        control::ADD,
        control::IMM_CONST,
        0x00,
        control::IMM_CONST,
        0x00,
        control::ADD_CARRY,
        control::WAIT,
    ];
    let mut c = boot(&program, 64);
    run(&mut c);
    assert_eq!(top(&c), 0x01);
    // Flags byte layout: C=0, V=1, Z=2, N=3, O=4; C and Z are both clear.
    assert_eq!(c.alu_flags() & 0b00101, 0);
}

#[test]
fn signed_overflow_on_add() {
    let program = [
        control::IMM_CONST,
        0x7F,
        control::IMM_CONST,
        0x01,
        control::ADD,
        control::WAIT,
    ];
    let mut c = boot(&program, 64);
    run(&mut c);
    assert_eq!(top(&c), 0x80);
    let f = c.alu_flags();
    assert_ne!(f & 0b00010, 0, "V must be set");
    assert_ne!(f & 0b01000, 0, "N must be set");
    assert_eq!(f & 0b00001, 0, "C must be clear");
}

#[test]
fn rotate_identity() {
    let program = [
        control::IMM_CONST,
        0xA5,
        control::IMM_CONST,
        8,
        control::ROTATE_LEFT,
        control::WAIT,
    ];
    let mut c = boot(&program, 64);
    run(&mut c);
    assert_eq!(top(&c), 0xA5);
}

#[test]
fn conditional_skip_length() {
    let program = [
        control::IMM_CONST,
        1,
        control::IMM_CONST,
        1,
        control::COMPARE,
        control::IF_UNEQUAL,
        control::IMM_CONST,
        99,
        control::IMM_CONST,
        42,
        control::WAIT,
    ];
    let mut c = boot(&program, 64);
    run(&mut c);
    assert_eq!(top(&c), 42);
}

#[test]
fn load_save_round_trip() {
    let program = [
        control::IMM_CONST,
        7,
        control::IMM_SAVE,
        0x00,
        0x02,
        control::IMM_LOAD,
        0x00,
        0x02,
        control::WAIT,
    ];
    let mut c = boot(&program, 1024);
    run(&mut c);
    assert_eq!(top(&c), 7);
    assert_eq!(c.mem_read(0x0200), 7);
}

#[test]
fn branch_pops_offset() {
    let program = [
        control::IMM_CONST,
        2,
        control::BRANCH,
        control::IMM_CONST,
        99,
        control::IMM_CONST,
        42,
        control::WAIT,
    ];
    let mut c = boot(&program, 64);
    run(&mut c);
    assert_eq!(top(&c), 42);
}

#[test]
fn imm_branch_skips_forward() {
    let program = [
        control::IMM_BRANCH,
        2,
        control::IMM_CONST,
        99,
        control::WAIT,
    ];
    let mut c = boot(&program, 64);
    run(&mut c);
    // The IMM_CONST 99 was jumped over; nothing was pushed.
    assert_eq!(c.stack_ptr(), 0);
    assert_eq!(c.instr_ptr(), 5);
}

#[test]
fn imm_branch_s_negative_offset() {
    let program = [
        control::GOTO,
        0x04,
        0x00,
        control::WAIT,
        control::IMM_BRANCH_S,
        0xFD,
    ];
    // GOTO 4; IMM_BRANCH_S -3 lands on the WAIT at byte 3.
    let mut c = boot(&program, 64);
    run(&mut c);
    assert_eq!(c.instr_ptr(), 4);
}

#[test]
fn branch_s_sign_extends() {
    let program = [
        control::GOTO,
        0x05,
        0x00,
        control::WAIT,
        0x00,
        control::IMM_CONST,
        0xFC,
        control::BRANCH_S,
    ];
    // At byte 5: push 0xFC (-4); BRANCH_S advances IP to 8 and adds the
    // sign-extended offset, landing on the WAIT at byte 4.
    let mut c = boot(&program, 64);
    run(&mut c);
    assert!(!c.is_running());
    assert_eq!(c.instr_ptr(), 5);
}

#[test]
fn link_and_unlink() {
    let program = [
        control::SET_STACK,
        0x40,
        0x00,
        control::IMM_CONST,
        0x34,
        control::IMM_CONST,
        0x12,
        control::LINK,
        control::UNLINK,
        control::WAIT,
    ];
    let mut c = boot(&program, 128);
    run(&mut c);
    assert_eq!(c.link(), 0x1234);
    assert_eq!(c.mem_read(c.stack_ptr()), 0x12);
    assert_eq!(c.mem_read(c.stack_ptr() - 1), 0x34);
}

#[test]
fn enter_leave_restores_frame() {
    let program = [
        control::SET_STACK,
        0x00,
        0x01,
        control::ENTER,
        control::LEAVE,
        control::WAIT,
    ];
    let mut c = boot(&program, 512);
    run(&mut c);
    assert_eq!(c.local(), 0);
    assert_eq!(c.stack_ptr(), 0x0100);
}

#[test]
fn local_two_byte_form() {
    let program = [
        control::SET_STACK,
        0x00,
        0x01,
        control::ENTER,
        control::IMM_CONST,
        0x5A,
        control::LOCAL,
        0x00,
        control::WAIT,
    ];
    let mut c = boot(&program, 512);
    run(&mut c);
    assert_eq!(top(&c), 0x5A);
}

#[test]
fn dup_duplicates_top() {
    let program = [
        control::SET_STACK,
        0x40,
        0x00,
        control::IMM_CONST,
        7,
        control::DUP_B,
        control::ADD,
        control::WAIT,
    ];
    let mut c = boot(&program, 128);
    run(&mut c);
    assert_eq!(top(&c), 14);
}

#[test]
fn indirect_save_and_load() {
    let program = [
        control::SET_STACK,
        0x40,
        0x00,
        control::IMM_CONST,
        0xAB,
        control::IMM_CONST_D,
        0x00,
        0x02,
        control::SAVE,
        control::IMM_CONST_D,
        0x00,
        0x02,
        control::LOAD,
        control::WAIT,
    ];
    let mut c = boot(&program, 1024);
    run(&mut c);
    assert_eq!(c.mem_read(0x0200), 0xAB);
    assert_eq!(top(&c), 0xAB);
    assert_eq!(c.stack_ptr(), 0x41);
}

#[test]
fn offset_save_and_load() {
    let program = [
        control::SET_STACK,
        0x40,
        0x00,
        control::IMM_CONST,
        0xCD,
        control::IMM_CONST,
        0x10,
        control::IMM_SAVE_OFFSET_B,
        0x00,
        0x02,
        control::IMM_CONST,
        0x10,
        control::IMM_LOAD_OFFSET_B,
        0x00,
        0x02,
        control::WAIT,
    ];
    let mut c = boot(&program, 1024);
    run(&mut c);
    assert_eq!(c.mem_read(0x0210), 0xCD);
    assert_eq!(top(&c), 0xCD);
}

#[test]
fn scratch_registers() {
    let program = [
        control::SET_STACK,
        0x40,
        0x00,
        control::CONST_1,
        control::SAVE_2,
        control::CONST_3,
        control::SAVE_3,
        control::LOAD_2,
        control::LOAD_3,
        control::WAIT,
    ];
    let mut c = boot(&program, 128);
    run(&mut c);
    assert_eq!(c.save_2(), 1);
    assert_eq!(c.save_3(), 3);
    assert_eq!(top(&c), 3);
    assert_eq!(c.mem_read(c.stack_ptr() - 1), 1);
}

#[test]
fn imm_const_d_save_load_order() {
    let program = [
        control::SET_STACK,
        0x00,
        0x01,
        control::IMM_CONST_D,
        0x34,
        0x12,
        control::SAVE_0,
        control::SAVE_1,
        control::LOAD_1,
        control::LOAD_0,
        control::WAIT,
    ];
    let mut c = boot(&program, 512);
    run(&mut c);
    // Both bytes preserved in order, high byte on top.
    assert_eq!(c.stack_ptr(), 0x0102);
    assert_eq!(c.mem_read(0x0102), 0x12);
    assert_eq!(c.mem_read(0x0101), 0x34);
}

#[test]
fn overflow_pushes_high_byte() {
    let program = [
        control::SET_STACK,
        0x40,
        0x00,
        control::IMM_CONST,
        16,
        control::IMM_CONST,
        32,
        control::MULTIPLY,
        control::OVERFLOW,
        control::WAIT,
    ];
    let mut c = boot(&program, 128);
    run(&mut c);
    // 16 * 32 = 512 = 0x0200.
    assert_eq!(top(&c), 0x02);
    assert_eq!(c.mem_read(c.stack_ptr() - 1), 0x00);
}

#[test]
fn compare_carry_drives_if_lower() {
    let program = [
        control::IMM_CONST,
        1,
        control::IMM_CONST,
        2,
        control::COMPARE,
        control::IF_LOWER,
        control::IMM_CONST,
        42,
        control::WAIT,
    ];
    let mut c = boot(&program, 64);
    run(&mut c);
    assert_eq!(top(&c), 42);
}

#[test]
fn if_greater_on_positive_difference() {
    let program = [
        control::IMM_CONST,
        2,
        control::IMM_CONST,
        1,
        control::COMPARE,
        control::IF_GREATER,
        control::IMM_CONST,
        42,
        control::WAIT,
    ];
    let mut c = boot(&program, 64);
    run(&mut c);
    assert_eq!(top(&c), 42);
}

#[test]
fn test_opcode_sets_negative() {
    let program = [
        control::IMM_CONST,
        0x80,
        control::TEST,
        control::IF_NEGATIVE,
        control::IMM_CONST,
        42,
        control::WAIT,
    ];
    let mut c = boot(&program, 64);
    run(&mut c);
    assert_eq!(top(&c), 42);
}

#[test]
fn not_replaces_in_place() {
    let program = [
        control::SET_STACK,
        0x40,
        0x00,
        control::IMM_CONST,
        0x0F,
        control::NOT,
        control::WAIT,
    ];
    let mut c = boot(&program, 128);
    run(&mut c);
    assert_eq!(top(&c), 0xF0);
    assert_eq!(c.stack_ptr(), 0x41);
}

#[test]
fn unknown_opcode_halts() {
    let program = [0x03, 0x00, 0x00];
    let mut c = boot(&program, 64);
    c.execute_instruction();
    assert!(!c.is_running());
    assert_eq!(c.instr_ptr(), 1);
}

#[test]
fn reserved_three_byte_opcode_advances_by_three() {
    let program = [0x97, 0x00, 0x00, 0x00, 0x00];
    let mut c = boot(&program, 64);
    c.execute_instruction();
    assert!(!c.is_running());
    assert_eq!(c.instr_ptr(), 3);
}

#[test]
fn halted_machine_does_nothing() {
    let program = [control::IMM_CONST, 7, control::WAIT];
    let mut image = vec![0u8; 64];
    image[..program.len()].copy_from_slice(&program);
    let mut c = control::new();
    c.load_image(image);
    // Never started: stepping is a no-op.
    c.execute_instruction();
    assert!(!c.is_running());
    assert_eq!(c.instr_ptr(), 0);
    assert_eq!(c.stack_ptr(), 0);
}

#[test]
fn reset_zeroes_registers_and_runs() {
    let program = [
        control::IMM_CONST,
        9,
        control::SAVE_0,
        control::RESET,
    ];
    let mut c = boot(&program, 64);
    c.execute_instruction();
    c.execute_instruction();
    assert_eq!(c.save_0(), 9);
    c.execute_instruction();
    assert!(c.is_running());
    assert_eq!(c.instr_ptr(), 0);
    assert_eq!(c.stack_ptr(), 0);
    assert_eq!(c.save_0(), 0);
    assert_eq!(c.alu_flags(), 0);
}

#[test]
fn stack_pointer_wraps() {
    let program = [
        control::SET_STACK,
        0xFF,
        0xFF,
        control::IMM_CONST,
        7,
        control::WAIT,
    ];
    let mut c = boot(&program, 64);
    run(&mut c);
    assert_eq!(c.stack_ptr(), 0);
    assert_eq!(c.mem_read(0), 7);
}

#[test]
fn goto_and_set_stack() {
    let program = [
        control::SET_STACK,
        0x34,
        0x12,
        control::GOTO,
        0x08,
        0x00,
        control::IMM_CONST,
        99,
        control::WAIT,
    ];
    let mut c = boot(&program, 64);
    run(&mut c);
    assert_eq!(c.stack_ptr(), 0x1234);
    assert_eq!(c.instr_ptr(), 9);
}

#[test]
fn if_no_carry_skips_on_borrow() {
    let program = [
        control::IMM_CONST,
        1,
        control::IMM_CONST,
        2,
        control::COMPARE,
        control::IF_NO_CARRY,
        control::IMM_CONST,
        99,
        control::IMM_CONST,
        42,
        control::WAIT,
    ];
    // 1 - 2 borrows, so C is set and the IMM_CONST 99 is skipped.
    let mut c = boot(&program, 64);
    run(&mut c);
    assert_eq!(top(&c), 42);
}

#[test]
fn if_odd_and_if_even() {
    let program = [
        control::IMM_CONST,
        5,
        control::TEST,
        control::IF_ODD,
        control::IMM_CONST,
        11,
        control::TEST,
        control::IF_EVEN,
        control::IMM_CONST,
        99,
        control::IMM_CONST,
        42,
        control::WAIT,
    ];
    // 5 is odd: push 11. 11 is odd: skip the 99, push 42.
    let mut c = boot(&program, 64);
    run(&mut c);
    assert_eq!(top(&c), 42);
}

#[test]
fn if_overflow_after_signed_add() {
    let program = [
        control::IMM_CONST,
        0x7F,
        control::IMM_CONST,
        0x01,
        control::ADD,
        control::IF_OVERFLOW,
        control::IMM_CONST,
        42,
        control::WAIT,
    ];
    let mut c = boot(&program, 64);
    run(&mut c);
    assert_eq!(top(&c), 42);
}

#[test]
fn if_higher_on_unsigned_greater() {
    let program = [
        control::IMM_CONST,
        0xF0,
        control::IMM_CONST,
        0x10,
        control::COMPARE,
        control::IF_HIGHER,
        control::IMM_CONST,
        42,
        control::WAIT,
    ];
    // 0xF0 > 0x10 unsigned: no borrow, not zero, the push executes.
    let mut c = boot(&program, 64);
    run(&mut c);
    assert_eq!(top(&c), 42);
}

#[test]
fn clear_flags_runs_alu_reset() {
    let program = [
        control::IMM_CONST,
        0x7F,
        control::IMM_CONST,
        0x01,
        control::ADD,
        control::CLEAR_FLAGS,
        control::WAIT,
    ];
    let mut c = boot(&program, 64);
    run(&mut c);
    assert_eq!(c.alu_flags(), 0);
}

#[test]
fn exclusive_or_program() {
    // Op 15 of the ALU, reachable through the EXCLUSIVE_OR instruction.
    let program = [
        control::SET_STACK,
        0x40,
        0x00,
        control::IMM_CONST,
        0xFF,
        control::IMM_CONST,
        0x0F,
        control::EXCLUSIVE_OR,
        control::WAIT,
    ];
    let mut c = boot(&program, 128);
    run(&mut c);
    assert_eq!(top(&c), 0xF0);
}
