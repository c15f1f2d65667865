//! The control unit: a fetch-decode-execute engine over the ALU and a
//! 16-bit byte-addressed memory.
//!
//! Each instruction is one opcode byte whose top two bits give the total
//! instruction length in bytes (`00` one byte, `01` two, `10` three). The
//! decode step always reads the opcode and two parameter bytes, advances the
//! instruction pointer by the encoded length, and dispatches. The evaluation
//! stack lives in memory and grows upward; `SP` names the topmost valid byte.
//! 16-bit values are pushed low byte first, so the high byte sits on top.
//!
//! The whole instruction semantics is given by the specification function
//! [`step`]; `Control::execute_instruction` is proved to implement it.

use crate::alu;
use crate::alu::{alu_compute, AluView, ALU};
use crate::memory;
use crate::memory::Memory;
use vstd::arithmetic::div_mod::{
    lemma_fundamental_div_mod, lemma_mod_multiples_vanish, lemma_small_mod,
};
use vstd::prelude::*;

verus! {

// One-byte opcodes (top bits 00).
pub const WAIT: u8 = 0x00;

pub const RESET: u8 = 0x01;

pub const OVERFLOW: u8 = 0x02;

pub const BRANCH: u8 = 0x04;

pub const BRANCH_S: u8 = 0x05;

pub const ENTER: u8 = 0x06;

pub const LEAVE: u8 = 0x07;

pub const LOAD_0: u8 = 0x08;

pub const LOAD_1: u8 = 0x09;

pub const LOAD_2: u8 = 0x0A;

pub const LOAD_3: u8 = 0x0B;

pub const UNLINK: u8 = 0x0C;

pub const LINK: u8 = 0x0D;

pub const CALL: u8 = 0x0E;

pub const GOBACK: u8 = 0x0F;

pub const SAVE_0: u8 = 0x10;

pub const SAVE_1: u8 = 0x11;

pub const SAVE_2: u8 = 0x12;

pub const SAVE_3: u8 = 0x13;

pub const LOCAL_0: u8 = 0x14;

pub const LOCAL_1: u8 = 0x15;

pub const LOCAL_2: u8 = 0x16;

pub const LOCAL_3: u8 = 0x17;

pub const CONST_0: u8 = 0x18;

pub const CONST_1: u8 = 0x19;

pub const CONST_2: u8 = 0x1A;

pub const CONST_3: u8 = 0x1B;

pub const LOAD: u8 = 0x1C;

pub const SAVE: u8 = 0x1D;

pub const DUP_B: u8 = 0x1E;

pub const CLEAR_FLAGS: u8 = 0x20;

pub const TEST: u8 = 0x21;

pub const ADD: u8 = 0x22;

pub const ADD_CARRY: u8 = 0x23;

pub const SUBTRACT: u8 = 0x24;

pub const SUB_BORROW: u8 = 0x25;

pub const MULTIPLY: u8 = 0x26;

pub const COMPARE: u8 = 0x27;

pub const SHIFT_LEFT: u8 = 0x28;

pub const SHIFT_RIGHT: u8 = 0x29;

pub const ROTATE_LEFT: u8 = 0x2A;

pub const ROTATE_RIGHT: u8 = 0x2B;

pub const NOT: u8 = 0x2C;

pub const AND: u8 = 0x2D;

pub const INCLUSIVE_OR: u8 = 0x2E;

pub const EXCLUSIVE_OR: u8 = 0x2F;

// Conditional execution: when the predicate fails, the next instruction is
// skipped by its own encoded length.
pub const IF_EQUAL: u8 = 0x30;

pub const IF_UNEQUAL: u8 = 0x31;

pub const IF_POSITIVE: u8 = 0x32;

pub const IF_NEGATIVE: u8 = 0x33;

pub const IF_ODD: u8 = 0x34;

pub const IF_EVEN: u8 = 0x35;

pub const IF_OVERFLOW: u8 = 0x36;

pub const IF_NO_OVERFLOW: u8 = 0x37;

pub const IF_GREATER_EQUAL: u8 = 0x38;

pub const IF_LESS_EQUAL: u8 = 0x39;

pub const IF_GREATER: u8 = 0x3A;

pub const IF_LESS: u8 = 0x3B;

pub const IF_HIGHER: u8 = 0x3C;

pub const IF_LOWER: u8 = 0x3D;

pub const IF_CARRY: u8 = 0x3E;

pub const IF_NO_CARRY: u8 = 0x3F;

// Two-byte opcodes (top bits 01): opcode plus one parameter byte.
pub const IMM_BRANCH: u8 = 0x40;

pub const IMM_BRANCH_S: u8 = 0x41;

pub const IMM_CONST: u8 = 0x42;

pub const LOCAL: u8 = 0x48;

// Three-byte opcodes (top bits 10): opcode plus a little-endian 16-bit
// parameter.
pub const GOTO: u8 = 0x82;

pub const SET_STACK: u8 = 0x83;

pub const IMM_LOAD: u8 = 0x8C;

pub const IMM_LOAD_OFFSET_B: u8 = 0x8D;

pub const IMM_CONST_D: u8 = 0x8F;

pub const IMM_SAVE: u8 = 0x94;

pub const IMM_SAVE_OFFSET_B: u8 = 0x95;

/// Mathematical state of the whole machine: the architectural registers, the
/// ALU state, and the memory contents.
#[verifier::ext_equal]
pub ghost struct CtrlView {
    /// Instruction pointer.
    pub ip: u16,
    /// Stack pointer: address of the topmost valid stack byte.
    pub sp: u16,
    pub alu: AluView,
    pub mem: Seq<u8>,
    pub s0: u8,
    pub s1: u8,
    pub s2: u8,
    pub s3: u8,
    /// Return-address register.
    pub link: u16,
    /// Local-frame base register.
    pub local: u16,
    pub running: bool,
}

/// `i` reduced to a 16-bit address or register value (wrap-around
/// arithmetic modulo 2^16).
pub open spec fn w16(i: int) -> u16 {
    (i % 0x10000) as u16
}

/// The 16-bit value with high byte `hi` and low byte `lo`.
pub open spec fn word(hi: u8, lo: u8) -> u16 {
    (hi * 256 + lo) as u16
}

/// Low byte of a 16-bit value.
pub open spec fn lo_byte(w: u16) -> u8 {
    (w % 256) as u8
}

/// High byte of a 16-bit value.
pub open spec fn hi_byte(w: u16) -> u8 {
    (w / 256) as u8
}

/// `b` sign-extended from 8 to 16 bits (two's complement).
pub open spec fn sext8(b: u8) -> u16 {
    if b < 128 {
        b as u16
    } else {
        (b + 0xFF00) as u16
    }
}

/// Address `a` lies inside the memory of `s`.
pub open spec fn in_mem(s: CtrlView, a: u16) -> bool {
    (a as int) < s.mem.len()
}

/// The byte of `s`'s memory at address `a`.
pub open spec fn byte_at(s: CtrlView, a: u16) -> u8 {
    s.mem[a as int]
}

/// The topmost valid stack byte.
pub open spec fn tos(s: CtrlView) -> u8 {
    byte_at(s, s.sp)
}

/// Push one byte: `SP` moves up first, then the byte is stored at the new
/// `SP`.
pub open spec fn push_spec(s: CtrlView, b: u8) -> CtrlView {
    let sp = w16(s.sp + 1);
    CtrlView { sp, mem: s.mem.update(sp as int, b), ..s }
}

/// The cell a push would write lies inside memory.
pub open spec fn push_ok(s: CtrlView) -> bool {
    in_mem(s, w16(s.sp + 1))
}

/// The cells two pushes would write lie inside memory.
pub open spec fn push2_ok(s: CtrlView) -> bool {
    in_mem(s, w16(s.sp + 1)) && in_mem(s, w16(s.sp + 2))
}

/// Scratch register `k` of `s`, for `k` in `0..4`.
pub open spec fn sreg(s: CtrlView, k: int) -> u8 {
    if k == 0 {
        s.s0
    } else if k == 1 {
        s.s1
    } else if k == 2 {
        s.s2
    } else {
        s.s3
    }
}

/// `s` with scratch register `k` replaced by `v`.
pub open spec fn with_sreg(s: CtrlView, k: int, v: u8) -> CtrlView {
    if k == 0 {
        CtrlView { s0: v, ..s }
    } else if k == 1 {
        CtrlView { s1: v, ..s }
    } else if k == 2 {
        CtrlView { s2: v, ..s }
    } else {
        CtrlView { s3: v, ..s }
    }
}

/// `WAIT`, and every unknown opcode: clear the running flag.
pub open spec fn wait_spec(s: CtrlView) -> CtrlView {
    CtrlView { running: false, ..s }
}

/// `RESET`: zero the architectural registers and the flags, keep memory and
/// the ALU latches, and run.
pub open spec fn reset_spec(s: CtrlView) -> CtrlView {
    CtrlView {
        ip: 0,
        sp: 0,
        alu: AluView { o: false, n: false, z: false, v: false, c: false, ..s.alu },
        s0: 0,
        s1: 0,
        s2: 0,
        s3: 0,
        link: 0,
        local: 0,
        running: true,
        ..s
    }
}

/// `SAVE_k`: pop the top of stack into scratch register `k`.
pub open spec fn save_reg_spec(s: CtrlView, k: int) -> CtrlView {
    with_sreg(CtrlView { sp: w16(s.sp - 1), ..s }, k, tos(s))
}

/// `LOAD_k`: push scratch register `k`.
pub open spec fn load_reg_spec(s: CtrlView, k: int) -> CtrlView {
    push_spec(s, sreg(s, k))
}

/// `LOCAL_k` and the two-byte `LOCAL`: push the byte at `LOCAL + k`.
pub open spec fn local_spec(s: CtrlView, k: u16) -> CtrlView {
    push_spec(s, byte_at(s, w16(s.local + k)))
}

/// `UNLINK`: push `LINK` as two bytes, low first.
pub open spec fn unlink_spec(s: CtrlView) -> CtrlView {
    push_spec(push_spec(s, lo_byte(s.link)), hi_byte(s.link))
}

/// `LINK`: pop two bytes (high byte on top) into `LINK`.
pub open spec fn link_spec(s: CtrlView) -> CtrlView {
    CtrlView { link: word(tos(s), byte_at(s, w16(s.sp - 1))), sp: w16(s.sp - 2), ..s }
}

/// `CALL`: pop a 16-bit target (high byte on top), remember the return
/// address in `LINK`, and jump.
pub open spec fn call_spec(s: CtrlView) -> CtrlView {
    CtrlView { ip: word(tos(s), byte_at(s, w16(s.sp - 1))), link: s.ip, sp: w16(s.sp - 2), ..s }
}

/// `GOBACK`: return to the address held in `LINK`.
pub open spec fn goback_spec(s: CtrlView) -> CtrlView {
    CtrlView { ip: s.link, ..s }
}

/// `ENTER`: push the current `LOCAL` (low byte first) and point `LOCAL`
/// just above the saved pair.
pub open spec fn enter_spec(s: CtrlView) -> CtrlView {
    let t = push_spec(push_spec(s, lo_byte(s.local)), hi_byte(s.local));
    CtrlView { local: w16(t.sp + 1), ..t }
}

/// `LEAVE`: restore `LOCAL` from the pair below the frame base and drop the
/// stack to just below the saved pair.
pub open spec fn leave_spec(s: CtrlView) -> CtrlView {
    CtrlView {
        local: word(byte_at(s, w16(s.local - 1)), byte_at(s, w16(s.local - 2))),
        sp: w16(s.local - 3),
        ..s
    }
}

/// Two-operand ALU instructions: `y` is the top of stack, `x` the byte
/// below; both are consumed and the result byte is pushed in their place.
pub open spec fn binop_spec(s: CtrlView, op: u8) -> CtrlView {
    let a = alu_compute(AluView { x: byte_at(s, w16(s.sp - 1)), y: tos(s), op, ..s.alu });
    let sp = w16(s.sp - 1);
    CtrlView { alu: a, sp, mem: s.mem.update(sp as int, a.result), ..s }
}

/// `TEST`: run the ALU `NOP` on the popped top of stack, keeping only flags.
pub open spec fn test_spec(s: CtrlView) -> CtrlView {
    let a = alu_compute(AluView { x: tos(s), op: alu::ALU_NOP, ..s.alu });
    CtrlView { alu: a, sp: w16(s.sp - 1), ..s }
}

/// `NOT`: replace the top of stack with its bitwise complement in place.
pub open spec fn not_spec(s: CtrlView) -> CtrlView {
    let a = alu_compute(AluView { x: tos(s), op: alu::ALU_NOT, ..s.alu });
    CtrlView { alu: a, mem: s.mem.update(s.sp as int, a.result), ..s }
}

/// `COMPARE`: subtract without writing back; both operands are consumed and
/// only the flags are retained.
pub open spec fn compare_spec(s: CtrlView) -> CtrlView {
    let a = alu_compute(
        AluView { x: byte_at(s, w16(s.sp - 1)), y: tos(s), op: alu::ALU_SUB, ..s.alu },
    );
    CtrlView { alu: a, sp: w16(s.sp - 2), ..s }
}

/// `CLEAR_FLAGS`: run an ALU `RST`.
pub open spec fn clear_flags_spec(s: CtrlView) -> CtrlView {
    CtrlView { alu: alu_compute(AluView { op: alu::ALU_RST, ..s.alu }), ..s }
}

/// Conditional skip: when the predicate fails, `IP` advances over the next
/// instruction by `1 +` its length class, read from that instruction's top
/// two opcode bits.
pub open spec fn cond_spec(s: CtrlView, taken: bool) -> CtrlView {
    if taken {
        s
    } else {
        CtrlView { ip: w16(s.ip + 1 + (byte_at(s, s.ip) / 64)), ..s }
    }
}

/// `BRANCH`/`BRANCH_S`: pop one byte and add it to `IP`, zero- or
/// sign-extended.
pub open spec fn branch_spec(s: CtrlView, signed: bool) -> CtrlView {
    let off = if signed {
        sext8(tos(s))
    } else {
        tos(s) as u16
    };
    CtrlView { ip: w16(s.ip + off), sp: w16(s.sp - 1), ..s }
}

/// `LOAD`: pop a 16-bit address (high byte on top) and push the byte found
/// there in place of the pair.
pub open spec fn load_ind_spec(s: CtrlView) -> CtrlView {
    let addr = word(tos(s), byte_at(s, w16(s.sp - 1)));
    let sp = w16(s.sp - 1);
    CtrlView { sp, mem: s.mem.update(sp as int, byte_at(s, addr)), ..s }
}

/// `SAVE`: pop a 16-bit address (high byte on top), pop a value, and store
/// the value at the address.
pub open spec fn save_ind_spec(s: CtrlView) -> CtrlView {
    let addr = word(tos(s), byte_at(s, w16(s.sp - 1)));
    let v = byte_at(s, w16(s.sp - 2));
    CtrlView { sp: w16(s.sp - 3), mem: s.mem.update(addr as int, v), ..s }
}

/// `IMM_SAVE`: pop a value and store it at the immediate address.
pub open spec fn imm_save_spec(s: CtrlView, p16: u16) -> CtrlView {
    CtrlView { sp: w16(s.sp - 1), mem: s.mem.update(p16 as int, tos(s)), ..s }
}

/// `IMM_LOAD_OFFSET_B`: read the top of stack as an offset and overwrite it
/// with the byte at the immediate address plus that offset.
pub open spec fn imm_load_off_spec(s: CtrlView, p16: u16) -> CtrlView {
    let addr = w16(p16 + tos(s));
    CtrlView { mem: s.mem.update(s.sp as int, byte_at(s, addr)), ..s }
}

/// `IMM_SAVE_OFFSET_B`: read the top of stack as an offset, pop it, pop a
/// value, and store the value at the immediate address plus the offset.
pub open spec fn imm_save_off_spec(s: CtrlView, p16: u16) -> CtrlView {
    let addr = w16(p16 + tos(s));
    let v = byte_at(s, w16(s.sp - 1));
    CtrlView { sp: w16(s.sp - 2), mem: s.mem.update(addr as int, v), ..s }
}

/// The opcode byte at `IP`.
pub open spec fn opcode_at(s: CtrlView) -> u8 {
    byte_at(s, s.ip)
}

/// The first parameter byte, at `IP + 1`.
pub open spec fn param_low(s: CtrlView) -> u8 {
    byte_at(s, w16(s.ip + 1))
}

/// The second parameter byte, at `IP + 2`.
pub open spec fn param_high(s: CtrlView) -> u8 {
    byte_at(s, w16(s.ip + 2))
}

/// The 16-bit immediate parameter, little-endian.
pub open spec fn param16(s: CtrlView) -> u16 {
    word(param_high(s), param_low(s))
}

/// `s` with `IP` advanced by the instruction length encoded in the top two
/// bits of the opcode.
pub open spec fn advanced(s: CtrlView) -> CtrlView {
    CtrlView { ip: w16(s.ip + 1 + (opcode_at(s) / 64)), ..s }
}

/// The three decode reads at `IP`, `IP + 1`, `IP + 2` lie inside memory.
pub open spec fn fetch_ok(s: CtrlView) -> bool {
    in_mem(s, s.ip) && in_mem(s, w16(s.ip + 1)) && in_mem(s, w16(s.ip + 2))
}

/// Whether the opcode is one of the sixteen conditional `IF_*` opcodes.
pub open spec fn is_cond(op: u8) -> bool {
    IF_EQUAL <= op <= IF_NO_CARRY
}

/// The predicate a conditional opcode tests, over the current flags.
pub open spec fn cond_pred(op: u8, a: AluView) -> bool {
    if op == IF_EQUAL {
        a.z
    } else if op == IF_UNEQUAL {
        !a.z
    } else if op == IF_POSITIVE {
        !a.n
    } else if op == IF_NEGATIVE {
        a.n
    } else if op == IF_ODD {
        a.o
    } else if op == IF_EVEN {
        !a.o
    } else if op == IF_OVERFLOW {
        a.v
    } else if op == IF_NO_OVERFLOW {
        !a.v
    } else if op == IF_GREATER_EQUAL {
        a.n == a.v
    } else if op == IF_LESS_EQUAL {
        a.n != a.v || a.z
    } else if op == IF_GREATER {
        a.n == a.v && !a.z
    } else if op == IF_LESS {
        a.n != a.v
    } else if op == IF_HIGHER {
        !a.c && !a.z
    } else if op == IF_LOWER {
        a.c
    } else if op == IF_CARRY {
        a.c
    } else {
        !a.c
    }
}

/// Every memory access the dispatched instruction will make lies inside
/// memory; `t` is the state after the `IP` advance, `op` the opcode and
/// `pl`/`p16` the decoded parameters.
pub open spec fn dispatch_ok(t: CtrlView, op: u8, pl: u8, p16: u16) -> bool {
    if op == LOAD_0 || op == LOAD_1 || op == LOAD_2 || op == LOAD_3 || op == CONST_0 || op
        == CONST_1 || op == CONST_2 || op == CONST_3 || op == IMM_CONST || op == OVERFLOW {
        push_ok(t)
    } else if op == DUP_B {
        in_mem(t, t.sp) && push_ok(t)
    } else if op == SAVE_0 || op == SAVE_1 || op == SAVE_2 || op == SAVE_3 || op == TEST || op
        == NOT || op == BRANCH || op == BRANCH_S {
        in_mem(t, t.sp)
    } else if op == COMPARE || op == ADD || op == ADD_CARRY || op == SUBTRACT || op == SUB_BORROW
        || op == MULTIPLY || op == SHIFT_LEFT || op == SHIFT_RIGHT || op == ROTATE_LEFT || op
        == ROTATE_RIGHT || op == AND || op == INCLUSIVE_OR || op == EXCLUSIVE_OR {
        in_mem(t, t.sp) && in_mem(t, w16(t.sp - 1))
    } else if op == UNLINK || op == ENTER || op == IMM_CONST_D {
        push2_ok(t)
    } else if op == LINK || op == CALL {
        in_mem(t, t.sp) && in_mem(t, w16(t.sp - 1))
    } else if op == LEAVE {
        in_mem(t, w16(t.local - 1)) && in_mem(t, w16(t.local - 2))
    } else if is_cond(op) {
        in_mem(t, t.ip)
    } else if op == LOCAL {
        in_mem(t, w16(t.local + pl)) && push_ok(t)
    } else if op == LOCAL_0 || op == LOCAL_1 || op == LOCAL_2 || op == LOCAL_3 {
        in_mem(t, w16(t.local + (op - LOCAL_0))) && push_ok(t)
    } else if op == IMM_LOAD {
        in_mem(t, p16) && push_ok(t)
    } else if op == IMM_LOAD_OFFSET_B {
        in_mem(t, t.sp) && in_mem(t, w16(p16 + byte_at(t, t.sp)))
    } else if op == IMM_SAVE {
        in_mem(t, t.sp) && in_mem(t, p16)
    } else if op == IMM_SAVE_OFFSET_B {
        in_mem(t, t.sp) && in_mem(t, w16(t.sp - 1)) && in_mem(t, w16(p16 + byte_at(t, t.sp)))
    } else if op == LOAD {
        in_mem(t, t.sp) && in_mem(t, w16(t.sp - 1)) && in_mem(
            t,
            word(tos(t), byte_at(t, w16(t.sp - 1))),
        )
    } else if op == SAVE {
        in_mem(t, t.sp) && in_mem(t, w16(t.sp - 1)) && in_mem(t, w16(t.sp - 2)) && in_mem(
            t,
            word(tos(t), byte_at(t, w16(t.sp - 1))),
        )
    } else {
        true
    }
}

/// Executing one instruction from `s` touches only addresses inside memory.
pub open spec fn step_ok(s: CtrlView) -> bool {
    fetch_ok(s) && dispatch_ok(advanced(s), opcode_at(s), param_low(s), param16(s))
}

/// One fetch-decode-execute step from `s`: the complete instruction-set
/// semantics. Unassigned opcodes halt the machine.
pub open spec fn step(s: CtrlView) -> CtrlView {
    let op = opcode_at(s);
    let pl = param_low(s);
    let ph = param_high(s);
    let p16 = param16(s);
    let t = advanced(s);
    if op == WAIT {
        wait_spec(t)
    } else if op == RESET {
        reset_spec(t)
    } else if op == OVERFLOW {
        push_spec(t, t.alu.res_hi)
    } else if op == BRANCH {
        branch_spec(t, false)
    } else if op == BRANCH_S {
        branch_spec(t, true)
    } else if op == ENTER {
        enter_spec(t)
    } else if op == LEAVE {
        leave_spec(t)
    } else if op == LOAD_0 || op == LOAD_1 || op == LOAD_2 || op == LOAD_3 {
        load_reg_spec(t, op - LOAD_0)
    } else if op == UNLINK {
        unlink_spec(t)
    } else if op == LINK {
        link_spec(t)
    } else if op == CALL {
        call_spec(t)
    } else if op == GOBACK {
        goback_spec(t)
    } else if op == SAVE_0 || op == SAVE_1 || op == SAVE_2 || op == SAVE_3 {
        save_reg_spec(t, op - SAVE_0)
    } else if op == LOCAL_0 || op == LOCAL_1 || op == LOCAL_2 || op == LOCAL_3 {
        local_spec(t, (op - LOCAL_0) as u16)
    } else if op == CONST_0 || op == CONST_1 || op == CONST_2 || op == CONST_3 {
        push_spec(t, (op - CONST_0) as u8)
    } else if op == LOAD {
        load_ind_spec(t)
    } else if op == SAVE {
        save_ind_spec(t)
    } else if op == DUP_B {
        push_spec(t, tos(t))
    } else if op == CLEAR_FLAGS {
        clear_flags_spec(t)
    } else if op == TEST {
        test_spec(t)
    } else if op == ADD {
        binop_spec(t, alu::ALU_ADD)
    } else if op == ADD_CARRY {
        binop_spec(t, alu::ALU_ADC)
    } else if op == SUBTRACT {
        binop_spec(t, alu::ALU_SUB)
    } else if op == SUB_BORROW {
        binop_spec(t, alu::ALU_SBB)
    } else if op == MULTIPLY {
        binop_spec(t, alu::ALU_MUL)
    } else if op == COMPARE {
        compare_spec(t)
    } else if op == SHIFT_LEFT {
        binop_spec(t, alu::ALU_SHL)
    } else if op == SHIFT_RIGHT {
        binop_spec(t, alu::ALU_SHR)
    } else if op == ROTATE_LEFT {
        binop_spec(t, alu::ALU_ROL)
    } else if op == ROTATE_RIGHT {
        binop_spec(t, alu::ALU_ROR)
    } else if op == NOT {
        not_spec(t)
    } else if op == AND {
        binop_spec(t, alu::ALU_AND)
    } else if op == INCLUSIVE_OR {
        binop_spec(t, alu::ALU_IOR)
    } else if op == EXCLUSIVE_OR {
        binop_spec(t, alu::ALU_XOR)
    } else if is_cond(op) {
        cond_spec(t, cond_pred(op, t.alu))
    } else if op == IMM_BRANCH {
        CtrlView { ip: w16(t.ip + pl), ..t }
    } else if op == IMM_BRANCH_S {
        CtrlView { ip: w16(t.ip + sext8(pl)), ..t }
    } else if op == IMM_CONST {
        push_spec(t, pl)
    } else if op == LOCAL {
        local_spec(t, pl as u16)
    } else if op == GOTO {
        CtrlView { ip: p16, ..t }
    } else if op == SET_STACK {
        CtrlView { sp: p16, ..t }
    } else if op == IMM_LOAD {
        push_spec(t, byte_at(t, p16))
    } else if op == IMM_LOAD_OFFSET_B {
        imm_load_off_spec(t, p16)
    } else if op == IMM_CONST_D {
        push_spec(push_spec(t, pl), ph)
    } else if op == IMM_SAVE {
        imm_save_spec(t, p16)
    } else if op == IMM_SAVE_OFFSET_B {
        imm_save_off_spec(t, p16)
    } else {
        wait_spec(t)
    }
}

/// Law: pushing a byte and popping it back yields the pushed byte, and the
/// stack pointer is restored to its prior value.
pub proof fn lemma_push_pop(s: CtrlView, b: u8)
    requires
        push_ok(s),
    ensures
        tos(push_spec(s, b)) == b,
        w16(push_spec(s, b).sp - 1) == s.sp,
{
    lemma_w16_add(s.sp + 1, -1);
    lemma_w16_u16(s.sp);
}

/// Law: `ENTER` followed immediately by `LEAVE`, with no intervening pushes,
/// restores `LOCAL` and `SP` to their prior values.
pub proof fn lemma_enter_leave(s: CtrlView)
    requires
        push2_ok(s),
    ensures
        leave_spec(enter_spec(s)).local == s.local,
        leave_spec(enter_spec(s)).sp == s.sp,
{
    lemma_w16_add(s.sp + 1, 1);
    lemma_w16_add(s.sp + 2, 1);
    lemma_w16_add(s.sp + 3, -1);
    lemma_w16_add(s.sp + 3, -2);
    lemma_w16_add(s.sp + 3, -3);
    lemma_w16_u16(s.sp);
    lemma_w16_val(s.sp + 1);
    lemma_w16_val(s.sp + 2);
    lemma_fundamental_div_mod(s.local as int, 256);
}

/// Law: `CALL` followed by `GOBACK` returns to the instruction after the
/// `CALL`, since `IP` at the time of the `CALL` already points past it.
pub proof fn lemma_call_goback(s: CtrlView)
    ensures
        goback_spec(call_spec(s)).ip == s.ip,
{
}

/// Law: popping the top two stack bytes into two distinct scratch registers
/// and pushing them back in reverse order restores the stack pointer and the
/// stack contents.
pub proof fn lemma_save_load_round_trip(s: CtrlView, a: int, b: int)
    requires
        0 <= a < 4,
        0 <= b < 4,
        a != b,
        in_mem(s, s.sp),
        in_mem(s, w16(s.sp - 1)),
    ensures
        load_reg_spec(load_reg_spec(save_reg_spec(save_reg_spec(s, a), b), b), a).sp == s.sp,
        load_reg_spec(load_reg_spec(save_reg_spec(save_reg_spec(s, a), b), b), a).mem == s.mem,
{
    lemma_w16_add(s.sp - 1, -1);
    lemma_w16_add(s.sp - 2, 1);
    lemma_w16_add(s.sp - 1, 1);
    lemma_w16_u16(s.sp);
    let r = load_reg_spec(load_reg_spec(save_reg_spec(save_reg_spec(s, a), b), b), a);
    assert(r.mem =~= s.mem);
}

/// Law: `IMM_CONST_D` pushes its two parameter bytes (high byte on top), and
/// a pair of `SAVE_k`/`LOAD_k` round trips through two distinct scratch
/// registers preserves both bytes in order.
pub proof fn lemma_imm_const_d_round_trip(s: CtrlView, vl: u8, vh: u8, a: int, b: int)
    requires
        push2_ok(s),
        0 <= a < 4,
        0 <= b < 4,
        a != b,
    ensures
        ({
            let s2 = push_spec(push_spec(s, vl), vh);
            let r = load_reg_spec(load_reg_spec(save_reg_spec(save_reg_spec(s2, a), b), b), a);
            r.sp == s2.sp && tos(r) == vh && byte_at(r, w16(r.sp - 1)) == vl
        }),
{
    let s2 = push_spec(push_spec(s, vl), vh);
    lemma_w16_add(s.sp + 1, 1);
    lemma_w16_add(s.sp + 2, -1);
    lemma_w16_val(s.sp + 1);
    lemma_w16_val(s.sp + 2);
    lemma_save_load_round_trip(s2, a, b);
}

/// A 16-bit value is already reduced.
pub proof fn lemma_w16_u16(a: u16)
    ensures
        w16(a as int) == a,
{
    lemma_small_mod(a as nat, 0x10000);
}

/// Value of `w16` on the range one wrap step wide on either side.
pub proof fn lemma_w16_val(i: int)
    requires
        -0x10000 <= i < 0x20000,
    ensures
        0 <= i < 0x10000 ==> w16(i) == i,
        0x10000 <= i ==> w16(i) == i - 0x10000,
        i < 0 ==> w16(i) == i + 0x10000,
{
    if 0 <= i < 0x10000 {
        lemma_small_mod(i as nat, 0x10000);
    } else if i >= 0x10000 {
        lemma_mod_multiples_vanish(1, i - 0x10000, 0x10000);
        lemma_small_mod((i - 0x10000) as nat, 0x10000);
    } else {
        lemma_mod_multiples_vanish(-1, i + 0x10000, 0x10000);
        lemma_small_mod((i + 0x10000) as nat, 0x10000);
    }
}

/// Reduction composes: reducing an already reduced value shifted by `k`
/// equals reducing the shifted original.
pub proof fn lemma_w16_add(i: int, k: int)
    ensures
        w16(w16(i) + k) == w16(i + k),
{
    let m = 0x10000int;
    lemma_fundamental_div_mod(i, m);
    lemma_mod_multiples_vanish(i / m, i % m + k, m);
    assert(m * (i / m) + (i % m + k) == i + k);
}

/// Wrapping 16-bit addition.
fn wadd16(a: u16, k: u16) -> (r: u16)
    ensures
        r == w16(a + k),
{
    proof {
        lemma_w16_val(a + k);
    }
    let s: u32 = a as u32 + k as u32;
    if s < 0x10000 {
        s as u16
    } else {
        (s - 0x10000) as u16
    }
}

/// Wrapping 16-bit subtraction.
fn wsub16(a: u16, k: u16) -> (r: u16)
    ensures
        r == w16(a - k),
{
    proof {
        lemma_w16_val(a - k);
    }
    if a >= k {
        a - k
    } else {
        ((a as u32 + 0x10000) - k as u32) as u16
    }
}

/// Sign extension from 8 to 16 bits.
fn sext8_exec(b: u8) -> (r: u16)
    ensures
        r == sext8(b),
{
    if b < 128 {
        b as u16
    } else {
        b as u16 + 0xFF00
    }
}

pub struct Control {
    instr_ptr: u16,
    stack_ptr: u16,
    alu: ALU,
    mem: Memory,
    save_0: u8,
    save_1: u8,
    save_2: u8,
    save_3: u8,
    link: u16,
    local: u16,
    running: bool,
}

impl View for Control {
    type V = CtrlView;

    closed spec fn view(&self) -> CtrlView {
        CtrlView {
            ip: self.instr_ptr,
            sp: self.stack_ptr,
            alu: self.alu@,
            mem: self.mem@.bytes,
            s0: self.save_0,
            s1: self.save_1,
            s2: self.save_2,
            s3: self.save_3,
            link: self.link,
            local: self.local,
            running: self.running,
        }
    }
}

/// A fresh machine: zeroed registers and flags, empty memory, not running.
pub fn new() -> (r: Control)
    ensures
        r@ == (CtrlView {
            ip: 0,
            sp: 0,
            alu: alu::rst_spec(),
            mem: Seq::<u8>::empty(),
            s0: 0,
            s1: 0,
            s2: 0,
            s3: 0,
            link: 0,
            local: 0,
            running: false,
        }),
{
    let r = Control {
        instr_ptr: 0,
        stack_ptr: 0,
        alu: alu::new(),
        mem: memory::new(0),
        save_0: 0,
        save_1: 0,
        save_2: 0,
        save_3: 0,
        link: 0,
        local: 0,
        running: false,
    };
    proof {
        assert(r@.mem =~= Seq::<u8>::empty());
    }
    r
}

impl Control {
    /// Replace memory with the program image; the memory size becomes the
    /// image length. Only legal before execution begins.
    pub fn load_image(&mut self, image: Vec<u8>)
        ensures
            final(self)@ == (CtrlView { mem: image@, ..old(self)@ }),
    {
        self.mem.load_image(image);
    }

    /// Start execution: byte 0 of the image is the first opcode.
    pub fn start(&mut self)
        ensures
            final(self)@ == (CtrlView { running: true, ..old(self)@ }),
    {
        self.running = true;
    }

    /// Whether the machine is running; cleared by `WAIT` and by unknown
    /// opcodes.
    pub fn is_running(&self) -> (r: bool)
        ensures
            r == self@.running,
    {
        self.running
    }

    /// The instruction pointer.
    pub fn instr_ptr(&self) -> (r: u16)
        ensures
            r == self@.ip,
    {
        self.instr_ptr
    }

    /// The stack pointer.
    pub fn stack_ptr(&self) -> (r: u16)
        ensures
            r == self@.sp,
    {
        self.stack_ptr
    }

    /// The return-address register.
    pub fn link(&self) -> (r: u16)
        ensures
            r == self@.link,
    {
        self.link
    }

    /// The local-frame base register.
    pub fn local(&self) -> (r: u16)
        ensures
            r == self@.local,
    {
        self.local
    }

    /// Scratch register `S0`.
    pub fn save_0(&self) -> (r: u8)
        ensures
            r == self@.s0,
    {
        self.save_0
    }

    /// Scratch register `S1`.
    pub fn save_1(&self) -> (r: u8)
        ensures
            r == self@.s1,
    {
        self.save_1
    }

    /// Scratch register `S2`.
    pub fn save_2(&self) -> (r: u8)
        ensures
            r == self@.s2,
    {
        self.save_2
    }

    /// Scratch register `S3`.
    pub fn save_3(&self) -> (r: u8)
        ensures
            r == self@.s3,
    {
        self.save_3
    }

    /// The ALU flags packed into a byte, laid out as `C=0, V=1, Z=2, N=3,
    /// O=4`.
    pub fn alu_flags(&self) -> (r: u8)
        ensures
            r == alu::flags_byte(self@.alu.o, self@.alu.n, self@.alu.z, self@.alu.v, self@.alu.c),
    {
        self.alu.flags()
    }

    /// The number of memory bytes.
    pub fn mem_size(&self) -> (r: usize)
        ensures
            r == self@.mem.len(),
    {
        self.mem.size()
    }

    /// Observer access: the memory byte at `addr`.
    pub fn mem_read(&self, addr: u16) -> (r: u8)
        requires
            in_mem(self@, addr),
        ensures
            r == byte_at(self@, addr),
    {
        self.mem.public_read(addr)
    }

    /// Latch `a` and read the byte there.
    fn read_at(&mut self, a: u16) -> (r: u8)
        requires
            in_mem(old(self)@, a),
        ensures
            final(self)@ == old(self)@,
            r == byte_at(old(self)@, a),
    {
        self.mem.set_addr(a);
        self.mem.read()
    }

    /// Latch `a` and store `v` there.
    fn write_at(&mut self, a: u16, v: u8)
        requires
            in_mem(old(self)@, a),
        ensures
            final(self)@ == (CtrlView { mem: old(self)@.mem.update(a as int, v), ..old(self)@ }),
    {
        self.mem.set_addr(a);
        self.mem.write(v);
    }

    /// Push one byte onto the evaluation stack.
    fn push_byte(&mut self, b: u8)
        requires
            push_ok(old(self)@),
        ensures
            final(self)@ == push_spec(old(self)@, b),
    {
        self.stack_ptr = wadd16(self.stack_ptr, 1);
        let sp = self.stack_ptr;
        self.write_at(sp, b);
    }

    /// Run a two-operand ALU instruction over the top two stack bytes.
    fn alu_binop(&mut self, op: u8)
        requires
            op <= alu::ALU_MAX_OPCODE,
            in_mem(old(self)@, old(self)@.sp),
            in_mem(old(self)@, w16(old(self)@.sp - 1)),
        ensures
            final(self)@ == binop_spec(old(self)@, op),
    {
        let sp = self.stack_ptr;
        let y = self.read_at(sp);
        self.alu.load_y(y);
        let xa = wsub16(sp, 1);
        let x = self.read_at(xa);
        self.alu.load_x(x);
        self.alu.load_op(op);
        self.alu.compute();
        self.stack_ptr = xa;
        let r = self.alu.result();
        self.write_at(xa, r);
    }

    /// Execute a conditional opcode: when the predicate fails, skip the next
    /// instruction by its encoded length.
    fn cond_skip(&mut self, taken: bool)
        requires
            in_mem(old(self)@, old(self)@.ip),
        ensures
            final(self)@ == cond_spec(old(self)@, taken),
    {
        let ip = self.instr_ptr;
        let next = self.read_at(ip);
        if !taken {
            self.instr_ptr = wadd16(self.instr_ptr, 1 + (next / 64) as u16);
        }
    }

    /// One fetch-decode-execute step, exactly as the specification function
    /// [`step`] prescribes. When the machine is halted this is a no-op.
    pub fn execute_instruction(&mut self)
        requires
            old(self)@.running ==> step_ok(old(self)@),
        ensures
            old(self)@.running ==> final(self)@ == step(old(self)@),
            !old(self)@.running ==> final(self)@ == old(self)@,
    {
        if !self.running {
            return ;
        }
        let ghost s0 = self@;
        // Fetch: the opcode and both parameter bytes are always read.
        let ip = self.instr_ptr;
        let instruction = self.read_at(ip);
        let a1 = wadd16(ip, 1);
        let p_lo = self.read_at(a1);
        let a2 = wadd16(ip, 2);
        let p_hi = self.read_at(a2);
        let p16: u16 = (p_hi as u16) * 256 + (p_lo as u16);
        // Decode: advance by the length held in the top two opcode bits.
        self.instr_ptr = wadd16(ip, 1 + (instruction / 64) as u16);
        proof {
            assert(instruction == opcode_at(s0));
            assert(p_lo == param_low(s0));
            assert(p_hi == param_high(s0));
            assert(p16 == param16(s0));
            assert(self@ == advanced(s0));
        }
        // Execute.
        match instruction {
            WAIT => {
                self.running = false;
            },
            RESET => {
                self.instr_ptr = 0;
                self.stack_ptr = 0;
                self.alu.reset();
                self.save_0 = 0;
                self.save_1 = 0;
                self.save_2 = 0;
                self.save_3 = 0;
                self.link = 0;
                self.local = 0;
                self.running = true;
            },
            OVERFLOW => {
                let b = self.alu.res_hi();
                self.push_byte(b);
            },
            BRANCH => {
                let sp = self.stack_ptr;
                let b = self.read_at(sp);
                self.stack_ptr = wsub16(sp, 1);
                self.instr_ptr = wadd16(self.instr_ptr, b as u16);
            },
            BRANCH_S => {
                let sp = self.stack_ptr;
                let b = self.read_at(sp);
                self.stack_ptr = wsub16(sp, 1);
                let off = sext8_exec(b);
                self.instr_ptr = wadd16(self.instr_ptr, off);
            },
            ENTER => {
                let lo = (self.local % 256) as u8;
                let hi = (self.local / 256) as u8;
                proof {
                    lemma_w16_add(self@.sp + 1, 1);
                }
                self.push_byte(lo);
                self.push_byte(hi);
                self.local = wadd16(self.stack_ptr, 1);
            },
            LEAVE => {
                let b1 = wsub16(self.local, 1);
                let hi = self.read_at(b1);
                let b2 = wsub16(self.local, 2);
                let lo = self.read_at(b2);
                self.stack_ptr = wsub16(self.local, 3);
                self.local = (hi as u16) * 256 + (lo as u16);
            },
            LOAD_0 => {
                let b = self.save_0;
                self.push_byte(b);
            },
            LOAD_1 => {
                let b = self.save_1;
                self.push_byte(b);
            },
            LOAD_2 => {
                let b = self.save_2;
                self.push_byte(b);
            },
            LOAD_3 => {
                let b = self.save_3;
                self.push_byte(b);
            },
            UNLINK => {
                let lo = (self.link % 256) as u8;
                let hi = (self.link / 256) as u8;
                proof {
                    lemma_w16_add(self@.sp + 1, 1);
                }
                self.push_byte(lo);
                self.push_byte(hi);
            },
            LINK => {
                let sp = self.stack_ptr;
                let hi = self.read_at(sp);
                let b1 = wsub16(sp, 1);
                let lo = self.read_at(b1);
                self.stack_ptr = wsub16(sp, 2);
                self.link = (hi as u16) * 256 + (lo as u16);
            },
            CALL => {
                let sp = self.stack_ptr;
                let hi = self.read_at(sp);
                let b1 = wsub16(sp, 1);
                let lo = self.read_at(b1);
                self.stack_ptr = wsub16(sp, 2);
                self.link = self.instr_ptr;
                self.instr_ptr = (hi as u16) * 256 + (lo as u16);
            },
            GOBACK => {
                self.instr_ptr = self.link;
            },
            SAVE_0 => {
                let sp = self.stack_ptr;
                let d = self.read_at(sp);
                self.save_0 = d;
                self.stack_ptr = wsub16(sp, 1);
            },
            SAVE_1 => {
                let sp = self.stack_ptr;
                let d = self.read_at(sp);
                self.save_1 = d;
                self.stack_ptr = wsub16(sp, 1);
            },
            SAVE_2 => {
                let sp = self.stack_ptr;
                let d = self.read_at(sp);
                self.save_2 = d;
                self.stack_ptr = wsub16(sp, 1);
            },
            SAVE_3 => {
                let sp = self.stack_ptr;
                let d = self.read_at(sp);
                self.save_3 = d;
                self.stack_ptr = wsub16(sp, 1);
            },
            LOCAL_0 => {
                self.push_local(0);
            },
            LOCAL_1 => {
                self.push_local(1);
            },
            LOCAL_2 => {
                self.push_local(2);
            },
            LOCAL_3 => {
                self.push_local(3);
            },
            LOCAL => {
                self.push_local(p_lo as u16);
            },
            CONST_0 => {
                self.push_byte(0);
            },
            CONST_1 => {
                self.push_byte(1);
            },
            CONST_2 => {
                self.push_byte(2);
            },
            CONST_3 => {
                self.push_byte(3);
            },
            LOAD => {
                let sp = self.stack_ptr;
                let hi = self.read_at(sp);
                let b1 = wsub16(sp, 1);
                let lo = self.read_at(b1);
                self.stack_ptr = b1;
                let addr = (hi as u16) * 256 + (lo as u16);
                let x = self.read_at(addr);
                self.write_at(b1, x);
            },
            SAVE => {
                let sp = self.stack_ptr;
                let hi = self.read_at(sp);
                let b1 = wsub16(sp, 1);
                let lo = self.read_at(b1);
                let b2 = wsub16(sp, 2);
                let x = self.read_at(b2);
                self.stack_ptr = wsub16(sp, 3);
                let addr = (hi as u16) * 256 + (lo as u16);
                self.write_at(addr, x);
            },
            DUP_B => {
                let sp = self.stack_ptr;
                let x = self.read_at(sp);
                self.push_byte(x);
            },
            CLEAR_FLAGS => {
                self.alu.load_op(alu::ALU_RST);
                self.alu.compute();
            },
            TEST => {
                let sp = self.stack_ptr;
                let x = self.read_at(sp);
                self.alu.load_x(x);
                self.alu.load_op(alu::ALU_NOP);
                self.alu.compute();
                self.stack_ptr = wsub16(sp, 1);
            },
            NOT => {
                let sp = self.stack_ptr;
                let x = self.read_at(sp);
                self.alu.load_x(x);
                self.alu.load_op(alu::ALU_NOT);
                self.alu.compute();
                let r = self.alu.result();
                self.write_at(sp, r);
            },
            COMPARE => {
                let sp = self.stack_ptr;
                let y = self.read_at(sp);
                self.alu.load_y(y);
                let b1 = wsub16(sp, 1);
                let x = self.read_at(b1);
                self.alu.load_x(x);
                self.alu.load_op(alu::ALU_SUB);
                self.alu.compute();
                self.stack_ptr = wsub16(sp, 2);
            },
            ADD => {
                self.alu_binop(alu::ALU_ADD);
            },
            ADD_CARRY => {
                self.alu_binop(alu::ALU_ADC);
            },
            SUBTRACT => {
                self.alu_binop(alu::ALU_SUB);
            },
            SUB_BORROW => {
                self.alu_binop(alu::ALU_SBB);
            },
            MULTIPLY => {
                self.alu_binop(alu::ALU_MUL);
            },
            SHIFT_LEFT => {
                self.alu_binop(alu::ALU_SHL);
            },
            SHIFT_RIGHT => {
                self.alu_binop(alu::ALU_SHR);
            },
            ROTATE_LEFT => {
                self.alu_binop(alu::ALU_ROL);
            },
            ROTATE_RIGHT => {
                self.alu_binop(alu::ALU_ROR);
            },
            AND => {
                self.alu_binop(alu::ALU_AND);
            },
            INCLUSIVE_OR => {
                self.alu_binop(alu::ALU_IOR);
            },
            EXCLUSIVE_OR => {
                self.alu_binop(alu::ALU_XOR);
            },
            IF_EQUAL => {
                let p = self.alu.test_z();
                self.cond_skip(p);
            },
            IF_UNEQUAL => {
                let p = self.alu.test_z();
                self.cond_skip(!p);
            },
            IF_POSITIVE => {
                let p = self.alu.test_n();
                self.cond_skip(!p);
            },
            IF_NEGATIVE => {
                let p = self.alu.test_n();
                self.cond_skip(p);
            },
            IF_ODD => {
                let p = self.alu.test_o();
                self.cond_skip(p);
            },
            IF_EVEN => {
                let p = self.alu.test_o();
                self.cond_skip(!p);
            },
            IF_OVERFLOW => {
                let p = self.alu.test_v();
                self.cond_skip(p);
            },
            IF_NO_OVERFLOW => {
                let p = self.alu.test_v();
                self.cond_skip(!p);
            },
            IF_GREATER_EQUAL => {
                let n = self.alu.test_n();
                let v = self.alu.test_v();
                self.cond_skip(n == v);
            },
            IF_LESS_EQUAL => {
                let n = self.alu.test_n();
                let v = self.alu.test_v();
                let z = self.alu.test_z();
                self.cond_skip(n != v || z);
            },
            IF_GREATER => {
                let n = self.alu.test_n();
                let v = self.alu.test_v();
                let z = self.alu.test_z();
                self.cond_skip(n == v && !z);
            },
            IF_LESS => {
                let n = self.alu.test_n();
                let v = self.alu.test_v();
                self.cond_skip(n != v);
            },
            IF_HIGHER => {
                let c = self.alu.test_c();
                let z = self.alu.test_z();
                self.cond_skip(!c && !z);
            },
            IF_LOWER => {
                let c = self.alu.test_c();
                self.cond_skip(c);
            },
            IF_CARRY => {
                let c = self.alu.test_c();
                self.cond_skip(c);
            },
            IF_NO_CARRY => {
                let c = self.alu.test_c();
                self.cond_skip(!c);
            },
            IMM_BRANCH => {
                self.instr_ptr = wadd16(self.instr_ptr, p_lo as u16);
            },
            IMM_BRANCH_S => {
                let off = sext8_exec(p_lo);
                self.instr_ptr = wadd16(self.instr_ptr, off);
            },
            IMM_CONST => {
                self.push_byte(p_lo);
            },
            GOTO => {
                self.instr_ptr = p16;
            },
            SET_STACK => {
                self.stack_ptr = p16;
            },
            IMM_LOAD => {
                let x = self.read_at(p16);
                self.push_byte(x);
            },
            IMM_LOAD_OFFSET_B => {
                let sp = self.stack_ptr;
                let off = self.read_at(sp);
                let a = wadd16(p16, off as u16);
                let x = self.read_at(a);
                self.write_at(sp, x);
            },
            IMM_CONST_D => {
                proof {
                    lemma_w16_add(self@.sp + 1, 1);
                }
                self.push_byte(p_lo);
                self.push_byte(p_hi);
            },
            IMM_SAVE => {
                let sp = self.stack_ptr;
                let x = self.read_at(sp);
                self.stack_ptr = wsub16(sp, 1);
                self.write_at(p16, x);
            },
            IMM_SAVE_OFFSET_B => {
                let sp = self.stack_ptr;
                let off = self.read_at(sp);
                let a = wadd16(p16, off as u16);
                let b1 = wsub16(sp, 1);
                let x = self.read_at(b1);
                self.stack_ptr = wsub16(sp, 2);
                self.write_at(a, x);
            },
            _ => {
                self.running = false;
            },
        }
    }

    /// Push the byte at `LOCAL + k`.
    fn push_local(&mut self, k: u16)
        requires
            in_mem(old(self)@, w16(old(self)@.local + k)),
            push_ok(old(self)@),
        ensures
            final(self)@ == local_spec(old(self)@, k),
    {
        let a = wadd16(self.local, k);
        let x = self.read_at(a);
        self.push_byte(x);
    }
}

} // verus!
