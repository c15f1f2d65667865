//! The ALU: a pure combinational function from `(x, y, op)` to
//! `(result, res_hi, flags)`.
//!
//! Five byte latches (`x`, `y`, `op`, `result`, `res_hi`) and five flags laid
//! out in a byte as `C=0, V=1, Z=2, N=3, O=4`. Every `compute` first clears
//! the flags (except that `ADC`/`SBB` latch the incoming carry as carry-in
//! first), then sets each bit iff its defining predicate holds. All
//! arithmetic is modulo 256 on `result`; `res_hi` is only written by `MUL`,
//! `SHL` and `SHR` and is otherwise left untouched.

use vstd::arithmetic::div_mod::{
    lemma_fundamental_div_mod, lemma_mod_multiples_vanish, lemma_small_mod,
};
use vstd::prelude::*;

verus! {

/// Bit position of the carry/borrow flag in the packed flags byte.
pub const FLAG_C: u8 = 0;

/// Bit position of the signed-overflow flag in the packed flags byte.
pub const FLAG_V: u8 = 1;

/// Bit position of the zero flag in the packed flags byte.
pub const FLAG_Z: u8 = 2;

/// Bit position of the negative flag in the packed flags byte.
pub const FLAG_N: u8 = 3;

/// Bit position of the odd (low-bit) flag in the packed flags byte.
pub const FLAG_O: u8 = 4;

pub const ALU_RST: u8 = 0;

pub const ALU_NOP: u8 = 1;

pub const ALU_ADD: u8 = 2;

pub const ALU_ADC: u8 = 3;

pub const ALU_SUB: u8 = 4;

pub const ALU_SBB: u8 = 5;

pub const ALU_MUL: u8 = 6;

pub const ALU_RES: u8 = 7;

pub const ALU_SHL: u8 = 8;

pub const ALU_SHR: u8 = 9;

pub const ALU_ROL: u8 = 10;

pub const ALU_ROR: u8 = 11;

pub const ALU_NOT: u8 = 12;

pub const ALU_AND: u8 = 13;

pub const ALU_IOR: u8 = 14;

pub const ALU_XOR: u8 = 15;

/// Largest valid ALU op code (inclusive).
pub const ALU_MAX_OPCODE: u8 = 15;

/// Mathematical state of the ALU: the operand latches, the two result bytes,
/// and the five flags as plain booleans.
#[verifier::ext_equal]
pub ghost struct AluView {
    pub x: u8,
    pub y: u8,
    pub op: u8,
    pub result: u8,
    pub res_hi: u8,
    /// Odd: the low bit of the produced result is 1.
    pub o: bool,
    /// Negative: bit 7 of the result is 1.
    pub n: bool,
    /// Zero: the result is 0 (over the full product for `MUL`, over both
    /// result bytes for `SHL`/`SHR`).
    pub z: bool,
    /// Signed overflow; op-specific.
    pub v: bool,
    /// Carry, borrow or high-byte-nonzero; op-specific.
    pub c: bool,
}

/// The low bit of `b` is set.
pub open spec fn low_bit(b: u8) -> bool {
    b % 2 == 1
}

/// Bit 7 of `b` is set: as a signed byte, `b` is negative.
pub open spec fn high_bit(b: u8) -> bool {
    b >= 128
}

/// The five flags packed into one byte, laid out as `C=0, V=1, Z=2, N=3, O=4`.
pub open spec fn flags_byte(o: bool, n: bool, z: bool, v: bool, c: bool) -> u8 {
    ((if o {
        16int
    } else {
        0int
    }) + (if n {
        8int
    } else {
        0int
    }) + (if z {
        4int
    } else {
        0int
    }) + (if v {
        2int
    } else {
        0int
    }) + (if c {
        1int
    } else {
        0int
    })) as u8
}

/// Signed-overflow predicate for addition: both operands share a sign and the
/// result does not.
pub open spec fn add_overflow(x: u8, y: u8, r: u8) -> bool {
    (!high_bit(x) && !high_bit(y) && high_bit(r)) || (high_bit(x) && high_bit(y) && !high_bit(r))
}

/// Signed-overflow predicate for subtraction: the operands differ in sign and
/// the result has the sign of the subtrahend.
pub open spec fn sub_overflow(x: u8, y: u8, r: u8) -> bool {
    (!high_bit(x) && high_bit(y) && high_bit(r)) || (high_bit(x) && !high_bit(y) && !high_bit(r))
}

/// `RST`: zero every latch and every flag.
pub open spec fn rst_spec() -> AluView {
    AluView {
        x: 0,
        y: 0,
        op: 0,
        result: 0,
        res_hi: 0,
        o: false,
        n: false,
        z: false,
        v: false,
        c: false,
    }
}

/// `NOP` (also `TEST` and the reserved op 7): result is `x`; `O`, `N`, `Z`
/// reflect it; `V` and `C` are never set.
pub open spec fn nop_spec(s: AluView) -> AluView {
    AluView {
        result: s.x,
        o: low_bit(s.x),
        n: high_bit(s.x),
        z: s.x == 0,
        v: false,
        c: false,
        ..s
    }
}

/// `ADD`/`ADC`: `x + y + cin` modulo 256; carry iff the true sum reaches 256.
pub open spec fn add_spec(s: AluView, cin: int) -> AluView {
    let sum = s.x + s.y + cin;
    let r = (sum % 256) as u8;
    AluView {
        result: r,
        o: low_bit(r),
        n: high_bit(r),
        z: r == 0,
        v: add_overflow(s.x, s.y, r),
        c: sum >= 256,
        ..s
    }
}

/// `SUB`/`SBB`: `x - y - bin` modulo 256; borrow iff `x < y + bin`.
pub open spec fn sub_spec(s: AluView, bin: int) -> AluView {
    let r = ((s.x - s.y - bin + 256) % 256) as u8;
    AluView {
        result: r,
        o: low_bit(r),
        n: high_bit(r),
        z: r == 0,
        v: sub_overflow(s.x, s.y, r),
        c: s.x < s.y + bin,
        ..s
    }
}

/// `MUL`: the 16-bit product, low byte in `result`, high byte in `res_hi`.
/// `Z` is over the full product; `C` iff the high byte is nonzero; `N` and
/// `V` are never set.
pub open spec fn mul_spec(s: AluView) -> AluView {
    let p = s.x * s.y;
    AluView {
        result: (p % 256) as u8,
        res_hi: (p / 256) as u8,
        o: p % 2 == 1,
        n: false,
        z: p == 0,
        v: false,
        c: p / 256 != 0,
        ..s
    }
}

/// `SHL`: `x` shifted left by `y` inside a 32-bit window (zero when
/// `y >= 32`). `result` is the low byte, `res_hi` the next; `C` is bit 8 of
/// the window; `V` iff bits above 15 are set or the shift pushed everything
/// out of a nonzero `x`; `Z` is over both result bytes.
pub open spec fn shl_spec(s: AluView) -> AluView {
    let sh = if s.y < 32 {
        (s.x as u32) << (s.y as u32)
    } else {
        0u32
    };
    let lo = (sh % 256) as u8;
    let hi = ((sh / 256) % 256) as u8;
    AluView {
        result: lo,
        res_hi: hi,
        o: low_bit(lo),
        n: false,
        z: lo == 0 && hi == 0,
        v: sh / 0x10000 != 0 || (s.x != 0 && s.y > 23),
        c: (sh / 256) % 2 == 1,
        ..s
    }
}

/// `SHR`: `x` placed in bits 24..31 of a 32-bit window, shifted right by `y`
/// (zero when `y >= 32`). `result` is the top byte of the window, `res_hi`
/// the next; `C` is bit 23 (the last bit shifted out); `V` iff the low 16
/// bits are nonzero or the shift pushed everything out of a nonzero `x`;
/// `Z` is over both result bytes.
pub open spec fn shr_spec(s: AluView) -> AluView {
    let sh = if s.y < 32 {
        ((s.x as u32) << 24u32) >> (s.y as u32)
    } else {
        0u32
    };
    let top = ((sh / 0x1000000) % 256) as u8;
    let mid = ((sh / 0x10000) % 256) as u8;
    AluView {
        result: top,
        res_hi: mid,
        o: low_bit(top),
        n: false,
        z: top == 0 && mid == 0,
        v: sh % 0x10000 != 0 || (s.x != 0 && s.y > 23),
        c: (sh / 0x800000) % 2 == 1,
        ..s
    }
}

/// `x` rotated left by `k` bit positions (`k` taken modulo 8).
pub open spec fn rotl8(x: u8, k: u8) -> u8 {
    let sh = k % 8;
    if sh == 0 {
        x
    } else {
        (x << sh) | (x >> (8 - sh) as u8)
    }
}

/// `x` rotated right by `k` bit positions (`k` taken modulo 8).
pub open spec fn rotr8(x: u8, k: u8) -> u8 {
    let sh = k % 8;
    if sh == 0 {
        x
    } else {
        (x >> sh) | (x << (8 - sh) as u8)
    }
}

/// `ROL`/`ROR`: rotate `x` by `y`; only `O` and `Z` are derived.
pub open spec fn rot_spec(s: AluView, left: bool) -> AluView {
    let r = if left {
        rotl8(s.x, s.y)
    } else {
        rotr8(s.x, s.y)
    };
    AluView { result: r, o: low_bit(r), n: false, z: r == 0, v: false, c: false, ..s }
}

/// `NOT`/`AND`/`IOR`/`XOR`: the bitwise result with `O`, `N`, `Z` derived
/// from it; `V` and `C` are never set.
pub open spec fn logic_spec(s: AluView, r: u8) -> AluView {
    AluView { result: r, o: low_bit(r), n: high_bit(r), z: r == 0, v: false, c: false, ..s }
}

/// One `compute` step: the full operation table, dispatched on `s.op`.
/// Ops 1 (`NOP`) and 7 (reserved) both behave as `NOP`.
pub open spec fn alu_compute(s: AluView) -> AluView {
    if s.op == ALU_RST {
        rst_spec()
    } else if s.op == ALU_ADD {
        add_spec(s, 0)
    } else if s.op == ALU_ADC {
        add_spec(
            s,
            if s.c {
                1int
            } else {
                0int
            },
        )
    } else if s.op == ALU_SUB {
        sub_spec(s, 0)
    } else if s.op == ALU_SBB {
        sub_spec(
            s,
            if s.c {
                1int
            } else {
                0int
            },
        )
    } else if s.op == ALU_MUL {
        mul_spec(s)
    } else if s.op == ALU_SHL {
        shl_spec(s)
    } else if s.op == ALU_SHR {
        shr_spec(s)
    } else if s.op == ALU_ROL {
        rot_spec(s, true)
    } else if s.op == ALU_ROR {
        rot_spec(s, false)
    } else if s.op == ALU_NOT {
        logic_spec(s, !s.x)
    } else if s.op == ALU_AND {
        logic_spec(s, s.x & s.y)
    } else if s.op == ALU_IOR {
        logic_spec(s, s.x | s.y)
    } else if s.op == ALU_XOR {
        logic_spec(s, s.x ^ s.y)
    } else {
        nop_spec(s)
    }
}

/// Law: for every operation, the odd flag holds iff the low bit of the
/// produced result byte is 1 (for `SHL` that byte is the low half, for `SHR`
/// the high half; both sit in `result`).
pub proof fn lemma_odd_flag(s: AluView)
    requires
        s.op <= ALU_MAX_OPCODE,
    ensures
        alu_compute(s).o == low_bit(alu_compute(s).result),
{
    if s.op == ALU_MUL {
        let p = s.x as int * s.y as int;
        let q = p / 256;
        lemma_fundamental_div_mod(p, 256);
        lemma_mod_multiples_vanish(-128 * q, p, 2);
        assert(2 * (-128 * q) + p == p - 256 * q);
    }
}

/// Law: the zero flag holds iff the produced result is zero; for `MUL` that
/// is the full 16-bit product, for `SHL`/`SHR` both result halves. `RST`
/// clears the flags outright, so it is left out.
pub proof fn lemma_zero_flag(s: AluView)
    requires
        1 <= s.op <= ALU_MAX_OPCODE,
    ensures
        (s.op == ALU_MUL || s.op == ALU_SHL || s.op == ALU_SHR) ==> (alu_compute(s).z <==> (
        alu_compute(s).result == 0 && alu_compute(s).res_hi == 0)),
        !(s.op == ALU_MUL || s.op == ALU_SHL || s.op == ALU_SHR) ==> (alu_compute(s).z <==>
        alu_compute(s).result == 0),
{
    if s.op == ALU_MUL {
        let x = s.x;
        let y = s.y;
        assert(0 <= x * y <= 255 * 255) by (nonlinear_arith)
            requires
                0 <= x <= 255,
                0 <= y <= 255,
        ;
        lemma_fundamental_div_mod(x as int * y as int, 256);
    }
}

/// Law: `COMPARE` performs a subtraction and keeps only the flags, so for
/// operands `x` and `y` the zero flag is set iff `x == y` and the carry
/// (borrow) flag iff `x < y`, unsigned.
pub proof fn lemma_compare_flags(s: AluView)
    requires
        s.op == ALU_SUB,
    ensures
        alu_compute(s).z <==> s.x == s.y,
        alu_compute(s).c <==> s.x < s.y,
{
    let d = s.x - s.y - 0 + 256;
    if s.x == s.y {
        lemma_mod_multiples_vanish(1, 0, 256);
    } else if s.x > s.y {
        lemma_mod_multiples_vanish(1, s.x - s.y, 256);
        lemma_small_mod((s.x - s.y) as nat, 256);
    } else {
        lemma_small_mod(d as nat, 256);
    }
}

/// Law: adding `y` to `x` and then subtracting `y` from the sum recovers
/// `x`, when the addition raised no signed overflow.
pub proof fn lemma_add_sub_recover(s1: AluView, s2: AluView)
    requires
        s1.op == ALU_ADD,
        !alu_compute(s1).v,
        s2.op == ALU_SUB,
        s2.x == alu_compute(s1).result,
        s2.y == s1.y,
    ensures
        alu_compute(s2).result == s1.x,
{
    let sum = s1.x + s1.y;
    if sum < 256 {
        lemma_small_mod(sum as nat, 256);
        lemma_mod_multiples_vanish(1, s1.x as int, 256);
        lemma_small_mod(s1.x as nat, 256);
    } else {
        lemma_mod_multiples_vanish(1, sum - 256, 256);
        lemma_small_mod((sum - 256) as nat, 256);
        lemma_small_mod(s1.x as nat, 256);
    }
}

/// Law: a left shift by 32 or more produces zero in both result bytes,
/// clears the carry, and raises the overflow flag exactly when the shifted
/// operand was nonzero.
pub proof fn lemma_shl_large_shift(s: AluView)
    requires
        s.op == ALU_SHL,
        s.y >= 32,
    ensures
        alu_compute(s).result == 0,
        alu_compute(s).res_hi == 0,
        !alu_compute(s).c,
        alu_compute(s).v <==> s.x != 0,
{
}

pub struct ALU {
    x: u8,
    y: u8,
    op: u8,
    result: u8,
    res_hi: u8,
    flag_o: bool,
    flag_n: bool,
    flag_z: bool,
    flag_v: bool,
    flag_c: bool,
}

impl View for ALU {
    type V = AluView;

    closed spec fn view(&self) -> AluView {
        AluView {
            x: self.x,
            y: self.y,
            op: self.op,
            result: self.result,
            res_hi: self.res_hi,
            o: self.flag_o,
            n: self.flag_n,
            z: self.flag_z,
            v: self.flag_v,
            c: self.flag_c,
        }
    }
}

/// A fresh ALU with every latch and flag zeroed.
pub fn new() -> (r: ALU)
    ensures
        r@ == rst_spec(),
{
    ALU {
        x: 0,
        y: 0,
        op: 0,
        result: 0,
        res_hi: 0,
        flag_o: false,
        flag_n: false,
        flag_z: false,
        flag_v: false,
        flag_c: false,
    }
}

impl ALU {
    /// Latch the first operand.
    pub fn load_x(&mut self, x: u8)
        ensures
            final(self)@ == (AluView { x, ..old(self)@ }),
    {
        self.x = x;
    }

    /// Latch the second operand.
    pub fn load_y(&mut self, y: u8)
        ensures
            final(self)@ == (AluView { y, ..old(self)@ }),
    {
        self.y = y;
    }

    /// Latch the operation code.
    pub fn load_op(&mut self, op: u8)
        ensures
            final(self)@ == (AluView { op, ..old(self)@ }),
    {
        self.op = op;
    }

    /// Run the latched operation: result bytes and flags become exactly what
    /// the operation table in `alu_compute` prescribes.
    pub fn compute(&mut self)
        requires
            old(self)@.op <= ALU_MAX_OPCODE,
        ensures
            final(self)@ == alu_compute(old(self)@),
    {
        match self.op {
            0u8 => self.op_rst(),
            2u8 => self.op_add(false),
            3u8 => self.op_add(true),
            4u8 => self.op_sub(false),
            5u8 => self.op_sub(true),
            6u8 => self.op_mul(),
            8u8 => self.op_shl(),
            9u8 => self.op_shr(),
            10u8 => self.op_rot(true),
            11u8 => self.op_rot(false),
            12u8 => {
                let r = !self.x;
                self.op_logic(r);
            },
            13u8 => {
                let r = self.x & self.y;
                self.op_logic(r);
            },
            14u8 => {
                let r = self.x | self.y;
                self.op_logic(r);
            },
            15u8 => {
                let r = self.x ^ self.y;
                self.op_logic(r);
            },
            _ => self.op_nop(),
        }
    }

    /// Clear the flags, leaving the latches and result bytes alone.
    pub fn reset(&mut self)
        ensures
            final(self)@ == (AluView {
                o: false,
                n: false,
                z: false,
                v: false,
                c: false,
                ..old(self)@
            }),
    {
        self.flag_o = false;
        self.flag_n = false;
        self.flag_z = false;
        self.flag_v = false;
        self.flag_c = false;
    }

    /// The (low) result byte of the last compute.
    pub fn result(&self) -> (r: u8)
        ensures
            r == self@.result,
    {
        self.result
    }

    /// The high result byte; meaningful after `MUL`, `SHL`, `SHR`.
    pub fn res_hi(&self) -> (r: u8)
        ensures
            r == self@.res_hi,
    {
        self.res_hi
    }

    /// The five flags packed into a byte, laid out as `C=0, V=1, Z=2, N=3,
    /// O=4`.
    pub fn flags(&self) -> (r: u8)
        ensures
            r == flags_byte(self@.o, self@.n, self@.z, self@.v, self@.c),
    {
        let mut f: u8 = 0;
        if self.flag_o {
            f = f + 16;
        }
        if self.flag_n {
            f = f + 8;
        }
        if self.flag_z {
            f = f + 4;
        }
        if self.flag_v {
            f = f + 2;
        }
        if self.flag_c {
            f = f + 1;
        }
        f
    }

    /// The odd flag.
    pub fn test_o(&self) -> (r: bool)
        ensures
            r == self@.o,
    {
        self.flag_o
    }

    /// The negative flag.
    pub fn test_n(&self) -> (r: bool)
        ensures
            r == self@.n,
    {
        self.flag_n
    }

    /// The zero flag.
    pub fn test_z(&self) -> (r: bool)
        ensures
            r == self@.z,
    {
        self.flag_z
    }

    /// The signed-overflow flag.
    pub fn test_v(&self) -> (r: bool)
        ensures
            r == self@.v,
    {
        self.flag_v
    }

    /// The carry flag.
    pub fn test_c(&self) -> (r: bool)
        ensures
            r == self@.c,
    {
        self.flag_c
    }

    fn op_rst(&mut self)
        ensures
            final(self)@ == rst_spec(),
    {
        self.x = 0;
        self.y = 0;
        self.op = 0;
        self.result = 0;
        self.res_hi = 0;
        self.flag_o = false;
        self.flag_n = false;
        self.flag_z = false;
        self.flag_v = false;
        self.flag_c = false;
    }

    fn op_nop(&mut self)
        ensures
            final(self)@ == nop_spec(old(self)@),
    {
        self.result = self.x;
        self.flag_o = self.x % 2 == 1;
        self.flag_n = self.x >= 128;
        self.flag_z = self.x == 0;
        self.flag_v = false;
        self.flag_c = false;
    }

    fn op_add(&mut self, with_carry: bool)
        ensures
            with_carry ==> final(self)@ == add_spec(
                old(self)@,
                if old(self)@.c {
                    1int
                } else {
                    0int
                },
            ),
            !with_carry ==> final(self)@ == add_spec(old(self)@, 0),
    {
        let cin: u16 = if with_carry && self.flag_c {
            1
        } else {
            0
        };
        let sum: u16 = self.x as u16 + self.y as u16 + cin;
        let r: u8 = (sum % 256) as u8;
        self.result = r;
        self.flag_o = r % 2 == 1;
        self.flag_n = r >= 128;
        self.flag_z = r == 0;
        self.flag_v = (self.x < 128 && self.y < 128 && r >= 128) || (self.x >= 128 && self.y >= 128
            && r < 128);
        self.flag_c = sum >= 256;
    }

    fn op_sub(&mut self, with_borrow: bool)
        ensures
            with_borrow ==> final(self)@ == sub_spec(
                old(self)@,
                if old(self)@.c {
                    1int
                } else {
                    0int
                },
            ),
            !with_borrow ==> final(self)@ == sub_spec(old(self)@, 0),
    {
        let bin: u16 = if with_borrow && self.flag_c {
            1
        } else {
            0
        };
        let diff: u16 = self.x as u16 + 256 - self.y as u16 - bin;
        let r: u8 = (diff % 256) as u8;
        self.flag_c = (self.x as u16) < self.y as u16 + bin;
        self.result = r;
        self.flag_o = r % 2 == 1;
        self.flag_n = r >= 128;
        self.flag_z = r == 0;
        self.flag_v = (self.x < 128 && self.y >= 128 && r >= 128) || (self.x >= 128 && self.y < 128
            && r < 128);
    }

    fn op_mul(&mut self)
        ensures
            final(self)@ == mul_spec(old(self)@),
    {
        let x = self.x;
        let y = self.y;
        proof {
            assert(x * y <= 255 * 255) by (nonlinear_arith)
                requires
                    x <= 255,
                    y <= 255,
            ;
        }
        let p: u16 = x as u16 * y as u16;
        self.result = (p % 256) as u8;
        self.res_hi = (p / 256) as u8;
        self.flag_o = p % 2 == 1;
        self.flag_n = false;
        self.flag_z = p == 0;
        self.flag_v = false;
        self.flag_c = p / 256 != 0;
    }

    fn op_shl(&mut self)
        ensures
            final(self)@ == shl_spec(old(self)@),
    {
        let sh: u32 = if self.y < 32 {
            (self.x as u32) << (self.y as u32)
        } else {
            0
        };
        let lo: u8 = (sh % 256) as u8;
        let hi: u8 = ((sh / 256) % 256) as u8;
        self.result = lo;
        self.res_hi = hi;
        self.flag_o = lo % 2 == 1;
        self.flag_n = false;
        self.flag_z = lo == 0 && hi == 0;
        self.flag_v = sh / 0x10000 != 0 || (self.x != 0 && self.y > 23);
        self.flag_c = (sh / 256) % 2 == 1;
    }

    fn op_shr(&mut self)
        ensures
            final(self)@ == shr_spec(old(self)@),
    {
        let sh: u32 = if self.y < 32 {
            ((self.x as u32) << 24u32) >> (self.y as u32)
        } else {
            0
        };
        let top: u8 = ((sh / 0x1000000) % 256) as u8;
        let mid: u8 = ((sh / 0x10000) % 256) as u8;
        self.result = top;
        self.res_hi = mid;
        self.flag_o = top % 2 == 1;
        self.flag_n = false;
        self.flag_z = top == 0 && mid == 0;
        self.flag_v = sh % 0x10000 != 0 || (self.x != 0 && self.y > 23);
        self.flag_c = (sh / 0x800000) % 2 == 1;
    }

    fn op_rot(&mut self, left: bool)
        ensures
            final(self)@ == rot_spec(old(self)@, left),
    {
        let k: u8 = self.y % 8;
        let r: u8 = if k == 0 {
            self.x
        } else if left {
            (self.x << k) | (self.x >> (8 - k) as u8)
        } else {
            (self.x >> k) | (self.x << (8 - k) as u8)
        };
        self.result = r;
        self.flag_o = r % 2 == 1;
        self.flag_n = false;
        self.flag_z = r == 0;
        self.flag_v = false;
        self.flag_c = false;
    }

    fn op_logic(&mut self, r: u8)
        ensures
            final(self)@ == logic_spec(old(self)@, r),
    {
        self.result = r;
        self.flag_o = r % 2 == 1;
        self.flag_n = r >= 128;
        self.flag_z = r == 0;
        self.flag_v = false;
        self.flag_c = false;
    }
}

} // verus!
