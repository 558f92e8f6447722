use vstd::prelude::*;
use vstd::arithmetic::div_mod::{lemma_mod_add_multiples_vanish, lemma_small_mod};
use crate::decode::{arith_bit_of, funct3_of, imm_i, shamt_of};
use crate::decode::{decode_arith_bit, decode_funct3, decode_imm_i, decode_shamt};

verus! {

/// `x` reduced to 32 bits, two's complement.
pub open spec fn wrap(x: int) -> u32 {
    (x % 0x1_0000_0000) as u32
}

/// `a` read as a two's-complement signed number.
pub open spec fn signed(a: u32) -> int {
    if a < 0x8000_0000 {
        a as int
    } else {
        a - 0x1_0000_0000
    }
}

/// The magnitude of `x`.
pub open spec fn abs(x: int) -> int {
    if x < 0 {
        -x
    } else {
        x
    }
}

/// `x / y` rounded toward zero.
pub open spec fn div_trunc(x: int, y: int) -> int {
    if (x < 0) == (y < 0) {
        abs(x) / abs(y)
    } else {
        -(abs(x) / abs(y))
    }
}

/// The remainder of `x / y` rounded toward zero: its sign is that of `x`.
pub open spec fn rem_trunc(x: int, y: int) -> int {
    if x < 0 {
        -(abs(x) % abs(y))
    } else {
        abs(x) % abs(y)
    }
}

/// Bits 63:32 of the 64-bit two's-complement form of `p`.
pub open spec fn high_word(p: int) -> u32 {
    ((p % 0x1_0000_0000_0000_0000) / 0x1_0000_0000) as u32
}

/// `a` shifted right by `s`, the sign bit copied into the vacated bits.
pub open spec fn sra(a: u32, s: u32) -> u32 {
    ((a as i32) >> s) as u32
}

/// 1 where `c` holds, else 0.
pub open spec fn flag(c: bool) -> u32 {
    if c {
        1
    } else {
        0
    }
}

/// The result of the register-register operation chosen by `f7` and `f3` on
/// `a` and `b`, or `None` where the pair names no operation.
pub open spec fn reg_reg(f7: u32, f3: u32, a: u32, b: u32) -> Option<u32> {
    if f7 == 0x00 {
        if f3 == 0 { // ADD
            Some(wrap(a + b))
        } else if f3 == 1 { // SLL
            Some(a << (b & 0x1F))
        } else if f3 == 2 { // SLT
            Some(flag(signed(a) < signed(b)))
        } else if f3 == 3 { // SLTU
            Some(flag(a < b))
        } else if f3 == 4 { // XOR
            Some(a ^ b)
        } else if f3 == 5 { // SRL
            Some(a >> (b & 0x1F))
        } else if f3 == 6 { // OR
            Some(a | b)
        } else if f3 == 7 { // AND
            Some(a & b)
        } else {
            None
        }
    } else if f7 == 0x20 {
        if f3 == 0 { // SUB
            Some(wrap(a - b))
        } else if f3 == 5 { // SRA
            Some(sra(a, b & 0x1F))
        } else {
            None
        }
    } else if f7 == 0x01 {
        if f3 == 0 { // MUL
            Some(wrap(a * b))
        } else if f3 == 1 { // MULH
            Some(high_word(signed(a) * signed(b)))
        } else if f3 == 2 { // MULHSU
            Some(high_word(signed(a) * b))
        } else if f3 == 3 { // MULHU
            Some(high_word(a * b))
        } else if f3 == 4 { // DIV
            Some(if b == 0 { 0xFFFF_FFFF } else { wrap(div_trunc(signed(a), signed(b))) })
        } else if f3 == 5 { // DIVU
            Some(if b == 0 { 0xFFFF_FFFF } else { (a / b) as u32 })
        } else if f3 == 6 { // REM
            Some(if b == 0 { a } else { wrap(rem_trunc(signed(a), signed(b))) })
        } else if f3 == 7 { // REMU
            Some(if b == 0 { a } else { (a % b) as u32 })
        } else {
            None
        }
    } else {
        None
    }
}

/// The result of the register-immediate instruction `inst` on `a`.
pub open spec fn reg_imm(inst: u32, a: u32) -> u32 {
    let f3 = funct3_of(inst);
    let imm = imm_i(inst);
    let sh = shamt_of(inst);
    if f3 == 0 { // ADDI
        wrap(a + imm)
    } else if f3 == 1 { // SLLI
        a << sh
    } else if f3 == 2 { // SLTI
        flag(signed(a) < signed(imm))
    } else if f3 == 3 { // SLTIU
        flag(a < imm)
    } else if f3 == 4 { // XORI
        a ^ imm
    } else if f3 == 5 { // SRLI / SRAI
        if arith_bit_of(inst) {
            sra(a, sh)
        } else {
            a >> sh
        }
    } else if f3 == 6 { // ORI
        a | imm
    } else {
        a & imm
    }
}

/// Whether the branch with funct3 `f3` is taken on `a` and `b`, or `None`
/// where `f3` names no branch.
pub open spec fn branch_taken(f3: u32, a: u32, b: u32) -> Option<bool> {
    if f3 == 0 { // BEQ
        Some(a == b)
    } else if f3 == 1 { // BNE
        Some(a != b)
    } else if f3 == 4 { // BLT
        Some(signed(a) < signed(b))
    } else if f3 == 5 { // BGE
        Some(signed(a) >= signed(b))
    } else if f3 == 6 { // BLTU
        Some(a < b)
    } else if f3 == 7 { // BGEU
        Some(a >= b)
    } else {
        None
    }
}

/// Arithmetic right shift of `a` by `s`.
pub fn shift_right_arith(a: u32, s: u32) -> (r: u32)
    requires
        s < 32,
    ensures
        r == sra(a, s),
{
    let r = if a & 0x8000_0000 == 0 {
        a >> s
    } else {
        (a >> s) | !(0xFFFF_FFFFu32 >> s)
    };
    assert(r == ((a as i32) >> s) as u32) by (bit_vector)
        requires
            s < 32,
            r == if a & 0x8000_0000 == 0 {
                a >> s
            } else {
                (a >> s) | !(0xFFFF_FFFFu32 >> s)
            },
    ;
    r
}

/// `a` read as signed, as a 64-bit integer.
fn signed_i64(a: u32) -> (r: i64)
    ensures
        r == signed(a),
{
    if a < 0x8000_0000 {
        a as i64
    } else {
        a as i64 - 0x1_0000_0000i64
    }
}

/// Bits 63:32 of the 64-bit two's-complement form of `p`.
fn high_word_of_i64(p: i64) -> (r: u32)
    ensures
        r == high_word(p as int),
{
    let u: u64 = if p >= 0 {
        p as u64
    } else {
        (p + 0x7FFF_FFFF_FFFF_FFFF + 1) as u64 + 0x8000_0000_0000_0000u64
    };
    proof {
        if p >= 0 {
            lemma_small_mod(p as nat, 0x1_0000_0000_0000_0000);
        } else {
            lemma_small_mod(u as nat, 0x1_0000_0000_0000_0000);
            lemma_mod_add_multiples_vanish(p as int, 0x1_0000_0000_0000_0000);
        }
    }
    assert(u as int == p as int % 0x1_0000_0000_0000_0000);
    let h = u >> 32u64;
    assert(h == u / 0x1_0000_0000) by (bit_vector)
        requires
            h == u >> 32u64,
    ;
    h as u32
}

/// High word of the signed product of `a` and `b`.
pub fn mul_high_signed(a: u32, b: u32) -> (r: u32)
    ensures
        r == high_word(signed(a) * signed(b)),
{
    let x = signed_i64(a);
    let y = signed_i64(b);
    assert(-0x4000_0000_0000_0000 <= x * y <= 0x4000_0000_0000_0000) by (nonlinear_arith)
        requires
            -0x8000_0000 <= x <= 0x8000_0000,
            -0x8000_0000 <= y <= 0x8000_0000,
    ;
    high_word_of_i64(x * y)
}

/// High word of the product of `a`, read as signed, and `b`, read as unsigned.
pub fn mul_high_signed_unsigned(a: u32, b: u32) -> (r: u32)
    ensures
        r == high_word(signed(a) * b),
{
    let x = signed_i64(a);
    let y = b as i64;
    assert(-0x8000_0000_0000_0000 <= x * y <= 0x7FFF_FFFF_FFFF_FFFF) by (nonlinear_arith)
        requires
            -0x8000_0000 <= x <= 0x8000_0000,
            0 <= y <= 0xFFFF_FFFF,
    ;
    high_word_of_i64(x * y)
}

/// High word of the unsigned product of `a` and `b`.
pub fn mul_high_unsigned(a: u32, b: u32) -> (r: u32)
    ensures
        r == high_word(a * b),
{
    let x = a as u64;
    let y = b as u64;
    assert(x * y <= 0xFFFF_FFFE_0000_0001) by (nonlinear_arith)
        requires
            x <= 0xFFFF_FFFF,
            y <= 0xFFFF_FFFF,
    ;
    let p = x * y;
    let h = p >> 32u64;
    assert(h == p / 0x1_0000_0000) by (bit_vector)
        requires
            h == p >> 32u64,
    ;
    proof {
        lemma_small_mod(p as nat, 0x1_0000_0000_0000_0000);
    }
    h as u32
}

/// The magnitude of `a` read as signed.
fn magnitude(a: u32) -> (r: u32)
    ensures
        r == abs(signed(a)),
{
    if a < 0x8000_0000 {
        a
    } else {
        0u32.wrapping_sub(a)
    }
}

/// Signed division rounded toward zero; all ones for a zero divisor.
pub fn div_signed(a: u32, b: u32) -> (r: u32)
    ensures
        r == (if b == 0 { 0xFFFF_FFFF } else { wrap(div_trunc(signed(a), signed(b))) }),
{
    if b == 0 {
        return 0xFFFF_FFFF;
    }
    let q = magnitude(a) / magnitude(b);
    if (a < 0x8000_0000) == (b < 0x8000_0000) {
        q
    } else {
        0u32.wrapping_sub(q)
    }
}

/// Signed remainder, with the sign of `a`; `a` itself for a zero divisor.
pub fn rem_signed(a: u32, b: u32) -> (r: u32)
    ensures
        r == (if b == 0 { a } else { wrap(rem_trunc(signed(a), signed(b))) }),
{
    if b == 0 {
        return a;
    }
    let m = magnitude(a) % magnitude(b);
    if a < 0x8000_0000 {
        m
    } else {
        0u32.wrapping_sub(m)
    }
}

/// The register-register operation chosen by `f7` and `f3` on `a` and `b`, or
/// `None` where the pair names no operation.
pub fn compute_reg_reg(f7: u8, f3: u8, a: u32, b: u32) -> (r: Option<u32>)
    ensures
        r == reg_reg(f7 as u32, f3 as u32, a, b),
{
    let sh = b & 0x1F;
    assert(sh < 32) by (bit_vector)
        requires
            sh == b & 0x1F,
    ;
    match (f7, f3) {
        (0x00, 0) => Some(a.wrapping_add(b)),
        (0x20, 0) => Some(a.wrapping_sub(b)),
        (0x00, 1) => Some(a << sh),
        (0x00, 2) => Some(if signed_i64(a) < signed_i64(b) { 1 } else { 0 }),
        (0x00, 3) => Some(if a < b { 1 } else { 0 }),
        (0x00, 4) => Some(a ^ b),
        (0x00, 5) => Some(a >> sh),
        (0x20, 5) => Some(shift_right_arith(a, sh)),
        (0x00, 6) => Some(a | b),
        (0x00, 7) => Some(a & b),
        (0x01, 0) => Some(a.wrapping_mul(b)),
        (0x01, 1) => Some(mul_high_signed(a, b)),
        (0x01, 2) => Some(mul_high_signed_unsigned(a, b)),
        (0x01, 3) => Some(mul_high_unsigned(a, b)),
        (0x01, 4) => Some(div_signed(a, b)),
        (0x01, 5) => Some(if b == 0 { 0xFFFF_FFFF } else { a / b }),
        (0x01, 6) => Some(rem_signed(a, b)),
        (0x01, 7) => Some(if b == 0 { a } else { a % b }),
        _ => None,
    }
}

/// The register-immediate instruction `inst` on `a`.
pub fn compute_reg_imm(inst: u32, a: u32) -> (r: u32)
    ensures
        r == reg_imm(inst, a),
{
    let f3 = decode_funct3(inst);
    let imm = decode_imm_i(inst);
    let sh = decode_shamt(inst);
    match f3 {
        0 => a.wrapping_add(imm),
        1 => a << sh,
        2 => if signed_i64(a) < signed_i64(imm) { 1 } else { 0 },
        3 => if a < imm { 1 } else { 0 },
        4 => a ^ imm,
        5 => if decode_arith_bit(inst) { shift_right_arith(a, sh) } else { a >> sh },
        6 => a | imm,
        _ => a & imm,
    }
}

/// Whether the branch with funct3 `f3` is taken on `a` and `b`, or `None`
/// where `f3` names no branch.
pub fn compute_branch(f3: u8, a: u32, b: u32) -> (r: Option<bool>)
    ensures
        r == branch_taken(f3 as u32, a, b),
{
    match f3 {
        0 => Some(a == b),
        1 => Some(a != b),
        4 => Some(signed_i64(a) < signed_i64(b)),
        5 => Some(signed_i64(a) >= signed_i64(b)),
        6 => Some(a < b),
        7 => Some(a >= b),
        _ => None,
    }
}

/// On the same operands BEQ is taken exactly when BNE is not, BGE exactly when
/// BLT is not (signed), and BGEU exactly when BLTU is not (unsigned).
pub proof fn lemma_branch_symmetry(a: u32, b: u32)
    ensures
        branch_taken(0, a, b) is Some && branch_taken(1, a, b) is Some,
        branch_taken(0, a, b)->Some_0 == !branch_taken(1, a, b)->Some_0,
        branch_taken(4, a, b) is Some && branch_taken(5, a, b) is Some,
        branch_taken(5, a, b)->Some_0 == !branch_taken(4, a, b)->Some_0,
        branch_taken(6, a, b) is Some && branch_taken(7, a, b) is Some,
        branch_taken(7, a, b)->Some_0 == !branch_taken(6, a, b)->Some_0,
{
}

/// SLL, SRL and SRA depend on the shift operand only through its low 5 bits.
pub proof fn lemma_shift_masking(a: u32, b: u32)
    ensures
        reg_reg(0x00, 1, a, b) == reg_reg(0x00, 1, a, b & 0x1F),
        reg_reg(0x00, 5, a, b) == reg_reg(0x00, 5, a, b & 0x1F),
        reg_reg(0x20, 5, a, b) == reg_reg(0x20, 5, a, b & 0x1F),
{
    assert((b & 0x1F) & 0x1F == b & 0x1F) by (bit_vector);
}

/// A zero divisor gives all ones for DIV and DIVU, and the dividend for REM and
/// REMU.
pub proof fn lemma_divide_by_zero(a: u32)
    ensures
        reg_reg(0x01, 4, a, 0) == Some(0xFFFF_FFFFu32),
        reg_reg(0x01, 5, a, 0) == Some(0xFFFF_FFFFu32),
        reg_reg(0x01, 6, a, 0) == Some(a),
        reg_reg(0x01, 7, a, 0) == Some(a),
{
}

/// Signed division by -1 negates the dividend modulo 2^32 and leaves remainder 0;
/// so the one overflowing case, 0x80000000 / -1, gives 0x80000000 and
/// remainder 0.
pub proof fn lemma_divide_by_minus_one(a: u32)
    ensures
        reg_reg(0x01, 4, a, 0xFFFF_FFFF) == Some(wrap(-signed(a))),
        reg_reg(0x01, 6, a, 0xFFFF_FFFF) == Some(0u32),
        reg_reg(0x01, 4, 0x8000_0000, 0xFFFF_FFFF) == Some(0x8000_0000u32),
        reg_reg(0x01, 6, 0x8000_0000, 0xFFFF_FFFF) == Some(0u32),
{
}

} // verus!
