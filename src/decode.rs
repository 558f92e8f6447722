use vstd::prelude::*;

verus! {

/// Bits 6:0 of an instruction.
pub open spec fn opcode_of(inst: u32) -> u32 {
    inst & 0x7F
}

/// The destination register, bits 11:7.
pub open spec fn rd_of(inst: u32) -> u32 {
    (inst >> 7u32) & 0x1F
}

/// bits 14:12.
pub open spec fn funct3_of(inst: u32) -> u32 {
    (inst >> 12u32) & 0x7
}

/// The first source register, bits 19:15.
pub open spec fn rs1_of(inst: u32) -> u32 {
    (inst >> 15u32) & 0x1F
}

/// The second source register, bits 24:20.
pub open spec fn rs2_of(inst: u32) -> u32 {
    (inst >> 20u32) & 0x1F
}

/// bits 31:25.
pub open spec fn funct7_of(inst: u32) -> u32 {
    (inst >> 25u32) & 0x7F
}

/// The shift amount of an immediate shift, bits 24:20.
pub open spec fn shamt_of(inst: u32) -> u32 {
    (inst >> 20u32) & 0x1F
}

/// Bit 30, which tells an arithmetic right shift from a logical one.
pub open spec fn arith_bit_of(inst: u32) -> bool {
    (inst >> 30u32) & 1 == 1
}

/// `v` sign-extended from bit `bit`: where that bit is 1, every bit above it is
/// set as well.
pub open spec fn sign_extend(v: u32, bit: u32) -> u32 {
    if (v >> bit) & 1 == 1 {
        v | (0xFFFF_FFFFu32 << bit)
    } else {
        v
    }
}

/// The I-type immediate: bits 31:20, sign-extended from bit 11.
pub open spec fn imm_i(inst: u32) -> u32 {
    sign_extend(inst >> 20u32, 11)
}

/// The S-type immediate: bits 31:25 and 11:7, sign-extended from bit 11.
pub open spec fn imm_s(inst: u32) -> u32 {
    sign_extend(((inst >> 25u32) << 5u32) | ((inst >> 7u32) & 0x1F), 11)
}

/// The B-type immediate: bit 31 to 12, bit 7 to 11, bits 30:25 to 10:5, bits
/// 11:8 to 4:1, bit 0 clear; sign-extended from bit 12.
pub open spec fn imm_b(inst: u32) -> u32 {
    sign_extend(
        (((inst >> 31u32) & 1) << 12u32) | (((inst >> 7u32) & 1) << 11u32) | (((inst >> 25u32)
            & 0x3F) << 5u32) | (((inst >> 8u32) & 0xF) << 1u32),
        12,
    )
}

/// The U-type immediate: the upper 20 bits in place.
pub open spec fn imm_u(inst: u32) -> u32 {
    inst & 0xFFFF_F000
}

/// The J-type immediate: bit 31 to 20, bits 19:12 in place, bit 20 to 11, bits
/// 30:21 to 10:1, bit 0 clear; sign-extended from bit 20.
pub open spec fn imm_j(inst: u32) -> u32 {
    sign_extend(
        (((inst >> 31u32) & 1) << 20u32) | (((inst >> 12u32) & 0xFF) << 12u32) | (((inst
            >> 20u32) & 1) << 11u32) | (((inst >> 21u32) & 0x3FF) << 1u32),
        20,
    )
}

/// Sign-extends `v` from bit `bit`.
pub fn sign_extend_from(v: u32, bit: u32) -> (r: u32)
    requires
        bit < 32,
    ensures
        r == sign_extend(v, bit),
{
    if (v >> bit) & 1 == 1 {
        v | (0xFFFF_FFFFu32 << bit)
    } else {
        v
    }
}

/// The low 7 bits of `inst`.
pub fn decode_opcode(inst: u32) -> (r: u8)
    ensures
        r as u32 == opcode_of(inst),
{
    assert((inst & 0x7F) < 256) by (bit_vector);
    (inst & 0x7F) as u8
}

/// The destination register of `inst`.
pub fn decode_rd(inst: u32) -> (r: u8)
    ensures
        r as u32 == rd_of(inst),
        r < 32,
{
    assert(((inst >> 7u32) & 0x1F) < 32) by (bit_vector);
    ((inst >> 7u32) & 0x1F) as u8
}

/// bits 14:12 of `inst`.
pub fn decode_funct3(inst: u32) -> (r: u8)
    ensures
        r as u32 == funct3_of(inst),
        r < 8,
{
    assert(((inst >> 12u32) & 0x7) < 8) by (bit_vector);
    ((inst >> 12u32) & 0x7) as u8
}

/// The first source register of `inst`.
pub fn decode_rs1(inst: u32) -> (r: u8)
    ensures
        r as u32 == rs1_of(inst),
        r < 32,
{
    assert(((inst >> 15u32) & 0x1F) < 32) by (bit_vector);
    ((inst >> 15u32) & 0x1F) as u8
}

/// The second source register of `inst`.
pub fn decode_rs2(inst: u32) -> (r: u8)
    ensures
        r as u32 == rs2_of(inst),
        r < 32,
{
    assert(((inst >> 20u32) & 0x1F) < 32) by (bit_vector);
    ((inst >> 20u32) & 0x1F) as u8
}

/// bits 31:25 of `inst`.
pub fn decode_funct7(inst: u32) -> (r: u8)
    ensures
        r as u32 == funct7_of(inst),
        r < 128,
{
    assert(((inst >> 25u32) & 0x7F) < 128) by (bit_vector);
    ((inst >> 25u32) & 0x7F) as u8
}

/// The I-type immediate of `inst`.
pub fn decode_imm_i(inst: u32) -> (r: u32)
    ensures
        r == imm_i(inst),
{
    sign_extend_from(inst >> 20u32, 11)
}

/// The S-type immediate of `inst`.
pub fn decode_imm_s(inst: u32) -> (r: u32)
    ensures
        r == imm_s(inst),
{
    let imm_11_5 = inst >> 25u32;
    let imm_4_0 = (inst >> 7u32) & 0x1F;
    sign_extend_from((imm_11_5 << 5u32) | imm_4_0, 11)
}

/// The B-type immediate of `inst`.
pub fn decode_imm_b(inst: u32) -> (r: u32)
    ensures
        r == imm_b(inst),
{
    let imm_12 = ((inst >> 31u32) & 1) << 12u32;
    let imm_11 = ((inst >> 7u32) & 1) << 11u32;
    let imm_10_5 = ((inst >> 25u32) & 0x3F) << 5u32;
    let imm_4_1 = ((inst >> 8u32) & 0xF) << 1u32;
    sign_extend_from(imm_12 | imm_11 | imm_10_5 | imm_4_1, 12)
}

/// The U-type immediate of `inst`.
pub fn decode_imm_u(inst: u32) -> (r: u32)
    ensures
        r == imm_u(inst),
{
    inst & 0xFFFF_F000
}

/// The J-type immediate of `inst`.
pub fn decode_imm_j(inst: u32) -> (r: u32)
    ensures
        r == imm_j(inst),
{
    let imm_20 = ((inst >> 31u32) & 1) << 20u32;
    let imm_19_12 = ((inst >> 12u32) & 0xFF) << 12u32;
    let imm_11 = ((inst >> 20u32) & 1) << 11u32;
    let imm_10_1 = ((inst >> 21u32) & 0x3FF) << 1u32;
    sign_extend_from(imm_20 | imm_19_12 | imm_11 | imm_10_1, 20)
}

/// The shift amount of an immediate shift in `inst`.
pub fn decode_shamt(inst: u32) -> (r: u32)
    ensures
        r == shamt_of(inst),
        r < 32,
{
    assert(((inst >> 20u32) & 0x1F) < 32) by (bit_vector);
    (inst >> 20u32) & 0x1F
}

/// Whether `inst` asks for an arithmetic right shift.
pub fn decode_arith_bit(inst: u32) -> (r: bool)
    ensures
        r == arith_bit_of(inst),
{
    (inst >> 30u32) & 1 == 1
}

} // verus!
