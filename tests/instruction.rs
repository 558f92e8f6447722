use rv32_vm::opcodes::{
    F3_ADDI, F3_ADD_SUB, F3_AND, F3_ANDI, F3_BEQ, F3_BGE, F3_BLT, F3_BNE, F3_DIV, F3_DIVU, F3_LB,
    F3_LH, F3_LW, F3_MUL, F3_MULH, F3_MULHSU, F3_MULHU, F3_OR, F3_ORI, F3_REM, F3_REMU, F3_SB,
    F3_SH, F3_SLL, F3_SLLI, F3_SLT, F3_SLTI, F3_SLTIU, F3_SLTU, F3_SRLI_SRAI, F3_SRL_SRA, F3_SW,
    F3_XOR, F3_XORI, F7_ADD, F7_M_EXTENSION, F7_SRA, F7_SRL, F7_SUB, OP_ALU, OP_ALUI, OP_BRANCH,
    OP_JAL, OP_JALR, OP_LOAD, OP_LUI, OP_STORE,
};
use rv32_vm::register::{REG_RA, REG_S0, REG_S1, REG_S2};
use rv32_vm::CPU;

fn lui(imm: u32, rd: u8) -> u32 {
    (imm << 12) | ((rd as u32) << 7) | OP_LUI as u32
}

fn jal(imm: u32, rd: u8) -> u32 {
    (((imm >> 20) & 0x1) << 31)
        | (((imm >> 1) & 0x3FF) << 21)
        | (((imm >> 11) & 0x1) << 20)
        | (((imm >> 12) & 0xFF) << 12)
        | ((rd as u32) << 7)
        | OP_JAL as u32
}

fn jalr(imm: u32, rs1: u8, rd: u8) -> u32 {
    ((imm & 0xFFF) << 20) | ((rs1 as u32) << 15) | ((rd as u32) << 7) | OP_JALR as u32
}

fn load(imm: u32, funct3: u8, rd: u8) -> u32 {
    ((imm & 0xFFF) << 20) | ((funct3 as u32) << 12) | ((rd as u32) << 7) | OP_LOAD as u32
}

fn store(imm: u32, funct3: u8, rs2: u8, rs1: u8) -> u32 {
    (((imm >> 5) & 0x7F) << 25)
        | ((rs2 as u32) << 20)
        | ((rs1 as u32) << 15)
        | ((funct3 as u32) << 12)
        | ((imm & 0x1F) << 7)
        | OP_STORE as u32
}

fn branch(imm: u32, funct3: u8, rs2: u8, rs1: u8) -> u32 {
    (((imm >> 12) & 0x1) << 31)
        | (((imm >> 5) & 0x3F) << 25)
        | ((rs2 as u32) << 20)
        | ((rs1 as u32) << 15)
        | ((funct3 as u32) << 12)
        | (((imm >> 1) & 0xF) << 8)
        | (((imm >> 11) & 0x1) << 7)
        | OP_BRANCH as u32
}

fn alui(imm: u32, funct3: u8, rs1: u8, rd: u8) -> u32 {
    ((imm & 0xFFF) << 20) | ((rs1 as u32) << 15) | ((funct3 as u32) << 12) | ((rd as u32) << 7)
        | OP_ALUI as u32
}

fn alu(funct7: u8, funct3: u8, rs2: u8, rs1: u8, rd: u8) -> u32 {
    ((funct7 as u32) << 25)
        | ((rs2 as u32) << 20)
        | ((rs1 as u32) << 15)
        | ((funct3 as u32) << 12)
        | ((rd as u32) << 7)
        | OP_ALU as u32
}

fn prep_branch_inst(cpu: &mut CPU, funct3: u8, rs1: u32, rs2: u32) {
    let offset: u32 = 0x108;
    cpu.registers.set_register(REG_S1, rs1);
    cpu.registers.set_register(REG_S2, rs2);
    cpu.pc = 0x10;
    cpu.opcode = OP_BRANCH;
    cpu.instruction = branch(offset, funct3, REG_S2, REG_S1);
}

fn prep_alui_inst(cpu: &mut CPU, funct3: u8, rs1: u32, rd: u8, imm: u32) {
    cpu.registers.set_register(REG_S1, rs1);
    cpu.pc = 0x10;
    cpu.opcode = OP_ALUI;
    cpu.instruction = alui(imm, funct3, REG_S1, rd);
}

/// Runs `funct7`/`funct3` with x9 = `s1` and x8 = `s0` as `rd = x8`, `rs1 = x9`,
/// `rs2 = x8`, and checks x8 and the program counter afterwards.
fn check_alu(funct7: u8, funct3: u8, s1: u32, s0: u32, expected: u32) {
    let mut cpu = CPU::new();
    cpu.registers.set_register(REG_S1, s1);
    cpu.registers.set_register(REG_S0, s0);
    cpu.pc = 0x10;
    cpu.opcode = OP_ALU;
    cpu.instruction = alu(funct7, funct3, REG_S0, REG_S1, REG_S0);
    assert_eq!(cpu.inst_alu(), Ok(()));
    assert_eq!(cpu.registers.get_register(REG_S0), expected,
        "Stored value was not correct!\nExpected: 0x{:0>8x},\nGot:      0x{:0>8x}",
        expected, cpu.registers.get_register(REG_S0));
    assert_eq!(cpu.pc, 0x14, "PC was not updated correctly!");
}

fn check_alui(funct3: u8, rs1: u32, imm: u32, expected: u32) {
    let mut cpu = CPU::new();
    prep_alui_inst(&mut cpu, funct3, rs1, REG_S0, imm);
    cpu.inst_alui();
    assert_eq!(cpu.registers.get_register(REG_S0), expected,
        "\nexpected: 0x{:0>8x},\nbut got:  0x{:0>8x}",
        expected, cpu.registers.get_register(REG_S0));
    assert_eq!(cpu.pc, 0x14, "PC was not updated correctly!");
}

#[test]
fn test_lui() {
    let mut cpu = CPU::new();
    cpu.pc = 0x10;
    cpu.instruction = lui(0x420, REG_S0);
    cpu.opcode = OP_LUI;
    assert_eq!(cpu.instruction, 0x00420437);
    cpu.inst_lui();
    assert_eq!(cpu.registers.get_register(REG_S0), 0x420000,
        "\nexpected: 0x{:0>8x},\nbut got:  0x{:0>8x}",
        0x420000, cpu.registers.get_register(REG_S0));
    assert_eq!(cpu.pc, 0x14, "PC was not updated correctly!");
}

#[test]
fn test_jal() {
    let mut cpu = CPU::new();
    cpu.pc = 0x10;
    cpu.instruction = jal(8, REG_S0);
    cpu.opcode = OP_JAL;
    cpu.inst_jal();
    // Return address, then a jump relative to the JAL itself: 0x10 + 8.
    assert_eq!(cpu.registers.get_register(REG_S0), 0x14);
    assert_eq!(cpu.get_pc(), 0x18);
}

#[test]
fn instruction_test_jalr() {
    let mut cpu = CPU::new();
    cpu.pc = 0x10;
    cpu.registers.set_register(REG_S1, 0x10);
    cpu.instruction = jalr(8, REG_S1, REG_S0);
    cpu.inst_jalr();
    // Return address, then a jump to x9 + 8.
    assert_eq!(cpu.registers.get_register(REG_S0), 0x14);
    assert_eq!(cpu.get_pc(), 0x18);
}

#[test]
fn test_load_word() {
    let mut cpu = CPU::new();
    let address = 0x50;
    cpu.memory.set_u32(0x50, 0xCC33CC33);
    cpu.pc = 0x10;
    cpu.opcode = OP_LOAD;
    cpu.instruction = load(address, F3_LW, REG_S0);
    assert_eq!(cpu.inst_load(), Ok(()));
    assert_eq!(cpu.registers.get_register(REG_S0), 0xCC33CC33,
        "Loaded value was not correct!\nExpected: 0xCC33CC33,\nGot:      0x{:0>8x}",
        cpu.registers.get_register(REG_S0));
    assert_eq!(cpu.pc, 0x14, "PC was not updated correctly!");
}

#[test]
fn test_load_half_word() {
    let mut cpu = CPU::new();
    let address = 0x50;
    cpu.memory.set_u32(0x50, 0xCC33CC33);
    cpu.pc = 0x10;
    cpu.opcode = OP_LOAD;
    cpu.instruction = load(address, F3_LH, REG_S0);
    assert_eq!(cpu.inst_load(), Ok(()));
    // The halfword at 0x50 is 0xCC33; LH sign-extends it.
    assert_eq!(cpu.registers.get_register(REG_S0), 0xFFFFCC33,
        "Loaded value was not correct!\nExpected: 0xFFFFCC33,\nGot:      0x{:0>8x}",
        cpu.registers.get_register(REG_S0));
    assert_eq!(cpu.pc, 0x14, "PC was not updated correctly!");
}

#[test]
fn test_load_byte() {
    let mut cpu = CPU::new();
    let address = 0x50;
    cpu.memory.set_u32(0x50, 0xCC33CC33);
    cpu.pc = 0x10;
    cpu.opcode = OP_LOAD;
    cpu.instruction = load(address, F3_LB, REG_S0);
    assert_eq!(cpu.inst_load(), Ok(()));
    // The byte at 0x50 is 0x33.
    assert_eq!(cpu.registers.get_register(REG_S0), 0x33,
        "Loaded value was not correct!\nExpected: 0x33,\nGot:      0x{:0>2x}",
        cpu.registers.get_register(REG_S0));
    assert_eq!(cpu.pc, 0x14, "PC was not updated correctly!");
}

#[test]
fn test_store_word() {
    let mut cpu = CPU::new();
    cpu.registers.set_register(REG_S1, 0xCC33CC33);
    cpu.registers.set_register(REG_S0, 10);
    cpu.pc = 0x10;
    cpu.opcode = OP_STORE;
    cpu.instruction = store(0x550, F3_SW, REG_S1, REG_S0);
    assert_eq!(cpu.inst_store(), Ok(()));
    assert_eq!(cpu.memory.get_u32(0x55A), 0xCC33CC33,
        "Stored value was not correct!\nExpected: 0xCC33CC33,\nGot:      0x{:0>8x}",
        cpu.memory.get_u32(0x55A));
    assert_eq!(cpu.pc, 0x14, "PC was not updated correctly!");
}

#[test]
fn test_store_half_word() {
    let mut cpu = CPU::new();
    cpu.registers.set_register(REG_S1, 0xCC33CC33);
    cpu.registers.set_register(REG_S0, 10);
    cpu.pc = 0x10;
    cpu.opcode = OP_STORE;
    cpu.instruction = store(0x554, F3_SH, REG_S1, REG_S0);
    assert_eq!(cpu.inst_store(), Ok(()));
    assert_eq!(cpu.memory.get_u16(0x55E), 0xCC33,
        "Stored value was not correct!\nExpected: 0xCC33,\nGot:      0x{:0>4x}",
        cpu.memory.get_u16(0x55E));
    assert_eq!(cpu.pc, 0x14, "PC was not updated correctly!");
}

#[test]
fn test_store_byte() {
    let mut cpu = CPU::new();
    cpu.registers.set_register(REG_S1, 0xCC33CC33);
    cpu.registers.set_register(REG_S0, 10);
    cpu.pc = 0x10;
    cpu.opcode = OP_STORE;
    cpu.instruction = store(0x558, F3_SB, REG_S1, REG_S0);
    assert_eq!(cpu.inst_store(), Ok(()));
    assert_eq!(cpu.memory.get_u8(0x562), 0x33,
        "Stored value was not correct!\nExpected: 0x33,\nGot:      0x{:0>2x}",
        cpu.memory.get_u8(0x562));
    assert_eq!(cpu.pc, 0x14, "PC was not updated correctly!");
}

#[test]
fn test_beq_yes() {
    let mut cpu = CPU::new();
    prep_branch_inst(&mut cpu, F3_BEQ, 0x420, 0x420);
    assert_eq!(cpu.inst_branch(), Ok(()));
    assert_eq!(cpu.pc, 0x118, "PC was not updated correctly!");
    // A branch writes no return address.
    assert_eq!(cpu.registers.get_register(REG_RA), 0);
}

#[test]
fn test_beq_no() {
    let mut cpu = CPU::new();
    prep_branch_inst(&mut cpu, F3_BEQ, 0x420, 0x421);
    assert_eq!(cpu.inst_branch(), Ok(()));
    assert_eq!(cpu.pc, 0x14, "PC was not updated correctly!");
}

#[test]
fn test_bne_yes() {
    let mut cpu = CPU::new();
    prep_branch_inst(&mut cpu, F3_BNE, 0x420, 0x421);
    assert_eq!(cpu.inst_branch(), Ok(()));
    assert_eq!(cpu.pc, 0x118, "PC was not updated correctly!");
    // A branch writes no return address.
    assert_eq!(cpu.registers.get_register(REG_RA), 0);
}

#[test]
fn test_bne_no() {
    let mut cpu = CPU::new();
    prep_branch_inst(&mut cpu, F3_BNE, 0x420, 0x420);
    assert_eq!(cpu.inst_branch(), Ok(()));
    assert_eq!(cpu.pc, 0x14, "PC was not updated correctly!");
}

#[test]
fn test_blt_yes() {
    let mut cpu = CPU::new();
    prep_branch_inst(&mut cpu, F3_BLT, 0x41F, 0x420);
    assert_eq!(cpu.inst_branch(), Ok(()));
    assert_eq!(cpu.pc, 0x118, "PC was not updated correctly!");
    // A branch writes no return address.
    assert_eq!(cpu.registers.get_register(REG_RA), 0);
}

#[test]
fn test_blt_no() {
    let mut cpu = CPU::new();
    prep_branch_inst(&mut cpu, F3_BLT, 0x420, 0x420);
    assert_eq!(cpu.inst_branch(), Ok(()));
    assert_eq!(cpu.pc, 0x14, "PC was not updated correctly!");
}

#[test]
fn test_bge_yes_gt() {
    let mut cpu = CPU::new();
    prep_branch_inst(&mut cpu, F3_BGE, 0x422, 0x420);
    assert_eq!(cpu.inst_branch(), Ok(()));
    assert_eq!(cpu.pc, 0x118, "PC was not updated correctly!");
    // A branch writes no return address.
    assert_eq!(cpu.registers.get_register(REG_RA), 0);
}

#[test]
fn test_bge_yes_eq() {
    let mut cpu = CPU::new();
    prep_branch_inst(&mut cpu, F3_BGE, 0x420, 0x420);
    assert_eq!(cpu.inst_branch(), Ok(()));
    assert_eq!(cpu.pc, 0x118, "PC was not updated correctly!");
    // A branch writes no return address.
    assert_eq!(cpu.registers.get_register(REG_RA), 0);
}

#[test]
fn test_bge_no() {
    let mut cpu = CPU::new();
    prep_branch_inst(&mut cpu, F3_BGE, 0x419, 0x420);
    assert_eq!(cpu.inst_branch(), Ok(()));
    assert_eq!(cpu.pc, 0x14, "PC was not updated correctly!");
}

#[test]
fn test_addi() {
    check_alui(F3_ADDI, 0x420, 0x420, 0x840);
}

#[test]
fn test_slti_yes() {
    check_alui(F3_SLTI, 0x419, 0x420, 0x1);
}

#[test]
fn test_slti_no_eq() {
    check_alui(F3_SLTI, 0x420, 0x420, 0x0);
}

#[test]
fn test_slti_no_gt() {
    check_alui(F3_SLTI, 0x421, 0x420, 0x0);
}

#[test]
fn test_sltiu_yes() {
    check_alui(F3_SLTIU, 0x419, 0x420, 0x1);
}

#[test]
fn test_sltiu_no_eq() {
    check_alui(F3_SLTIU, 0x420, 0x420, 0x0);
}

#[test]
fn test_sltiu_no_gt() {
    check_alui(F3_SLTIU, 0x421, 0x420, 0x0);
}

#[test]
fn test_xori() {
    check_alui(F3_XORI, 0x400, 0x420, 0x20);
}

#[test]
fn test_ori() {
    check_alui(F3_ORI, 0x400, 0x420, 0x420);
}

#[test]
fn test_andi() {
    check_alui(F3_ANDI, 0x400, 0x420, 0x400);
}

#[test]
fn test_slli() {
    check_alui(F3_SLLI, 0x400, 0x1, 0x800);
}

#[test]
fn test_slli_overflow() {
    check_alui(F3_SLLI, 0x80000000, 0x1, 0x0);
}

#[test]
fn test_srli() {
    check_alui(F3_SRLI_SRAI, 0x401, 0x1, 0x200);
}

#[test]
fn test_srli_underflow() {
    check_alui(F3_SRLI_SRAI, 0x1, 0x1, 0x0);
}

#[test]
fn test_srai() {
    let mut cpu = CPU::new();
    prep_alui_inst(&mut cpu, F3_SRLI_SRAI, 0x400, REG_S0, 0x1);
    // Set the SRAI bit (bit 30)
    cpu.instruction = cpu.instruction | (0x1 << 30);
    cpu.inst_alui();
    assert_eq!(cpu.registers.get_register(REG_S0), 0x200);
    assert_eq!(cpu.pc, 0x14, "PC was not updated correctly!");
}

#[test]
fn test_srai_overflow() {
    let mut cpu = CPU::new();
    prep_alui_inst(&mut cpu, F3_SRLI_SRAI, 0x0000_03b1, REG_S0, 0x4);
    // Set the SRAI bit (bit 30)
    cpu.instruction = cpu.instruction | (0x1 << 30);
    cpu.inst_alui();
    // Sign bit 0: the arithmetic shift fills with zeros.
    let expected = 0x0000_003b;
    assert_eq!(cpu.registers.get_register(REG_S0), expected,
        "\nSRAI should give: 0x{:0>8x},\nbut instead returned:    0x{:0>8x}",
        expected, cpu.registers.get_register(REG_S0));
    assert_eq!(cpu.pc, 0x14, "PC was not updated correctly!");
}

#[test]
fn test_add() {
    let mut cpu = CPU::new();
    cpu.registers.set_register(REG_S1, 0xCC33CC33);
    cpu.registers.set_register(REG_S0, 10);
    cpu.pc = 0x10;
    cpu.opcode = OP_ALU;
    cpu.instruction = alu(F7_ADD, F3_ADD_SUB, REG_S1, REG_S0, REG_S0);
    assert_eq!(cpu.inst_alu(), Ok(()));
    let expected: u32 = 0xCC33CC3d;
    assert_eq!(cpu.registers.get_register(REG_S0), expected);
    assert_eq!(cpu.pc, 0x14, "PC was not updated correctly!");
}

#[test]
fn test_sub() {
    check_alu(F7_SUB, F3_ADD_SUB, 0xCC33CC33, 0xA, 0xCC33CC29);
}

#[test]
fn test_sll() {
    check_alu(0, F3_SLL, 0xCC33CC33, 0x8, 0x33CC3300);
}

#[test]
fn test_slt() {
    check_alu(0, F3_SLT, 0x419, 0x420, 0x1);
}

#[test]
fn test_sltu() {
    check_alu(0, F3_SLTU, 0x421, 0x420, 0x0);
}

#[test]
fn test_xor() {
    check_alu(0, F3_XOR, 0xCC33CC33, 0xF00FF00F, 0x3C3C3C3C);
}

#[test]
fn test_srl() {
    check_alu(F7_SRL, F3_SRL_SRA, 0xCC33CC33, 0x8, 0xCC33CC);
}

#[test]
fn test_sra() {
    check_alu(F7_SRA, F3_SRL_SRA, 0xCC33CC33, 0x8, 0xFFCC33CC);
}

#[test]
fn test_or() {
    check_alu(0, F3_OR, 0xCC33CC33, 0x330000CC, 0xFF33CCFF);
}

#[test]
fn test_and() {
    check_alu(0, F3_AND, 0xCC33CC33, 0x10, 0x10);
}

#[test]
fn test_mul() {
    check_alu(F7_M_EXTENSION, F3_MUL, 0x10, 0x10, 0x100);
}

#[test]
fn test_mul_double_negative() {
    check_alu(F7_M_EXTENSION, F3_MUL, 0xFFFFFFFF, 0xFFFFFFFE, 0x2);
}

#[test]
fn test_mul_single_negative() {
    check_alu(F7_M_EXTENSION, F3_MUL, 0xFFFFFFFE, 0x2, -4i32 as u32);
}

#[test]
fn test_mul_overflow() {
    check_alu(F7_M_EXTENSION, F3_MUL, 0x10000000, 0x10, 0x0);
}

#[test]
fn test_mulh() {
    check_alu(F7_M_EXTENSION, F3_MULH, 0x10, 0x10, 0x0);
}

#[test]
fn test_mulh_double_negative() {
    check_alu(F7_M_EXTENSION, F3_MULH, 0xFFFFFFFF, 0xFFFFFFFE, 0x0);
}

#[test]
fn test_mulh_single_negative() {
    check_alu(F7_M_EXTENSION, F3_MULH, 0xFFFFFFFE, 0x2, 0xFFFFFFFF);
}

#[test]
fn test_mulh_overflow_to_higher() {
    check_alu(F7_M_EXTENSION, F3_MULH, 0x1000000, 0x100, 0x1);
}

#[test]
fn test_mulh_overflow() {
    check_alu(F7_M_EXTENSION, F3_MULH, 0xFFFFFFFF, 0xFFFFFFFF, 0x0);
}

#[test]
fn test_mulhsu() {
    check_alu(F7_M_EXTENSION, F3_MULHSU, 0x10, 0x10, 0x0);
}

#[test]
fn test_mulhsu_negative_small_int() {
    check_alu(F7_M_EXTENSION, F3_MULHSU, 0xC4653600, 0x3B9ACA00, 0xF21F494C);
}

#[test]
fn test_mulhsu_negative_big_int() {
    check_alu(F7_M_EXTENSION, F3_MULHSU, 0xC4653600, 0xC4653600, 0xD245ECB3);
}

#[test]
fn test_mulhsu_positive_big_int() {
    check_alu(F7_M_EXTENSION, F3_MULHSU, 0x3B9ACA00, 0xC4653600, 0x2DBA134C);
}

#[test]
fn test_mulhu() {
    check_alu(F7_M_EXTENSION, F3_MULHU, 0x10, 0x10, 0x0);
}

#[test]
fn test_mulhu_high_ls() {
    check_alu(F7_M_EXTENSION, F3_MULHU, 0x1A2B7F0D, 0x10000000, 0x1A2B7F0);
}

#[test]
fn test_mulhu_ls_high() {
    check_alu(F7_M_EXTENSION, F3_MULHU, 0x10000000, 0x1A2B7F0D, 0x1A2B7F0);
}

#[test]
fn test_mulhu_high_high() {
    check_alu(F7_M_EXTENSION, F3_MULHU, 0xEE6B2800, 0xEE6B2800, 0xDE0B6B3A);
}

#[test]
fn test_div() {
    check_alu(F7_M_EXTENSION, F3_DIV, 0x10, 0x10, 0x1);
}

#[test]
fn test_div_non_perfect() {
    check_alu(F7_M_EXTENSION, F3_DIV, 0x14, 0x10, 0x1);
}

#[test]
fn test_div_negative_dividend() {
    check_alu(F7_M_EXTENSION, F3_DIV, 0x10, 0xFFFFFFFF, 0xFFFFFFF0);
}

#[test]
fn test_div_negative_divisor() {
    check_alu(F7_M_EXTENSION, F3_DIV, 0xFFFFFFFF, 0x1, 0xFFFFFFFF);
}

#[test]
fn test_div_negative_double() {
    check_alu(F7_M_EXTENSION, F3_DIV, 0xFFFFFFFC, 0xFFFFFFFE, 0x2);
}

#[test]
fn test_div_complex() {
    check_alu(F7_M_EXTENSION, F3_DIV, 0x840, 0x1F4, 0x4);
}

#[test]
fn test_div_zero_dividend() {
    check_alu(F7_M_EXTENSION, F3_DIV, 0x0, 0x10, 0x0);
}

#[test]
fn test_div_zero_divisor() {
    check_alu(F7_M_EXTENSION, F3_DIV, 0x10, 0x0, 0xFFFFFFFF);
}

#[test]
fn test_divu() {
    check_alu(F7_M_EXTENSION, F3_DIVU, 0x14, 0x10, 0x1);
}

#[test]
fn test_divu_zero_dividend() {
    check_alu(F7_M_EXTENSION, F3_DIVU, 0x0, 0x10, 0x0);
}

#[test]
fn test_divu_zero_divisor() {
    check_alu(F7_M_EXTENSION, F3_DIVU, 0x10, 0x0, 0xFFFFFFFF);
}

#[test]
fn test_rem() {
    check_alu(F7_M_EXTENSION, F3_REM, 0x10, 0x10, 0x0);
}

#[test]
fn test_rem_zero_dividend() {
    check_alu(F7_M_EXTENSION, F3_REM, 0x0, 0x10, 0x0);
}

#[test]
fn test_rem_zero_divisor() {
    check_alu(F7_M_EXTENSION, F3_REM, 0x10, 0x0, 0x10);
}

#[test]
fn test_rem_negative_dividend() {
    check_alu(F7_M_EXTENSION, F3_REM, 0xFFFF0000, 0xA, 0xFFFFFFFA);
}

#[test]
fn test_rem_negative_divisor() {
    check_alu(F7_M_EXTENSION, F3_REM, 0x10, 0xFFFFFFFD, 0x1);
}

#[test]
fn test_rem_negative_double() {
    check_alu(F7_M_EXTENSION, F3_REM, 0xFFFF0000, 0xFFFFFFF5, 0xFFFFFFF7);
}

#[test]
fn test_rem_overflow() {
    check_alu(F7_M_EXTENSION, F3_REM, 0xF0000000, 0xFFFFFFFF, 0x0);
}

#[test]
fn test_remu() {
    check_alu(F7_M_EXTENSION, F3_REMU, 0x10, 0x10, 0x0);
}

#[test]
fn test_remu_zero_dividend() {
    check_alu(F7_M_EXTENSION, F3_REMU, 0x0, 0x10, 0x0);
}

#[test]
fn test_remu_zero_divisor() {
    check_alu(F7_M_EXTENSION, F3_REMU, 0x10, 0x0, 0x10);
}

#[test]
fn test_remu_large_dividend() {
    check_alu(F7_M_EXTENSION, F3_REMU, 0xF0000000, 0x15, 0x9);
}
