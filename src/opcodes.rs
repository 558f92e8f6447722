use vstd::prelude::*;

verus! {

// Major opcodes (bits 6:0 of an instruction).
pub const OP_LUI: u8 = 0x37;
pub const OP_AUIPC: u8 = 0x17;
pub const OP_JAL: u8 = 0x6F;
pub const OP_JALR: u8 = 0x67;
pub const OP_BRANCH: u8 = 0x63;
pub const OP_LOAD: u8 = 0x03;
pub const OP_STORE: u8 = 0x23;
pub const OP_ALUI: u8 = 0x13;
pub const OP_ALU: u8 = 0x33;
pub const OP_FENCE: u8 = 0x0F;
pub const OP_E_C: u8 = 0x73;
pub const OP_HALT: u8 = 0x00;

// funct3 of the branches.
pub const F3_BEQ: u8 = 0x00;
pub const F3_BNE: u8 = 0x01;
pub const F3_BLT: u8 = 0x04;
pub const F3_BGE: u8 = 0x05;
pub const F3_BLTU: u8 = 0x06;
pub const F3_BGEU: u8 = 0x07;

// funct3 of the loads.
pub const F3_LB: u8 = 0x00;
pub const F3_LH: u8 = 0x01;
pub const F3_LW: u8 = 0x02;
pub const F3_LBU: u8 = 0x04;
pub const F3_LHU: u8 = 0x05;

// funct3 of the stores.
pub const F3_SB: u8 = 0x00;
pub const F3_SH: u8 = 0x01;
pub const F3_SW: u8 = 0x02;

// funct3 of the register-immediate operations.
pub const F3_ADDI: u8 = 0x00;
pub const F3_SLLI: u8 = 0x01;
pub const F3_SLTI: u8 = 0x02;
pub const F3_SLTIU: u8 = 0x03;
pub const F3_XORI: u8 = 0x04;
pub const F3_SRLI_SRAI: u8 = 0x05;
pub const F3_ORI: u8 = 0x06;
pub const F3_ANDI: u8 = 0x07;

// funct3 of the register-register operations.
pub const F3_ADD_SUB: u8 = 0x00;
pub const F3_SLL: u8 = 0x01;
pub const F3_SLT: u8 = 0x02;
pub const F3_SLTU: u8 = 0x03;
pub const F3_XOR: u8 = 0x04;
pub const F3_SRL_SRA: u8 = 0x05;
pub const F3_OR: u8 = 0x06;
pub const F3_AND: u8 = 0x07;

// funct3 of the multiply/divide operations.
pub const F3_MUL: u8 = 0x00;
pub const F3_MULH: u8 = 0x01;
pub const F3_MULHSU: u8 = 0x02;
pub const F3_MULHU: u8 = 0x03;
pub const F3_DIV: u8 = 0x04;
pub const F3_DIVU: u8 = 0x05;
pub const F3_REM: u8 = 0x06;
pub const F3_REMU: u8 = 0x07;

// funct7 of the register-register operations.
pub const F7_BASE: u8 = 0x00;
pub const F7_ALT: u8 = 0x20;
pub const F7_ADD: u8 = 0x00;
pub const F7_SUB: u8 = 0x20;
pub const F7_SRL: u8 = 0x00;
pub const F7_SRA: u8 = 0x20;
pub const F7_M_EXTENSION: u8 = 0x01;

} // verus!
