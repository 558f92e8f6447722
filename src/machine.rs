use vstd::prelude::*;
use crate::alu::{branch_taken, reg_imm, reg_reg, wrap};
use crate::decode::{
    funct3_of, funct7_of, imm_b, imm_i, imm_j, imm_s, imm_u, rd_of, rs1_of, rs2_of, sign_extend,
};
use crate::opcodes::{
    OP_ALU, OP_ALUI, OP_AUIPC, OP_BRANCH, OP_E_C, OP_FENCE, OP_HALT, OP_JAL, OP_JALR, OP_LOAD,
    OP_LUI, OP_STORE,
};
use crate::memory::{le_bytes_u16, le_bytes_u32, read_u16, read_u32, write_bytes};
use crate::register::reg_write;

verus! {

/// Why execution cannot go on.
#[derive(Clone, Copy, Debug, PartialEq, Eq, Structural)]
pub enum Fault {
    /// An unknown opcode, or a known one with an invalid funct3/funct7.
    IllegalInstruction { pc: u32, instruction: u32 },
    /// An access with a byte outside memory.
    MemoryOutOfRange { pc: u32, address: u32 },
}

/// The architectural state: program counter, register file, memory.
pub struct ArchState {
    pub pc: u32,
    pub regs: Seq<u32>,
    pub mem: Seq<u8>,
}

/// What executing one instruction leads to.
pub enum Outcome {
    /// Execution goes on from this state.
    Next(ArchState),
    /// A halt-class instruction: the state stays as it was.
    Halted,
    /// A fatal error: the state stays as it was.
    Faulted(Fault),
}

/// The address of the instruction that follows the one at `pc`.
pub open spec fn next_pc(pc: u32) -> u32 {
    wrap(pc + 4)
}

/// The value of register `r` in `s`.
pub open spec fn reg(s: ArchState, r: u32) -> u32 {
    s.regs[r as int]
}

/// `s` with `v` written to the destination register of `inst` and the program
/// counter set to `pc`.
pub open spec fn retire(s: ArchState, inst: u32, v: u32, pc: u32) -> ArchState {
    ArchState { pc, regs: reg_write(s.regs, rd_of(inst) as int, v), mem: s.mem }
}

/// The fault for an illegal instruction `inst` at the program counter of `s`.
pub open spec fn illegal(s: ArchState, inst: u32) -> Fault {
    Fault::IllegalInstruction { pc: s.pc, instruction: inst }
}

/// LUI: the U-type immediate into `rd`.
pub open spec fn exec_lui(s: ArchState, inst: u32) -> Outcome {
    Outcome::Next(retire(s, inst, imm_u(inst), next_pc(s.pc)))
}

/// AUIPC: the program counter plus the U-type immediate into `rd`.
pub open spec fn exec_auipc(s: ArchState, inst: u32) -> Outcome {
    Outcome::Next(retire(s, inst, wrap(s.pc + imm_u(inst)), next_pc(s.pc)))
}

/// JAL: the return address into `rd`, then a jump relative to the program counter.
pub open spec fn exec_jal(s: ArchState, inst: u32) -> Outcome {
    Outcome::Next(retire(s, inst, next_pc(s.pc), wrap(s.pc + imm_j(inst))))
}

/// JALR: a jump to `rs1` plus the I-type immediate with bit 0 cleared, the
/// return address into `rd`; `rs1` is read before `rd` is written.
pub open spec fn exec_jalr(s: ArchState, inst: u32) -> Outcome {
    Outcome::Next(
        retire(s, inst, next_pc(s.pc), wrap(reg(s, rs1_of(inst)) + imm_i(inst)) & 0xFFFF_FFFE),
    )
}

/// The conditional branches: relative to the program counter where taken.
pub open spec fn exec_branch(s: ArchState, inst: u32) -> Outcome {
    match branch_taken(funct3_of(inst), reg(s, rs1_of(inst)), reg(s, rs2_of(inst))) {
        Some(taken) => Outcome::Next(
            ArchState {
                pc: if taken {
                    wrap(s.pc + imm_b(inst))
                } else {
                    next_pc(s.pc)
                },
                ..s
            },
        ),
        None => Outcome::Faulted(illegal(s, inst)),
    }
}

/// The number of bytes that the load with funct3 `f3` reads.
pub open spec fn load_width(f3: u32) -> Option<int> {
    if f3 == 0 || f3 == 4 {
        Some(1)
    } else if f3 == 1 || f3 == 5 {
        Some(2)
    } else if f3 == 2 {
        Some(4)
    } else {
        None
    }
}

/// The value that the load with funct3 `f3` reads from `mem` at `a`.
pub open spec fn load_value(f3: u32, mem: Seq<u8>, a: int) -> u32 {
    if f3 == 0 {
        sign_extend(mem[a] as u32, 7)
    } else if f3 == 1 {
        sign_extend(read_u16(mem, a) as u32, 15)
    } else if f3 == 2 {
        read_u32(mem, a)
    } else if f3 == 4 {
        mem[a] as u32
    } else {
        read_u16(mem, a) as u32
    }
}

/// The loads, from `rs1` plus the I-type immediate.
pub open spec fn exec_load(s: ArchState, inst: u32) -> Outcome {
    match load_width(funct3_of(inst)) {
        Some(w) => {
            let a = wrap(reg(s, rs1_of(inst)) + imm_i(inst));
            if a + w > s.mem.len() {
                Outcome::Faulted(Fault::MemoryOutOfRange { pc: s.pc, address: a })
            } else {
                Outcome::Next(retire(s, inst, load_value(funct3_of(inst), s.mem, a as int), next_pc(s.pc)))
            }
        },
        None => Outcome::Faulted(illegal(s, inst)),
    }
}

/// The bytes that the store with funct3 `f3` writes for `v`.
pub open spec fn store_bytes(f3: u32, v: u32) -> Option<Seq<u8>> {
    if f3 == 0 {
        Some(seq![(v & 0xFF) as u8])
    } else if f3 == 1 {
        Some(le_bytes_u16((v & 0xFFFF) as u16))
    } else if f3 == 2 {
        Some(le_bytes_u32(v))
    } else {
        None
    }
}

/// The stores of `rs2`, at `rs1` plus the S-type immediate.
pub open spec fn exec_store(s: ArchState, inst: u32) -> Outcome {
    match store_bytes(funct3_of(inst), reg(s, rs2_of(inst))) {
        Some(b) => {
            let a = wrap(reg(s, rs1_of(inst)) + imm_s(inst));
            if a + b.len() > s.mem.len() {
                Outcome::Faulted(Fault::MemoryOutOfRange { pc: s.pc, address: a })
            } else {
                Outcome::Next(
                    ArchState { pc: next_pc(s.pc), regs: s.regs, mem: write_bytes(s.mem, a as int, b) },
                )
            }
        },
        None => Outcome::Faulted(illegal(s, inst)),
    }
}

/// The register-immediate operations.
pub open spec fn exec_alui(s: ArchState, inst: u32) -> Outcome {
    Outcome::Next(retire(s, inst, reg_imm(inst, reg(s, rs1_of(inst))), next_pc(s.pc)))
}

/// The register-register operations, with multiply and divide.
pub open spec fn exec_alu(s: ArchState, inst: u32) -> Outcome {
    match reg_reg(funct7_of(inst), funct3_of(inst), reg(s, rs1_of(inst)), reg(s, rs2_of(inst))) {
        Some(v) => Outcome::Next(retire(s, inst, v, next_pc(s.pc))),
        None => Outcome::Faulted(illegal(s, inst)),
    }
}

/// One instruction `inst`, dispatched on `opcode`, executed in `s`.
pub open spec fn execute(s: ArchState, opcode: u32, inst: u32) -> Outcome {
    if opcode == OP_LUI as u32 {
        exec_lui(s, inst)
    } else if opcode == OP_AUIPC as u32 {
        exec_auipc(s, inst)
    } else if opcode == OP_JAL as u32 {
        exec_jal(s, inst)
    } else if opcode == OP_JALR as u32 {
        exec_jalr(s, inst)
    } else if opcode == OP_BRANCH as u32 {
        exec_branch(s, inst)
    } else if opcode == OP_LOAD as u32 {
        exec_load(s, inst)
    } else if opcode == OP_STORE as u32 {
        exec_store(s, inst)
    } else if opcode == OP_ALUI as u32 {
        exec_alui(s, inst)
    } else if opcode == OP_ALU as u32 {
        exec_alu(s, inst)
    } else if opcode == OP_FENCE as u32 {
        Outcome::Next(ArchState { pc: next_pc(s.pc), ..s })
    } else if opcode == OP_E_C as u32 || opcode == OP_HALT as u32 {
        Outcome::Halted
    } else {
        Outcome::Faulted(illegal(s, inst))
    }
}

/// Every instruction that neither jumps nor takes a branch, and goes on,
/// leaves the program counter at the next word.
pub proof fn lemma_sequential_pc(s: ArchState, opcode: u32, inst: u32)
    requires
        opcode != OP_JAL as u32,
        opcode != OP_JALR as u32,
        opcode == OP_BRANCH as u32 ==> branch_taken(funct3_of(inst), reg(s, rs1_of(inst)), reg(s, rs2_of(inst)))
            == Some(false),
        execute(s, opcode, inst) is Next,
    ensures
        execute(s, opcode, inst)->Next_0.pc == wrap(s.pc + 4),
{
}

/// Executing any instruction keeps a 32-entry register file whose register 0
/// is 0 that way: no instruction makes register 0 read other than 0.
pub proof fn lemma_zero_register_kept(s: ArchState, opcode: u32, inst: u32)
    requires
        s.regs.len() == 32,
        s.regs[0] == 0,
    ensures
        execute(s, opcode, inst) is Next ==> {
            let t = execute(s, opcode, inst)->Next_0;
            t.regs.len() == 32 && t.regs[0] == 0
        },
{
    assert((inst >> 7u32) & 0x1F < 32) by (bit_vector);
}

} // verus!
