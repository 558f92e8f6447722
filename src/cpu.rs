use vstd::prelude::*;
use crate::alu::{compute_branch, compute_reg_imm, compute_reg_reg};
use crate::decode::{
    decode_funct3, decode_funct7, decode_imm_b, decode_imm_i, decode_imm_j, decode_imm_s,
    decode_imm_u, decode_opcode, decode_rd, decode_rs1, decode_rs2, opcode_of, sign_extend_from,
};
use crate::machine::{
    exec_alu, exec_alui, exec_auipc, exec_branch, exec_jal, exec_jalr, exec_load, exec_lui,
    exec_store, execute, ArchState, Fault, Outcome,
};
use crate::memory::{read_u32, write_bytes, Memory};
use crate::opcodes::{
    OP_ALU, OP_ALUI, OP_AUIPC, OP_BRANCH, OP_E_C, OP_FENCE, OP_HALT, OP_JAL, OP_JALR, OP_LOAD,
    OP_LUI, OP_STORE,
};
use crate::register::Register;

verus! {

/// The capacity of an interpreter's memory: 2 MiB.
pub const MEMSIZE: usize = 2 * 1024 * 1024;

/// The interpreter: program counter, the last fetched instruction and its
/// opcode, a register file and a memory.
pub struct CPU {
    pub pc: u32,
    pub registers: Register,
    pub memory: Memory,
    pub instruction: u32,
    pub opcode: u8,
}

impl View for CPU {
    type V = ArchState;

    open spec fn view(&self) -> ArchState {
        ArchState { pc: self.pc, regs: self.registers@, mem: self.memory@ }
    }
}

/// `post` holds the same fetched instruction and opcode as `pre`.
pub open spec fn same_fetch(pre: CPU, post: CPU) -> bool {
    post.instruction == pre.instruction && post.opcode == pre.opcode
}

/// An executor that cannot fail went from `pre` to `post` as `o` says.
pub open spec fn completes(pre: CPU, post: CPU, o: Outcome) -> bool {
    same_fetch(pre, post) && o == Outcome::Next(post@)
}

/// An executor went from `pre` to `post`, returning `r`, as `o` says: on a
/// fault it returns the fault and changes nothing.
pub open spec fn settles(pre: CPU, post: CPU, r: Result<(), Fault>, o: Outcome) -> bool {
    same_fetch(pre, post) && match o {
        Outcome::Next(t) => r == Ok::<(), Fault>(()) && post@ == t,
        Outcome::Faulted(f) => r == Err::<(), Fault>(f) && post@ == pre@,
        Outcome::Halted => false,
    }
}

/// One dispatch went from `pre` to `post`, returning `r`, as `o` says: `Ok(true)`
/// for a halt, `Ok(false)` to go on, the fault otherwise; only going on changes
/// the state.
pub open spec fn dispatched(pre: CPU, post: CPU, r: Result<bool, Fault>, o: Outcome) -> bool {
    match o {
        Outcome::Next(t) => r == Ok::<bool, Fault>(false) && post@ == t,
        Outcome::Halted => r == Ok::<bool, Fault>(true) && post@ == pre@,
        Outcome::Faulted(f) => r == Err::<bool, Fault>(f) && post@ == pre@,
    }
}

impl CPU {
    /// An interpreter at pc 0 with zeroed registers and 2 MiB of zeroed memory.
    pub fn new() -> (r: CPU)
        ensures
            r.pc == 0,
            r.instruction == 0,
            r.opcode == 0,
            r.registers@ == Seq::new(32, |i: int| 0u32),
            r.memory@ == Seq::new(MEMSIZE as nat, |i: int| 0u8),
    {
        CPU {
            pc: 0,
            registers: Register::new(),
            memory: Memory::new(MEMSIZE),
            instruction: 0,
            opcode: 0,
        }
    }

    /// The program counter.
    pub fn get_pc(&self) -> (r: u32)
        ensures
            r == self.pc,
    {
        self.pc
    }

    /// LUI.
    pub fn inst_lui(&mut self)
        ensures
            completes(*old(self), *final(self), exec_lui(old(self)@, old(self).instruction)),
    {
        let inst = self.instruction;
        let rd = decode_rd(inst);
        self.registers.set_register(rd, decode_imm_u(inst));
        self.pc = self.pc.wrapping_add(4);
    }

    /// AUIPC.
    pub fn inst_auipc(&mut self)
        ensures
            completes(*old(self), *final(self), exec_auipc(old(self)@, old(self).instruction)),
    {
        let inst = self.instruction;
        let rd = decode_rd(inst);
        self.registers.set_register(rd, self.pc.wrapping_add(decode_imm_u(inst)));
        self.pc = self.pc.wrapping_add(4);
    }

    /// JAL.
    pub fn inst_jal(&mut self)
        ensures
            completes(*old(self), *final(self), exec_jal(old(self)@, old(self).instruction)),
    {
        let inst = self.instruction;
        let rd = decode_rd(inst);
        let target = self.pc.wrapping_add(decode_imm_j(inst));
        self.registers.set_register(rd, self.pc.wrapping_add(4));
        self.pc = target;
    }

    /// JALR.
    pub fn inst_jalr(&mut self)
        ensures
            completes(*old(self), *final(self), exec_jalr(old(self)@, old(self).instruction)),
    {
        let inst = self.instruction;
        let rd = decode_rd(inst);
        let rs1 = decode_rs1(inst);
        let target = self.registers.get_register(rs1).wrapping_add(decode_imm_i(inst)) & 0xFFFF_FFFE;
        self.registers.set_register(rd, self.pc.wrapping_add(4));
        self.pc = target;
    }

    /// The conditional branches.
    pub fn inst_branch(&mut self) -> (r: Result<(), Fault>)
        ensures
            settles(*old(self), *final(self), r, exec_branch(old(self)@, old(self).instruction)),
    {
        let inst = self.instruction;
        let rs1 = decode_rs1(inst);
        let rs2 = decode_rs2(inst);
        let funct3 = decode_funct3(inst);
        let a = self.registers.get_register(rs1);
        let b = self.registers.get_register(rs2);
        match compute_branch(funct3, a, b) {
            Some(true) => {
                self.pc = self.pc.wrapping_add(decode_imm_b(inst));
                Ok(())
            },
            Some(false) => {
                self.pc = self.pc.wrapping_add(4);
                Ok(())
            },
            None => Err(Fault::IllegalInstruction { pc: self.pc, instruction: inst }),
        }
    }

    /// The loads: LB, LH, LW, LBU, LHU.
    pub fn inst_load(&mut self) -> (r: Result<(), Fault>)
        ensures
            settles(*old(self), *final(self), r, exec_load(old(self)@, old(self).instruction)),
    {
        let inst = self.instruction;
        let rd = decode_rd(inst);
        let rs1 = decode_rs1(inst);
        let funct3 = decode_funct3(inst);
        let width: u64 = match funct3 {
            0 | 4 => 1,
            1 | 5 => 2,
            2 => 4,
            _ => {
                return Err(Fault::IllegalInstruction { pc: self.pc, instruction: inst });
            },
        };
        let address = self.registers.get_register(rs1).wrapping_add(decode_imm_i(inst));
        let len = self.memory.get_memory().len();
        if address as u64 + width > len as u64 {
            return Err(Fault::MemoryOutOfRange { pc: self.pc, address });
        }
        let value = match funct3 {
            0 => sign_extend_from(self.memory.get_u8(address) as u32, 7),
            1 => sign_extend_from(self.memory.get_u16(address) as u32, 15),
            2 => self.memory.get_u32(address),
            4 => self.memory.get_u8(address) as u32,
            _ => self.memory.get_u16(address) as u32,
        };
        self.registers.set_register(rd, value);
        self.pc = self.pc.wrapping_add(4);
        Ok(())
    }

    /// The stores: SB, SH, SW.
    pub fn inst_store(&mut self) -> (r: Result<(), Fault>)
        ensures
            settles(*old(self), *final(self), r, exec_store(old(self)@, old(self).instruction)),
    {
        let inst = self.instruction;
        let rs1 = decode_rs1(inst);
        let rs2 = decode_rs2(inst);
        let funct3 = decode_funct3(inst);
        let width: u64 = match funct3 {
            0 => 1,
            1 => 2,
            2 => 4,
            _ => {
                return Err(Fault::IllegalInstruction { pc: self.pc, instruction: inst });
            },
        };
        let address = self.registers.get_register(rs1).wrapping_add(decode_imm_s(inst));
        let value = self.registers.get_register(rs2);
        let len = self.memory.get_memory().len();
        if address as u64 + width > len as u64 {
            return Err(Fault::MemoryOutOfRange { pc: self.pc, address });
        }
        match funct3 {
            0 => {
                self.memory.set_u8(address, (value & 0xFF) as u8);
                assert(self.memory@ =~= write_bytes(
                    old(self).memory@,
                    address as int,
                    seq![(value & 0xFF) as u8],
                ));
            },
            1 => self.memory.set_u16(address, (value & 0xFFFF) as u16),
            _ => self.memory.set_u32(address, value),
        }
        self.pc = self.pc.wrapping_add(4);
        Ok(())
    }

    /// The register-immediate operations.
    pub fn inst_alui(&mut self)
        ensures
            completes(*old(self), *final(self), exec_alui(old(self)@, old(self).instruction)),
    {
        let inst = self.instruction;
        let rd = decode_rd(inst);
        let rs1 = decode_rs1(inst);
        let result = compute_reg_imm(inst, self.registers.get_register(rs1));
        self.registers.set_register(rd, result);
        self.pc = self.pc.wrapping_add(4);
    }

    /// The register-register operations, multiply and divide included.
    pub fn inst_alu(&mut self) -> (r: Result<(), Fault>)
        ensures
            settles(*old(self), *final(self), r, exec_alu(old(self)@, old(self).instruction)),
    {
        let inst = self.instruction;
        let rd = decode_rd(inst);
        let rs1 = decode_rs1(inst);
        let rs2 = decode_rs2(inst);
        let funct3 = decode_funct3(inst);
        let funct7 = decode_funct7(inst);
        let a = self.registers.get_register(rs1);
        let b = self.registers.get_register(rs2);
        match compute_reg_reg(funct7, funct3, a, b) {
            Some(result) => {
                self.registers.set_register(rd, result);
                self.pc = self.pc.wrapping_add(4);
                Ok(())
            },
            None => Err(Fault::IllegalInstruction { pc: self.pc, instruction: inst }),
        }
    }

    /// Executes the fetched instruction, dispatched on the cached opcode:
    /// `Ok(true)` for a halt, `Ok(false)` to go on, or the fault.
    pub fn exec_inst(&mut self) -> (r: Result<bool, Fault>)
        ensures
            same_fetch(*old(self), *final(self)),
            dispatched(
                *old(self),
                *final(self),
                r,
                execute(old(self)@, old(self).opcode as u32, old(self).instruction),
            ),
    {
        let opcode = self.opcode;
        if opcode == OP_LUI {
            self.inst_lui();
        } else if opcode == OP_AUIPC {
            self.inst_auipc();
        } else if opcode == OP_JAL {
            self.inst_jal();
        } else if opcode == OP_JALR {
            self.inst_jalr();
        } else if opcode == OP_BRANCH {
            self.inst_branch()?;
        } else if opcode == OP_LOAD {
            self.inst_load()?;
        } else if opcode == OP_STORE {
            self.inst_store()?;
        } else if opcode == OP_ALUI {
            self.inst_alui();
        } else if opcode == OP_ALU {
            self.inst_alu()?;
        } else if opcode == OP_FENCE {
            self.pc = self.pc.wrapping_add(4);
        } else if opcode == OP_E_C || opcode == OP_HALT {
            return Ok(true);
        } else {
            return Err(Fault::IllegalInstruction { pc: self.pc, instruction: self.instruction });
        }
        Ok(false)
    }

    /// Reads the word at the program counter into `instruction` and its low 7
    /// bits into `opcode`; fails where the word does not lie in memory.
    pub fn fetch(&mut self) -> (r: Result<(), Fault>)
        ensures
            final(self)@ == old(self)@,
            old(self).pc + 4 <= old(self).memory@.len() ==> {
                &&& r == Ok::<(), Fault>(())
                &&& final(self).instruction == read_u32(old(self).memory@, old(self).pc as int)
                &&& final(self).opcode as u32 == opcode_of(final(self).instruction)
            },
            old(self).pc + 4 > old(self).memory@.len() ==> {
                &&& r == Err::<(), Fault>(
                    Fault::MemoryOutOfRange { pc: old(self).pc, address: old(self).pc },
                )
                &&& same_fetch(*old(self), *final(self))
            },
    {
        let len = self.memory.get_memory().len();
        if self.pc as u64 + 4 > len as u64 {
            return Err(Fault::MemoryOutOfRange { pc: self.pc, address: self.pc });
        }
        self.instruction = self.memory.get_u32(self.pc);
        self.opcode = decode_opcode(self.instruction);
        Ok(())
    }

    /// Fetches and executes one instruction: `Ok(true)` for a halt, `Ok(false)`
    /// to go on, or the fault.
    pub fn step(&mut self) -> (r: Result<bool, Fault>)
        ensures
            old(self).pc + 4 <= old(self).memory@.len() ==> {
                let inst = read_u32(old(self).memory@, old(self).pc as int);
                &&& final(self).instruction == inst
                &&& final(self).opcode as u32 == opcode_of(inst)
                &&& dispatched(*old(self), *final(self), r, execute(old(self)@, opcode_of(inst), inst))
            },
            old(self).pc + 4 > old(self).memory@.len() ==> {
                &&& r == Err::<bool, Fault>(
                    Fault::MemoryOutOfRange { pc: old(self).pc, address: old(self).pc },
                )
                &&& final(self)@ == old(self)@
            },
    {
        match self.fetch() {
            Ok(()) => self.exec_inst(),
            Err(f) => Err(f),
        }
    }

    /// Copies `image` into memory at `offset`, byte `i` of it to `offset + i`.
    pub fn load_image(&mut self, offset: u32, image: &Vec<u8>)
        requires
            offset + image@.len() <= old(self).memory@.len(),
        ensures
            final(self).pc == old(self).pc,
            final(self).registers@ == old(self).registers@,
            final(self).memory@ == write_bytes(old(self).memory@, offset as int, image@),
            same_fetch(*old(self), *final(self)),
    {
        self.memory.load_image(offset, image);
    }
}

} // verus!
