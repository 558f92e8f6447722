use vstd::prelude::*;

verus! {

// ABI names of the 32 registers.
pub const REG_ZERO: u8 = 0;
pub const REG_RA: u8 = 1;
pub const REG_SP: u8 = 2;
pub const REG_GP: u8 = 3;
pub const REG_TP: u8 = 4;
pub const REG_T0: u8 = 5;
pub const REG_T1: u8 = 6;
pub const REG_T2: u8 = 7;
pub const REG_S0: u8 = 8;
pub const REG_S1: u8 = 9;
pub const REG_A0: u8 = 10;
pub const REG_A1: u8 = 11;
pub const REG_A2: u8 = 12;
pub const REG_A3: u8 = 13;
pub const REG_A4: u8 = 14;
pub const REG_A5: u8 = 15;
pub const REG_A6: u8 = 16;
pub const REG_A7: u8 = 17;
pub const REG_S2: u8 = 18;
pub const REG_S3: u8 = 19;
pub const REG_S4: u8 = 20;
pub const REG_S5: u8 = 21;
pub const REG_S6: u8 = 22;
pub const REG_S7: u8 = 23;
pub const REG_S8: u8 = 24;
pub const REG_S9: u8 = 25;
pub const REG_S10: u8 = 26;
pub const REG_S11: u8 = 27;
pub const REG_T3: u8 = 28;
pub const REG_T4: u8 = 29;
pub const REG_T5: u8 = 30;
pub const REG_T6: u8 = 31;

/// The register file after a write of `v` to register `i`: a write to register
/// 0 is dropped.
pub open spec fn reg_write(regs: Seq<u32>, i: int, v: u32) -> Seq<u32> {
    if i == 0 {
        regs
    } else {
        regs.update(i, v)
    }
}

/// The register file after the writes of `writes`, in order.
pub open spec fn reg_write_all(regs: Seq<u32>, writes: Seq<(u8, u32)>) -> Seq<u32>
    decreases writes.len(),
{
    if writes.len() == 0 {
        regs
    } else {
        reg_write(
            reg_write_all(regs, writes.drop_last()),
            writes.last().0 as int,
            writes.last().1,
        )
    }
}

/// The 32 general-purpose registers. Register 0 is hard-wired to zero.
pub struct Register {
    registers: [u32; 32],
}

impl View for Register {
    type V = Seq<u32>;

    /// The values that the 32 registers read as.
    closed spec fn view(&self) -> Seq<u32> {
        Seq::new(32, |i: int| if i == 0 { 0u32 } else { self.registers@[i] })
    }
}

impl Register {
    /// Every register file has 32 entries, and entry 0 reads as 0.
    pub proof fn lemma_shape(&self)
        ensures
            self@.len() == 32,
            self@[0] == 0,
    {
    }

    /// A register file with every register zero.
    pub fn new() -> (r: Register)
        ensures
            r@ == Seq::new(32, |i: int| 0u32),
    {
        let r = Register { registers: [0u32; 32] };
        assert(r@ =~= Seq::new(32, |i: int| 0u32));
        r
    }

    /// Stores `value` in register `register`; a write to register 0 has no effect.
    pub fn set_register(&mut self, register: u8, value: u32)
        requires
            register < 32,
        ensures
            final(self)@ == reg_write(old(self)@, register as int, value),
    {
        if register == 0 {
            return ;
        }
        self.registers[register as usize] = value;
        assert(self@ =~= old(self)@.update(register as int, value));
    }

    /// The value of register `register`; register 0 always reads as 0.
    pub fn get_register(&self, register: u8) -> (r: u32)
        requires
            register < 32,
        ensures
            r == self@[register as int],
    {
        if register == 0 {
            return 0;
        }
        self.registers[register as usize]
    }
}

/// Register 0 reads as 0 after any sequence of writes to the register file
/// (each to one of the 32 registers).
pub proof fn lemma_zero_register_after_writes(r: Register, writes: Seq<(u8, u32)>)
    requires
        forall|k: int| 0 <= k < writes.len() ==> (#[trigger] writes[k]).0 < 32,
    ensures
        reg_write_all(r@, writes).len() == 32,
        reg_write_all(r@, writes)[0] == 0,
    decreases writes.len(),
{
    r.lemma_shape();
    if writes.len() > 0 {
        assert forall|k: int| 0 <= k < writes.drop_last().len() implies (
        #[trigger] writes.drop_last()[k]).0 < 32 by {
            assert(writes.drop_last()[k] == writes[k]);
        }
        lemma_zero_register_after_writes(r, writes.drop_last());
        assert(writes.last() == writes[writes.len() - 1]);
    }
}

} // verus!
