//! The mutable processor state the execution environment works on: the
//! register file, the program counter, the per-instruction index-register
//! selection with its pending displacement, and the two addressing-width
//! flags.

use vstd::prelude::*;
use crate::registers::{Reg16, Registers};

verus! {

pub struct State {
    pub reg: Registers,
    pub pc: u32,
    /// The index register currently standing in for the default pair;
    /// `Reg16::HL` means no alternate index is selected.
    pub index: Reg16,
    /// Pending signed displacement for indexed addressing.
    pub displacement: i8,
    /// "Operand is long": multi-byte memory accesses, stack entries and
    /// register accesses are 24 bits wide.
    pub op_long: bool,
    /// "Immediate is long": immediate operands fetched at the program
    /// counter are 24 bits wide.
    pub imm_long: bool,
    pub instructions_executed: u64,
}

impl State {
    /// Reset state: all registers zero, short mode, default index.
    pub fn new() -> (s: State)
        ensures
            s.reg == Registers::zeroed(),
            s.pc == 0,
            s.index == Reg16::HL,
            s.displacement == 0,
            !s.op_long,
            !s.imm_long,
            s.instructions_executed == 0,
    {
        State {
            reg: Registers::new(),
            pc: 0,
            index: Reg16::HL,
            displacement: 0,
            op_long: false,
            imm_long: false,
            instructions_executed: 0,
        }
    }

    pub fn is_op_long(&self) -> (b: bool)
        ensures
            b == self.op_long,
    {
        self.op_long
    }

    pub fn is_imm_long(&self) -> (b: bool)
        ensures
            b == self.imm_long,
    {
        self.imm_long
    }

    pub fn pc(&self) -> (v: u32)
        ensures
            v == self.pc,
    {
        self.pc
    }

    pub fn set_pc(&mut self, v: u32)
        ensures
            *final(self) == (State { pc: v, ..*old(self) }),
    {
        self.pc = v;
    }

    /// The effective stack pointer: the 24-bit pointer in long mode, the
    /// bank-relocated 16-bit pointer in short mode.
    pub open spec fn sp_spec(self) -> u32 {
        if self.op_long {
            self.reg.get24_spec(Reg16::SP)
        } else {
            self.reg.get16_mbase_spec(Reg16::SP)
        }
    }

    pub fn sp(&self) -> (v: u32)
        ensures
            v == self.sp_spec(),
    {
        if self.op_long {
            self.reg.get24(Reg16::SP)
        } else {
            self.reg.get16_mbase(Reg16::SP)
        }
    }
}

} // verus!
