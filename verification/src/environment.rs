//! The execution environment: a bundle of processor state and a memory/IO
//! capability offering mode-aware address computation, memory and register
//! access, stack discipline and interrupt delivery, as one decoded
//! instruction or one trap handler needs them.

use vstd::prelude::*;
use vstd::arithmetic::div_mod::{
    lemma_add_mod_noop, lemma_fundamental_div_mod_converse, lemma_mod_add_multiples_vanish,
    lemma_small_mod,
};
use vstd::string::StringExecFns;
use crate::machine::{mem_unchanged, poked, poked2, poked3, Machine};
use crate::registers::{Reg16, Reg8, Registers};
use crate::state::State;

verus! {

/// Low byte of a 24-bit quantity.
pub open spec fn byte0(v: u32) -> u8 {
    (v % 0x100) as u8
}

/// Middle byte of a 24-bit quantity.
pub open spec fn byte1(v: u32) -> u8 {
    (v / 0x100 % 0x100) as u8
}

/// High byte of a 24-bit quantity.
pub open spec fn byte2(v: u32) -> u8 {
    (v / 0x10000 % 0x100) as u8
}

/// 32-bit wrapping addition of a mathematical offset.
pub open spec fn add32(a: u32, k: int) -> u32 {
    (((a + k) % 0x1_0000_0000) as u32)
}

/// 32-bit wrapping subtraction of a mathematical offset.
pub open spec fn sub32(a: u32, k: int) -> u32 {
    (((a - k) % 0x1_0000_0000) as u32)
}

/// Mode-aware address increment: in long mode the address advances across
/// the full 24-bit space and wraps at its top; in short mode only the low
/// 16 bits wrap while the bank byte stays fixed.  Either way anything above
/// the 24-bit space is dropped.
pub open spec fn wrap_address_spec(op_long: bool, address: u32, increment: int) -> u32 {
    if op_long {
        (((address + increment) % 0x100_0000) as u32)
    } else {
        ((address / 0x10000 % 0x100) * 0x10000 + ((address % 0x10000 + increment) % 0x10000)) as u32
    }
}

/// The 16-bit word read at `address` with mode-aware increment for the
/// second byte (least-significant byte first).
pub open spec fn peek16_spec<M: Machine>(m: M, op_long: bool, address: u32) -> u16 {
    (m.peek_spec(address) + m.peek_spec(wrap_address_spec(op_long, address, 1)) * 0x100) as u16
}

/// The 24-bit word read at `address` with mode-aware increments.
pub open spec fn peek24_spec<M: Machine>(m: M, op_long: bool, address: u32) -> u32 {
    (m.peek_spec(address) + m.peek_spec(wrap_address_spec(op_long, address, 1)) * 0x100
        + m.peek_spec(wrap_address_spec(op_long, address, 2)) * 0x10000) as u32
}

/// The 16-bit immediate starting at `pc` (fetches increment the program
/// counter with full 32-bit wrap).
pub open spec fn imm16_spec<M: Machine>(m: M, pc: u32) -> u32 {
    (m.peek_spec(pc) + m.peek_spec(add32(pc, 1)) * 0x100) as u32
}

/// The 24-bit immediate starting at `pc`.
pub open spec fn imm24_spec<M: Machine>(m: M, pc: u32) -> u32 {
    (m.peek_spec(pc) + m.peek_spec(add32(pc, 1)) * 0x100 + m.peek_spec(add32(pc, 2)) * 0x10000) as u32
}

/// Memory effect of a push: two bytes below the stack pointer in short mode,
/// three in long mode, written high-to-low toward the stack pointer.
pub open spec fn push_mem<M: Machine>(s0: State, m0: M, m1: M, value: u32) -> bool {
    let sp0 = s0.sp_spec();
    if s0.op_long {
        poked3(
            m0,
            m1,
            sub32(sp0, 1),
            byte2(value),
            sub32(sp0, 2),
            byte1(value),
            sub32(sp0, 3),
            byte0(value),
        )
    } else {
        poked2(m0, m1, sub32(sp0, 1), byte1(value), sub32(sp0, 2), byte0(value))
    }
}

/// The register file after a push: the stack pointer moved down by the
/// width of one stack entry, at the width the current mode gives it.
pub open spec fn pushed_reg(s0: State) -> Registers {
    let sp0 = s0.sp_spec();
    if s0.op_long {
        s0.reg.set24_spec(Reg16::SP, sub32(sp0, 3))
    } else {
        s0.reg.set16_spec(Reg16::SP, (sub32(sp0, 2) % 0x10000) as u16)
    }
}

/// The value a pop returns: read low-to-high from the stack pointer with
/// mode-aware address increments.
pub open spec fn pop_value_spec<M: Machine>(s: State, m: M) -> u32 {
    let sp0 = s.sp_spec();
    let l = m.peek_spec(sp0);
    let h = m.peek_spec(wrap_address_spec(s.op_long, sp0, 1));
    if s.op_long {
        (l + h * 0x100 + m.peek_spec(wrap_address_spec(s.op_long, sp0, 2)) * 0x10000) as u32
    } else {
        (l + h * 0x100) as u32
    }
}

/// The register file after a pop.
pub open spec fn popped_reg(s: State) -> Registers {
    let sp0 = s.sp_spec();
    if s.op_long {
        s.reg.set24_spec(Reg16::SP, wrap_address_spec(true, sp0, 3))
    } else {
        s.reg.set16_spec(Reg16::SP, (wrap_address_spec(false, sp0, 2) % 0x10000) as u16)
    }
}

/// The byte reinterpreted as a signed displacement.
pub open spec fn as_i8(b: u8) -> i8 {
    if b < 128 {
        b as i8
    } else {
        (b - 256) as i8
    }
}

/// Index translation for the two 8-bit halves of the default pair: when an
/// alternate index is selected, they stand for its own high and low halves.
pub open spec fn translate_reg_spec(index: Reg16, reg: Reg8) -> Reg8 {
    match index {
        Reg16::IX => match reg {
            Reg8::H => Reg8::IXH,
            Reg8::L => Reg8::IXL,
            _ => reg,
        },
        Reg16::IY => match reg {
            Reg8::H => Reg8::IYH,
            Reg8::L => Reg8::IYL,
            _ => reg,
        },
        _ => reg,
    }
}

/// The pair a 16/24-bit register access actually lands on: the default pair
/// is substituted by the current index.
pub open spec fn effective_reg16(index: Reg16, rr: Reg16) -> Reg16 {
    if rr == Reg16::HL {
        index
    } else {
        rr
    }
}

/// The effective address of the pseudo-register addressing mode: the full
/// 24-bit pointer in long mode, the bank-relocated 16-bit pointer in short
/// mode.
pub open spec fn index_address_spec(s: State) -> u32 {
    let address = if s.op_long {
        s.reg.get24_spec(s.index)
    } else {
        s.reg.get16_mbase_spec(s.index)
    };
    if s.index != Reg16::HL {
        (((address + s.displacement) % 0x1_0000_0000) as u32)
    } else {
        address
    }
}

/// What a mode-aware 16/24-bit register read returns: the default pair goes
/// through the current index, and the accumulator/flags pair has no 24-bit
/// form.
pub open spec fn reg16or24_spec(s: State, rr: Reg16) -> u32 {
    if s.op_long {
        if rr == Reg16::HL {
            s.reg.get24_spec(s.index)
        } else if rr == Reg16::AF {
            s.reg.get16_spec(rr) as u32
        } else {
            s.reg.get24_spec(rr)
        }
    } else {
        if rr == Reg16::HL {
            s.reg.get16_spec(s.index) as u32
        } else {
            s.reg.get16_spec(rr) as u32
        }
    }
}

/// Splitting a 24-bit value into bytes is inverted by `byte0`..`byte2`.
pub proof fn lemma_word24_bytes(u: u8, h: u8, l: u8)
    ensures
        byte0((u * 0x10000 + h * 0x100 + l) as u32) == l,
        byte1((u * 0x10000 + h * 0x100 + l) as u32) == h,
        byte2((u * 0x10000 + h * 0x100 + l) as u32) == u,
{
    let w = u * 0x10000 + h * 0x100 + l;
    lemma_fundamental_div_mod_converse(w, 0x100, u * 0x100 + h, l as int);
    lemma_fundamental_div_mod_converse(w, 0x10000, u as int, h * 0x100 + l);
    lemma_fundamental_div_mod_converse(u * 0x100 + h, 0x100, u as int, h as int);
    lemma_small_mod(l as nat, 0x100);
    lemma_small_mod(h as nat, 0x100);
    lemma_small_mod(u as nat, 0x100);
}

/// A 24-bit value is recomposed from its bytes.
pub proof fn lemma_bytes_word24(v: u32)
    requires
        v < 0x100_0000,
    ensures
        byte2(v) * 0x10000 + byte1(v) * 0x100 + byte0(v) == v,
{
    lemma_word24_bytes(
        (v / 0x10000 % 0x100) as u8,
        (v / 0x100 % 0x100) as u8,
        (v % 0x100) as u8,
    );
    vstd::arithmetic::div_mod::lemma_fundamental_div_mod(v as int, 0x100);
    vstd::arithmetic::div_mod::lemma_fundamental_div_mod(v as int / 0x100, 0x100);
    vstd::arithmetic::div_mod::lemma_div_denominator(v as int, 0x100, 0x100);
    lemma_small_mod((v / 0x10000) as nat, 0x100);
    lemma_small_mod(v as nat % 0x10000 / 0x100, 0x100);
}

/// A 16-bit value is recomposed from its low two bytes.
pub proof fn lemma_bytes_word16(v: u32)
    requires
        v < 0x10000,
    ensures
        byte1(v) * 0x100 + byte0(v) == v,
        byte2(v) == 0,
{
    vstd::arithmetic::div_mod::lemma_fundamental_div_mod(v as int, 0x100);
    lemma_small_mod((v / 0x100) as nat, 0x100);
    vstd::arithmetic::div_mod::lemma_basic_div_specific_divisor(0x10000);
    lemma_small_mod(0nat, 0x100);
}

/// In short mode an address increment wraps within the low 16 bits only,
/// leaving the bank byte unchanged; in long mode the address advances
/// linearly until the whole 24-bit space wraps.
pub proof fn lemma_wrap_address_modes(a: u32, k: int)
    requires
        0 <= k,
    ensures
        wrap_address_spec(false, a, k) / 0x10000 % 0x100 == a / 0x10000 % 0x100,
        wrap_address_spec(false, a, k) % 0x10000 == (a % 0x10000 + k) % 0x10000,
        a + k < 0x100_0000 ==> wrap_address_spec(true, a, k) == a + k,
{
    let bank = a / 0x10000 % 0x100;
    let low = (a % 0x10000 + k) % 0x10000;
    assert(0 <= low < 0x10000);
    lemma_fundamental_div_mod_converse(
        wrap_address_spec(false, a, k) as int,
        0x10000,
        bank as int,
        low as int,
    );
    lemma_small_mod(bank as nat, 0x100);
    if a + k < 0x100_0000 {
        lemma_small_mod((a + k) as nat, 0x100_0000nat);
    }
}

/// A push followed by a pop with the same mode setting returns exactly the
/// pushed value and restores the register file (the stack pointer included),
/// provided the value fits the mode's stack-entry width, the stack pointer
/// has room for the entry above the bottom of its wrap space, and the stack
/// bytes land in writable memory.
pub proof fn lemma_push_pop_roundtrip<M: Machine>(
    s0: State,
    m0: M,
    s1: State,
    m1: M,
    value: u32,
)
    requires
        push_mem(s0, m0, m1, value),
        s1 == (State { reg: pushed_reg(s0), ..s0 }),
        s0.op_long ==> value < 0x100_0000 && s0.sp_spec() >= 3,
        !s0.op_long ==> value < 0x10000 && s0.reg.sps >= 2,
        m0.writable(sub32(s0.sp_spec(), 1)),
        m0.writable(sub32(s0.sp_spec(), 2)),
        s0.op_long ==> m0.writable(sub32(s0.sp_spec(), 3)),
    ensures
        pop_value_spec(s1, m1) == value,
        popped_reg(s1) == s0.reg,
{
    if s0.op_long {
        lemma_push_pop_roundtrip_long(s0, m0, s1, m1, value);
    } else {
        lemma_push_pop_roundtrip_short(s0, m0, s1, m1, value);
    }
}

#[verifier::rlimit(100)]
proof fn lemma_push_pop_roundtrip_long<M: Machine>(s0: State, m0: M, s1: State, m1: M, value: u32)
    requires
        s0.op_long,
        push_mem(s0, m0, m1, value),
        s1 == (State { reg: pushed_reg(s0), ..s0 }),
        value < 0x100_0000,
        s0.sp_spec() >= 3,
        m0.writable(sub32(s0.sp_spec(), 1)),
        m0.writable(sub32(s0.sp_spec(), 2)),
        m0.writable(sub32(s0.sp_spec(), 3)),
    ensures
        pop_value_spec(s1, m1) == value,
        popped_reg(s1) == s0.reg,
{
    let sp0 = s0.sp_spec();
    let m32 = 0x1_0000_0000int;
    assert(sp0 < 0x100_0000);
    lemma_small_mod((sp0 - 1) as nat, m32 as nat);
    lemma_small_mod((sp0 - 2) as nat, m32 as nat);
    lemma_small_mod((sp0 - 3) as nat, m32 as nat);
    let al = (sp0 - 3) as u32;
    lemma_word24_bytes(
        (al / 0x10000 % 0x100) as u8,
        (al / 0x100 % 0x100) as u8,
        (al % 0x100) as u8,
    );
    lemma_bytes_word24(al);
    // the stack pointer after the push reads back as `al`
    assert(s1.sp_spec() == al);
    lemma_small_mod((sp0 - 2) as nat, 0x100_0000nat);
    lemma_small_mod((sp0 - 1) as nat, 0x100_0000nat);
    lemma_small_mod(sp0 as nat, 0x100_0000nat);
    // the three reads return the three pushed bytes
    assert(wrap_address_spec(true, al, 1) == sp0 - 2);
    assert(wrap_address_spec(true, al, 2) == sp0 - 1);
    assert(wrap_address_spec(true, al, 3) == sp0);
    lemma_bytes_word24(value);
    assert(pop_value_spec(s1, m1) == value);
    // the pop writes the original stack pointer back
    lemma_bytes_word24(sp0 as u32);
    assert(popped_reg(s1) =~= s0.reg);
}

#[verifier::rlimit(100)]
proof fn lemma_push_pop_roundtrip_short<M: Machine>(s0: State, m0: M, s1: State, m1: M, value: u32)
    requires
        !s0.op_long,
        push_mem(s0, m0, m1, value),
        s1 == (State { reg: pushed_reg(s0), ..s0 }),
        value < 0x10000,
        s0.reg.sps >= 2,
        m0.writable(sub32(s0.sp_spec(), 1)),
        m0.writable(sub32(s0.sp_spec(), 2)),
    ensures
        pop_value_spec(s1, m1) == value,
        popped_reg(s1) == s0.reg,
{
    let sp0 = s0.sp_spec();
    let m32 = 0x1_0000_0000int;
    let sps = s0.reg.sps;
    let base = s0.reg.mbase * 0x10000;
    assert(sp0 == base + sps);
    lemma_small_mod((sp0 - 1) as nat, m32 as nat);
    lemma_small_mod((sp0 - 2) as nat, m32 as nat);
    let al = (sp0 - 2) as u32;
    let ah = (sp0 - 1) as u32;
    // low 16 bits and bank of the pushed addresses
    lemma_fundamental_div_mod_converse(al as int, 0x10000, s0.reg.mbase as int, sps - 2);
    lemma_fundamental_div_mod_converse(ah as int, 0x10000, s0.reg.mbase as int, sps - 1);
    lemma_small_mod(s0.reg.mbase as nat, 0x100);
    lemma_bytes_word16((sps - 2) as u32);
    // the stack pointer after the push reads back as `al`
    assert(s1.reg.sps == sps - 2);
    assert(s1.sp_spec() == al);
    // the two reads return the two pushed bytes
    lemma_small_mod((sps - 1) as nat, 0x10000nat);
    lemma_small_mod(sps as nat, 0x10000nat);
    assert(wrap_address_spec(false, al, 1) == ah);
    lemma_bytes_word16(value);
    assert(pop_value_spec(s1, m1) == value);
    // the pop writes the original stack pointer back
    assert(wrap_address_spec(false, al, 2) % 0x10000 == sps);
    assert(popped_reg(s1) =~= s0.reg);
}

/// Offsets added to wrapped addresses compose: stepping by `i` and then by
/// `j` is stepping by `i + j`, in either mode.
pub proof fn lemma_wrap_compose(op_long: bool, a: u32, i: int, j: int)
    requires
        0 <= i,
        0 <= j < 0x10000,
    ensures
        wrap_address_spec(op_long, wrap_address_spec(op_long, a, i), j) == wrap_address_spec(
            op_long,
            a,
            i + j,
        ),
{
    if op_long {
        let m = 0x100_0000int;
        lemma_add_mod_noop(a + i, j, m);
        lemma_small_mod(j as nat, m as nat);
        assert((a + i) % m + j % m == (wrap_address_spec(true, a, i) + j) as int);
    } else {
        let m = 0x10000int;
        let bank = a / 0x10000 % 0x100;
        let w1 = wrap_address_spec(false, a, i);
        assert(0 <= (a % 0x10000 + i) % m < m);
        lemma_fundamental_div_mod_converse(
            w1 as int,
            0x10000,
            bank as int,
            (a % 0x10000 + i) % m,
        );
        lemma_small_mod(bank as nat, 0x100);
        lemma_add_mod_noop(a % 0x10000 + i, j, m);
        lemma_small_mod(j as nat, m as nat);
    }
}

/// The execution environment itself: the processor state together with the
/// memory/IO capability, bundled for the duration of one operation.
pub struct Environment<M: Machine> {
    pub state: State,
    pub sys: M,
}

impl<M: Machine> Environment<M> {
    pub fn new(state: State, sys: M) -> (e: Environment<M>)
        ensures
            e.state == state,
            e.sys == sys,
    {
        Environment { state, sys }
    }

    /// Takes the bundle apart again, handing back the state and the machine.
    pub fn into_parts(self) -> (parts: (State, M))
        ensures
            parts.0 == self.state,
            parts.1 == self.sys,
    {
        let Environment { state, sys } = self;
        (state, sys)
    }

    /// Advances `address` by `increment` with mode-aware wrapping: across
    /// the 24-bit space in long mode, within the low 16 bits (bank
    /// preserved) in short mode.
    pub fn wrap_address(&self, address: u32, increment: i32) -> (r: u32)
        ensures
            r == wrap_address_spec(self.state.op_long, address, increment as int),
    {
        let inc: u32 = if increment >= 0 {
            increment as u32
        } else {
            ((increment as i64) + 0x1_0000_0000i64) as u32
        };
        proof {
            if increment < 0 {
                assert(0x1_0000_0000int == 0x100_0000int * 0x100int) by (nonlinear_arith);
                vstd::arithmetic::div_mod::lemma_mod_multiples_vanish(
                    0x100int,
                    address + increment,
                    0x100_0000int,
                );
                lemma_mod_add_multiples_vanish(address % 0x10000 + increment, 0x10000int);
                assert(0x1_0000_0000int == 0x10000int * 0x10000int) by (nonlinear_arith);
                vstd::arithmetic::div_mod::lemma_mod_multiples_vanish(
                    0x10000int,
                    address % 0x10000 + increment,
                    0x10000int,
                );
            }
        }
        if self.state.is_op_long() {
            let r: u32 = (((address as u64) + (inc as u64)) % 0x100_0000u64) as u32;
            r
        } else {
            let low: u32 = (((address % 0x10000) as u64 + inc as u64) % 0x10000u64) as u32;
            (address / 0x10000 % 0x100) * 0x10000 + low
        }
    }

    /// Returns the memory contents at `address`.
    pub fn peek(&self, address: u32) -> (value: u8)
        requires
            self.sys.inv(),
        ensures
            value == self.sys.peek_spec(address),
    {
        self.sys.peek(address)
    }

    /// Sets the memory content to `value` at `address`.
    pub fn poke(&mut self, address: u32, value: u8)
        requires
            old(self).sys.inv(),
        ensures
            final(self).sys.inv(),
            poked(old(self).sys, final(self).sys, address, value),
            final(self).sys.io_view() == old(self).sys.io_view(),
            final(self).state == old(self).state,
    {
        self.sys.poke(address, value);
    }

    /// Returns the memory contents at `address` as a 16-bit word.
    pub fn peek16(&self, address: u32) -> (value: u16)
        requires
            self.sys.inv(),
        ensures
            value == peek16_spec(self.sys, self.state.op_long, address),
    {
        let l = self.sys.peek(address);
        let h = self.sys.peek(self.wrap_address(address, 1));
        l as u16 + h as u16 * 0x100
    }

    /// Sets the memory content to the 16-bit word `value` at `address`,
    /// least-significant byte first.
    pub fn poke16(&mut self, address: u32, value: u16)
        requires
            old(self).sys.inv(),
        ensures
            final(self).sys.inv(),
            poked2(
                old(self).sys,
                final(self).sys,
                address,
                byte0(value as u32),
                wrap_address_spec(old(self).state.op_long, address, 1),
                byte1(value as u32),
            ),
            final(self).sys.io_view() == old(self).sys.io_view(),
            final(self).state == old(self).state,
    {
        let w1 = self.wrap_address(address, 1);
        self.sys.poke(address, (value % 0x100) as u8);
        self.sys.poke(w1, (value / 0x100) as u8);
    }

    /// Returns the memory contents at `address` as a 24-bit word.
    pub fn peek24(&self, address: u32) -> (value: u32)
        requires
            self.sys.inv(),
        ensures
            value == peek24_spec(self.sys, self.state.op_long, address),
    {
        let l = self.sys.peek(address);
        let h = self.sys.peek(self.wrap_address(address, 1));
        let u = self.sys.peek(self.wrap_address(address, 2));
        l as u32 + h as u32 * 0x100 + u as u32 * 0x10000
    }

    /// Sets the memory content to the 24-bit word `value` at `address`,
    /// least-significant byte first.
    pub fn poke24(&mut self, address: u32, value: u32)
        requires
            old(self).sys.inv(),
        ensures
            final(self).sys.inv(),
            poked3(
                old(self).sys,
                final(self).sys,
                address,
                byte0(value),
                wrap_address_spec(old(self).state.op_long, address, 1),
                byte1(value),
                wrap_address_spec(old(self).state.op_long, address, 2),
                byte2(value),
            ),
            final(self).sys.io_view() == old(self).sys.io_view(),
            final(self).state == old(self).state,
    {
        let w1 = self.wrap_address(address, 1);
        let w2 = self.wrap_address(address, 2);
        self.sys.poke(address, (value % 0x100) as u8);
        self.sys.poke(w1, (value / 0x100 % 0x100) as u8);
        self.sys.poke(w2, (value / 0x10000 % 0x100) as u8);
    }

    /// Returns the byte at the program counter without advancing it.
    pub fn peek_pc(&self) -> (value: u8)
        requires
            self.sys.inv(),
        ensures
            value == self.sys.peek_spec(self.state.pc),
    {
        let pc = self.state.pc();
        self.sys.peek(pc)
    }

    /// Returns the byte at the program counter and advances it by one.
    pub fn advance_pc(&mut self) -> (value: u8)
        requires
            old(self).sys.inv(),
        ensures
            final(self).sys == old(self).sys,
            value == old(self).sys.peek_spec(old(self).state.pc),
            final(self).state == (State { pc: add32(old(self).state.pc, 1), ..old(self).state }),
    {
        let pc = self.state.pc();
        let value = self.sys.peek(pc);
        let next: u32 = if pc == 0xffff_ffffu32 {
            0
        } else {
            pc + 1
        };
        proof {
            if pc == 0xffff_ffffu32 {
                vstd::arithmetic::div_mod::lemma_mod_self_0(0x1_0000_0000int);
            }
        }
        self.state.set_pc(next);
        value
    }

    /// Returns the 16-bit word at the program counter without advancing it.
    pub fn peek16_pc(&self) -> (value: u16)
        requires
            self.sys.inv(),
        ensures
            value == peek16_spec(self.sys, self.state.op_long, self.state.pc),
    {
        let pc = self.state.pc();
        self.peek16(pc)
    }

    /// Fetches a 16-bit immediate at the program counter, advancing it by
    /// two.
    pub fn advance_immediate16(&mut self) -> (value: u16)
        requires
            old(self).sys.inv(),
        ensures
            final(self).sys == old(self).sys,
            value as u32 == imm16_spec(old(self).sys, old(self).state.pc),
            final(self).state == (State { pc: add32(old(self).state.pc, 2), ..old(self).state }),
    {
        proof {
            lemma_add32_compose(old(self).state.pc, 1, 1);
        }
        let mut value: u16 = self.advance_pc() as u16;
        value += (self.advance_pc() as u16) * 0x100;
        value
    }

    /// Fetches a 24-bit immediate at the program counter, advancing it by
    /// three.
    pub fn advance_immediate24(&mut self) -> (value: u32)
        requires
            old(self).sys.inv(),
        ensures
            final(self).sys == old(self).sys,
            value == imm24_spec(old(self).sys, old(self).state.pc),
            final(self).state == (State { pc: add32(old(self).state.pc, 3), ..old(self).state }),
    {
        proof {
            lemma_add32_compose(old(self).state.pc, 1, 1);
            lemma_add32_compose(old(self).state.pc, 2, 1);
        }
        let mut value: u32 = self.advance_pc() as u32;
        value += (self.advance_pc() as u32) * 0x100;
        value += (self.advance_pc() as u32) * 0x10000;
        value
    }

    /// Fetches an immediate whose width follows the "immediate is long"
    /// flag: 24 bits in long mode, 16 bits otherwise.
    pub fn advance_immediate16or24(&mut self) -> (value: u32)
        requires
            old(self).sys.inv(),
        ensures
            final(self).sys == old(self).sys,
            value == (if old(self).state.imm_long {
                imm24_spec(old(self).sys, old(self).state.pc)
            } else {
                imm16_spec(old(self).sys, old(self).state.pc)
            }),
            final(self).state == (State {
                pc: add32(old(self).state.pc, if old(self).state.imm_long { 3int } else { 2int }),
                ..old(self).state
            }),
    {
        if self.state.is_imm_long() {
            self.advance_immediate24()
        } else {
            self.advance_immediate16() as u32
        }
    }

    /// Fetches an address-sized immediate: a full 24-bit immediate in long
    /// mode, otherwise a 16-bit immediate relocated by the bank base into a
    /// full 24-bit address.
    pub fn advance_immediate_16mbase_or_24(&mut self) -> (value: u32)
        requires
            old(self).sys.inv(),
        ensures
            final(self).sys == old(self).sys,
            value == (if old(self).state.imm_long {
                imm24_spec(old(self).sys, old(self).state.pc)
            } else {
                (old(self).state.reg.mbase * 0x10000 + imm16_spec(old(self).sys, old(self).state.pc)) as u32
            }),
            final(self).state == (State {
                pc: add32(old(self).state.pc, if old(self).state.imm_long { 3int } else { 2int }),
                ..old(self).state
            }),
    {
        if self.state.is_imm_long() {
            self.advance_immediate24()
        } else {
            let base: u32 = (self.state.reg.mbase as u32) * 0x10000;
            base + self.advance_immediate16() as u32
        }
    }

    /// Pushes one stack entry: 16 bits of `value` in short mode, 24 bits in
    /// long mode, written toward the decremented stack pointer, which is
    /// then stored back at the mode's width.
    pub fn push(&mut self, value: u32)
        requires
            old(self).sys.inv(),
        ensures
            final(self).sys.inv(),
            push_mem(old(self).state, old(self).sys, final(self).sys, value),
            final(self).sys.io_view() == old(self).sys.io_view(),
            final(self).state == (State { reg: pushed_reg(old(self).state), ..old(self).state }),
    {
        let mut sp = self.state.sp();
        proof {
            lemma_sub32_compose(old(self).state.sp_spec(), 1, 1);
            lemma_sub32_compose(old(self).state.sp_spec(), 2, 1);
        }

        let u: u8 = (value / 0x10000 % 0x100) as u8;
        let h: u8 = (value / 0x100 % 0x100) as u8;
        let l: u8 = (value % 0x100) as u8;

        if self.state.is_op_long() {
            sp = dec_wrap(sp);
            self.sys.poke(sp, u);
        }

        sp = dec_wrap(sp);
        self.sys.poke(sp, h);

        sp = dec_wrap(sp);
        self.sys.poke(sp, l);

        if self.state.is_op_long() {
            self.state.reg.set24(Reg16::SP, sp);
        } else {
            self.state.reg.set16(Reg16::SP, (sp % 0x10000) as u16);
        }
    }

    /// Pops one stack entry: read low-to-high with mode-aware increments;
    /// the stack pointer is stored back at the mode's width.
    pub fn pop(&mut self) -> (value: u32)
        requires
            old(self).sys.inv(),
        ensures
            final(self).sys == old(self).sys,
            value == pop_value_spec(old(self).state, old(self).sys),
            final(self).state == (State { reg: popped_reg(old(self).state), ..old(self).state }),
    {
        let mut sp = self.state.sp();
        proof {
            lemma_wrap_compose(old(self).state.op_long, old(self).state.sp_spec(), 1, 1);
            lemma_wrap_compose(old(self).state.op_long, old(self).state.sp_spec(), 2, 1);
        }

        let mut u: u8 = 0;

        let l = self.sys.peek(sp);
        sp = self.wrap_address(sp, 1);

        let h = self.sys.peek(sp);
        sp = self.wrap_address(sp, 1);

        if self.state.is_op_long() {
            u = self.sys.peek(sp);
            sp = self.wrap_address(sp, 1);
        }

        if self.state.is_op_long() {
            self.state.reg.set24(Reg16::SP, sp);
        } else {
            self.state.reg.set16(Reg16::SP, (sp % 0x10000) as u16);
        }
        l as u32 + (h as u32) * 0x100 + (u as u32) * 0x10000
    }

    /// Pushes the program counter and jumps to `address`.
    pub fn subroutine_call(&mut self, address: u32)
        requires
            old(self).sys.inv(),
        ensures
            final(self).sys.inv(),
            push_mem(old(self).state, old(self).sys, final(self).sys, old(self).state.pc),
            final(self).sys.io_view() == old(self).sys.io_view(),
            final(self).state == (State {
                pc: address,
                reg: pushed_reg(old(self).state),
                ..old(self).state
            }),
    {
        let pc = self.state.pc();
        self.push(pc);
        self.state.set_pc(address);
    }

    /// Pops a return address into the program counter.  A popped address of
    /// exactly zero signals a corrupted stack and is excluded here; use
    /// [`Self::try_subroutine_return`] when the stack is not trusted.
    pub fn subroutine_return(&mut self)
        requires
            old(self).sys.inv(),
            pop_value_spec(old(self).state, old(self).sys) != 0,
        ensures
            final(self).sys == old(self).sys,
            final(self).state == (State {
                pc: pop_value_spec(old(self).state, old(self).sys),
                reg: popped_reg(old(self).state),
                ..old(self).state
            }),
    {
        let pc = self.pop();
        self.state.set_pc(pc);
    }

    /// Pops a return address; jumps to it when it is not zero and reports
    /// `false` otherwise (a popped zero can only come from a corrupted
    /// stack, and the embedding application is expected to stop).
    pub fn try_subroutine_return(&mut self) -> (ok: bool)
        requires
            old(self).sys.inv(),
        ensures
            final(self).sys == old(self).sys,
            ok == (pop_value_spec(old(self).state, old(self).sys) != 0),
            final(self).state == (State {
                pc: if ok {
                    pop_value_spec(old(self).state, old(self).sys)
                } else {
                    old(self).state.pc
                },
                reg: popped_reg(old(self).state),
                ..old(self).state
            }),
    {
        let pc = self.pop();
        if pc == 0 {
            return false;
        }
        self.state.set_pc(pc);
        true
    }

    /// Delivers an asynchronous event: an implicit subroutine call to the
    /// interrupt vector.
    pub fn interrupt(&mut self, address: u32)
        requires
            old(self).sys.inv(),
        ensures
            final(self).sys.inv(),
            push_mem(old(self).state, old(self).sys, final(self).sys, old(self).state.pc),
            final(self).sys.io_view() == old(self).sys.io_view(),
            final(self).state == (State {
                pc: address,
                reg: pushed_reg(old(self).state),
                ..old(self).state
            }),
    {
        self.subroutine_call(address);
    }

    /// Selects an alternate index register for the current instruction.
    pub fn set_index(&mut self, index: Reg16)
        ensures
            final(self).sys == old(self).sys,
            final(self).state == (State { index, ..old(self).state }),
    {
        self.state.index = index;
    }

    /// Restores the default index register.
    pub fn clear_index(&mut self)
        ensures
            final(self).sys == old(self).sys,
            final(self).state == (State { index: Reg16::HL, ..old(self).state }),
    {
        self.state.index = Reg16::HL;
    }

    pub fn get_index(&self) -> (index: Reg16)
        ensures
            index == self.state.index,
    {
        self.state.index
    }

    /// Whether an alternate index register is currently selected.
    pub fn is_alt_index(&self) -> (alt: bool)
        ensures
            alt == (self.state.index != Reg16::HL),
    {
        match self.state.index {
            Reg16::HL => false,
            _ => true,
        }
    }

    /// Fetches the signed one-byte displacement that indexed instructions
    /// carry after their opcode, and stores it as pending.
    pub fn load_displacement(&mut self)
        requires
            old(self).sys.inv(),
        ensures
            final(self).sys == old(self).sys,
            final(self).state == (State {
                displacement: as_i8(old(self).sys.peek_spec(old(self).state.pc)),
                pc: add32(old(self).state.pc, 1),
                ..old(self).state
            }),
    {
        let b = self.advance_pc();
        let d: i8 = if b < 128 {
            b as i8
        } else {
            (b as i16 - 256) as i8
        };
        self.state.displacement = d;
    }

    /// The value of the current index register at the width the operand
    /// mode gives it.
    pub fn index_value(&self) -> (value: u32)
        ensures
            value == (if self.state.op_long {
                self.state.reg.get24_spec(self.state.index)
            } else {
                self.state.reg.get16_mbase_spec(self.state.index)
            }),
    {
        if self.state.is_op_long() {
            self.state.reg.get24(self.state.index)
        } else {
            self.state.reg.get16_mbase(self.state.index)
        }
    }

    /// The effective address of the pseudo-register addressing mode: the
    /// current index register's pointer at the width the operand mode gives
    /// it, plus the pending signed displacement when an alternate index is
    /// active.
    pub fn index_address(&self) -> (address: u32)
        ensures
            address == index_address_spec(self.state),
    {
        let address: u32 = if self.state.is_op_long() {
            self.state.reg.get24(self.state.index)
        } else {
            self.state.reg.get16_mbase(self.state.index)
        };
        if self.is_alt_index() {
            let d = self.state.displacement;
            if d >= 0 {
                address + d as u32
            } else {
                let m: u32 = (-(d as i32)) as u32;
                proof {
                    if address < m {
                        lemma_mod_add_multiples_vanish(address - m, 0x1_0000_0000int);
                        lemma_small_mod(
                            (address - m + 0x1_0000_0000int) as nat,
                            0x1_0000_0000nat,
                        );
                    } else {
                        lemma_small_mod((address - m) as nat, 0x1_0000_0000nat);
                    }
                }
                if address >= m {
                    address - m
                } else {
                    (0x1_0000_0000u64 - (m - address) as u64) as u32
                }
            }
        } else {
            proof {
                lemma_small_mod(address as nat, 0x1_0000_0000nat);
            }
            address
        }
    }

    /// Reads a logical 8-bit register with index translation: the halves of
    /// the default pair are substituted by the halves of the selected index,
    /// and the pseudo register reads memory at the effective index address.
    pub fn reg8_ext(&self, reg: Reg8) -> (value: u8)
        requires
            self.sys.inv(),
        ensures
            value == (if reg == Reg8::_HL {
                self.sys.peek_spec(index_address_spec(self.state))
            } else {
                self.state.reg.get8_spec(translate_reg_spec(self.state.index, reg))
            }),
    {
        if matches!(reg, Reg8::_HL) {
            self.sys.peek(self.index_address())
        } else {
            self.state.reg.get8(self.translate_reg(reg))
        }
    }

    /// The value of a register pair at the width the operand mode gives it,
    /// bank-relocated in short mode, without index substitution.
    pub fn reg16mbase_or_24(&mut self, rr: Reg16) -> (value: u32)
        ensures
            *final(self) == *old(self),
            value == (if old(self).state.op_long {
                old(self).state.reg.get24_spec(rr)
            } else {
                old(self).state.reg.get16_mbase_spec(rr)
            }),
    {
        if self.state.is_op_long() {
            self.state.reg.get24(rr)
        } else {
            self.state.reg.get16_mbase(rr)
        }
    }

    /// Reads a register pair at the width the operand mode gives it.  The
    /// default pair is substituted by the current index; the
    /// accumulator/flags pair is always 16 bits wide.
    pub fn reg16or24_ext(&self, rr: Reg16) -> (value: u32)
        ensures
            value == reg16or24_spec(self.state, rr),
    {
        if self.state.is_op_long() {
            if matches!(rr, Reg16::HL) {
                self.state.reg.get24(self.state.index)
            } else if matches!(rr, Reg16::AF) {
                self.state.reg.get16(rr) as u32
            } else {
                self.state.reg.get24(rr)
            }
        } else {
            if matches!(rr, Reg16::HL) {
                self.state.reg.get16(self.state.index) as u32
            } else {
                self.state.reg.get16(rr) as u32
            }
        }
    }

    /// Writes a logical 8-bit register with index translation; the pseudo
    /// register writes memory at the effective index address.
    pub fn set_reg(&mut self, reg: Reg8, value: u8)
        requires
            old(self).sys.inv(),
        ensures
            final(self).sys.inv(),
            final(self).sys.io_view() == old(self).sys.io_view(),
            if reg == Reg8::_HL {
                &&& poked(
                    old(self).sys,
                    final(self).sys,
                    index_address_spec(old(self).state),
                    value,
                )
                &&& final(self).state == old(self).state
            } else {
                &&& final(self).sys == old(self).sys
                &&& final(self).state == (State {
                    reg: old(self).state.reg.set8_spec(
                        translate_reg_spec(old(self).state.index, reg),
                        value,
                    ),
                    ..old(self).state
                })
            },
    {
        if matches!(reg, Reg8::_HL) {
            let address = self.index_address();
            self.sys.poke(address, value);
        } else {
            let translated = self.translate_reg(reg);
            self.state.reg.set8(translated, value);
        }
    }

    /// Writes a register pair at the width the operand mode gives it: the
    /// low 16 bits of `value` in short mode, 24 bits in long mode.
    pub fn set_reg16or24(&mut self, rr: Reg16, value: u32)
        ensures
            final(self).sys == old(self).sys,
            final(self).state == (State {
                reg: if old(self).state.op_long {
                    old(self).state.reg.set24_spec(
                        effective_reg16(old(self).state.index, rr),
                        value,
                    )
                } else {
                    old(self).state.reg.set16_spec(
                        effective_reg16(old(self).state.index, rr),
                        (value % 0x10000) as u16,
                    )
                },
                ..old(self).state
            }),
    {
        if self.state.is_op_long() {
            self.set_reg24(rr, value);
        } else {
            self.set_reg16(rr, (value % 0x10000) as u16);
        }
    }

    /// Writes the 16-bit form of a pair; the default pair is substituted by
    /// the current index.
    pub fn set_reg16(&mut self, rr: Reg16, value: u16)
        ensures
            final(self).sys == old(self).sys,
            final(self).state == (State {
                reg: old(self).state.reg.set16_spec(
                    effective_reg16(old(self).state.index, rr),
                    value,
                ),
                ..old(self).state
            }),
    {
        if matches!(rr, Reg16::HL) {
            let index = self.state.index;
            self.state.reg.set16(index, value);
        } else {
            self.state.reg.set16(rr, value);
        }
    }

    /// Writes the 24-bit form of a pair; the default pair is substituted by
    /// the current index.
    pub fn set_reg24(&mut self, rr: Reg16, value: u32)
        ensures
            final(self).sys == old(self).sys,
            final(self).state == (State {
                reg: old(self).state.reg.set24_spec(
                    effective_reg16(old(self).state.index, rr),
                    value,
                ),
                ..old(self).state
            }),
    {
        if matches!(rr, Reg16::HL) {
            let index = self.state.index;
            self.state.reg.set24(index, value);
        } else {
            self.state.reg.set24(rr, value);
        }
    }

    /// A human-readable name of the current indexed operand: the plain pair
    /// name, or the alternate index with its signed displacement.
    pub fn index_description(&self) -> (r: String)
        ensures
            r@ == index_description_spec(self.state),
    {
        if matches!(self.state.index, Reg16::HL) {
            proof {
                reveal_strlit("HL");
            }
            let r = String::from_str("HL");
            assert(r@ =~= index_description_spec(self.state));
            r
        } else {
            let mut r = String::from_str(reg16_name(self.state.index));
            let d = self.state.displacement;
            let n: u32 = if d >= 0 {
                r.append("+");
                proof {
                    reveal_strlit("+");
                }
                d as u32
            } else {
                r.append("-");
                proof {
                    reveal_strlit("-");
                }
                (-(d as i32)) as u32
            };
            if n >= 100 {
                r.append(digit_str(n / 100));
            }
            if n >= 10 {
                r.append(digit_str(n / 10 % 10));
            }
            r.append(digit_str(n % 10));
            proof {
                reveal_with_fuel(dec_str, 4);
                if n >= 100 {
                    vstd::arithmetic::div_mod::lemma_div_denominator(n as int, 10, 10);
                } else {
                    lemma_small_mod((n / 10) as nat, 10);
                }
            }
            assert(r@ =~= index_description_spec(self.state));
            r
        }
    }

    /// Index translation for the two 8-bit halves of the default pair.
    fn translate_reg(&self, reg: Reg8) -> (r: Reg8)
        ensures
            r == translate_reg_spec(self.state.index, reg),
    {
        match self.state.index {
            Reg16::IX => match reg {
                Reg8::H => Reg8::IXH,
                Reg8::L => Reg8::IXL,
                _ => reg,
            },
            Reg16::IY => match reg {
                Reg8::H => Reg8::IYH,
                Reg8::L => Reg8::IYL,
                _ => reg,
            },
            _ => reg,
        }
    }

    /// Reads a byte from the port space.
    pub fn port_in(&mut self, address: u16) -> (value: u8)
        requires
            old(self).sys.inv(),
        ensures
            final(self).sys.inv(),
            mem_unchanged(old(self).sys, final(self).sys),
            final(self).state == old(self).state,
    {
        self.sys.port_in(address)
    }

    /// Writes a byte to the port space.
    pub fn port_out(&mut self, address: u16, value: u8)
        requires
            old(self).sys.inv(),
        ensures
            final(self).sys.inv(),
            mem_unchanged(old(self).sys, final(self).sys),
            final(self).state == old(self).state,
    {
        self.sys.port_out(address, value);
    }
}

/// The decimal digit characters.
pub open spec fn digit_char(d: nat) -> char {
    if d == 0 {
        '0'
    } else if d == 1 {
        '1'
    } else if d == 2 {
        '2'
    } else if d == 3 {
        '3'
    } else if d == 4 {
        '4'
    } else if d == 5 {
        '5'
    } else if d == 6 {
        '6'
    } else if d == 7 {
        '7'
    } else if d == 8 {
        '8'
    } else {
        '9'
    }
}

/// The decimal digits of `n`, most significant first.
pub open spec fn dec_str(n: nat) -> Seq<char>
    decreases n,
{
    if n < 10 {
        seq![digit_char(n)]
    } else {
        dec_str(n / 10) + seq![digit_char(n % 10)]
    }
}

/// The conventional two-letter name of a register pair.
pub open spec fn reg16_name_chars(rr: Reg16) -> Seq<char> {
    match rr {
        Reg16::AF => seq!['A', 'F'],
        Reg16::BC => seq!['B', 'C'],
        Reg16::DE => seq!['D', 'E'],
        Reg16::HL => seq!['H', 'L'],
        Reg16::IX => seq!['I', 'X'],
        Reg16::IY => seq!['I', 'Y'],
        Reg16::SP => seq!['S', 'P'],
    }
}

/// The text `index_description` returns: the plain pair name when no
/// alternate index is selected, else the index's name, the displacement's
/// sign and its decimal digits.
pub open spec fn index_description_spec(s: State) -> Seq<char> {
    if s.index == Reg16::HL {
        seq!['H', 'L']
    } else {
        let n = if s.displacement >= 0 {
            s.displacement as nat
        } else {
            (-(s.displacement as int)) as nat
        };
        reg16_name_chars(s.index) + (if s.displacement >= 0 {
            seq!['+']
        } else {
            seq!['-']
        }) + dec_str(n)
    }
}

/// The two-letter name of a register pair.
fn reg16_name(rr: Reg16) -> (r: &'static str)
    ensures
        r@ == reg16_name_chars(rr),
{
    proof {
        reveal_strlit("AF");
        reveal_strlit("BC");
        reveal_strlit("DE");
        reveal_strlit("HL");
        reveal_strlit("IX");
        reveal_strlit("IY");
        reveal_strlit("SP");
    }
    let r: &'static str = match rr {
        Reg16::AF => "AF",
        Reg16::BC => "BC",
        Reg16::DE => "DE",
        Reg16::HL => "HL",
        Reg16::IX => "IX",
        Reg16::IY => "IY",
        Reg16::SP => "SP",
    };
    proof {
        assert(r@ =~= reg16_name_chars(rr));
    }
    r
}

/// One decimal digit as text.
fn digit_str(d: u32) -> (r: &'static str)
    requires
        d < 10,
    ensures
        r@ == seq![digit_char(d as nat)],
{
    proof {
        reveal_strlit("0");
        reveal_strlit("1");
        reveal_strlit("2");
        reveal_strlit("3");
        reveal_strlit("4");
        reveal_strlit("5");
        reveal_strlit("6");
        reveal_strlit("7");
        reveal_strlit("8");
        reveal_strlit("9");
    }
    let r: &'static str = match d {
        0 => "0",
        1 => "1",
        2 => "2",
        3 => "3",
        4 => "4",
        5 => "5",
        6 => "6",
        7 => "7",
        8 => "8",
        _ => "9",
    };
    proof {
        assert(r@ =~= seq![digit_char(d as nat)]);
    }
    r
}

/// 32-bit wrapping decrement.
fn dec_wrap(a: u32) -> (r: u32)
    ensures
        r == sub32(a, 1),
{
    proof {
        if a == 0 {
            lemma_mod_add_multiples_vanish(-1int, 0x1_0000_0000int);
            lemma_small_mod(0xffff_ffffnat, 0x1_0000_0000nat);
        } else {
            lemma_small_mod((a - 1) as nat, 0x1_0000_0000nat);
        }
    }
    if a == 0 {
        0xffff_ffffu32
    } else {
        a - 1
    }
}

/// Wrapping increments compose: `add32(add32(a, i), j) == add32(a, i + j)`
/// for nonnegative offsets.
pub proof fn lemma_add32_compose(a: u32, i: int, j: int)
    requires
        0 <= i,
        0 <= j < 0x1_0000_0000,
    ensures
        add32(add32(a, i), j) == add32(a, i + j),
{
    let m = 0x1_0000_0000int;
    lemma_add_mod_noop(a + i, j, m);
    lemma_small_mod(j as nat, m as nat);
}

/// Wrapping decrements compose: `sub32(sub32(a, i), j) == sub32(a, i + j)`
/// for nonnegative offsets.
pub proof fn lemma_sub32_compose(a: u32, i: int, j: int)
    requires
        0 <= i,
        0 <= j < 0x1_0000_0000,
    ensures
        sub32(sub32(a, i), j) == sub32(a, i + j),
{
    let m = 0x1_0000_0000int;
    lemma_add_mod_noop(a - i, -j, m);
    assert((-j) % m == m - j || (-j) % m == 0) by {
        if j == 0 {
            lemma_small_mod(0nat, m as nat);
        } else {
            lemma_mod_add_multiples_vanish(-j, m);
            lemma_small_mod((m - j) as nat, m as nat);
        }
    }
    if j != 0 {
        lemma_mod_add_multiples_vanish(a - i - j, m);
        lemma_add_mod_noop(a - i, m - j, m);
        lemma_small_mod((m - j) as nat, m as nat);
    }
}

} // verus!
