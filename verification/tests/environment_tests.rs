use agon_core::agon_machine::AgonMachine;
use agon_core::environment::Environment;
use agon_core::registers::{Reg16, Reg8};
use agon_core::state::State;

fn fresh_env() -> Environment<AgonMachine> {
    Environment::new(State::new(), AgonMachine::new())
}

#[test]
fn wrap_address_short_mode_wraps_low16_and_keeps_bank() {
    let mut env = fresh_env();
    env.state.op_long = false;
    assert_eq!(env.wrap_address(0x01FFFF, 1), 0x010000);
    assert_eq!(env.wrap_address(0x01FFFE, 2), 0x010000);
    assert_eq!(env.wrap_address(0x012345, 1), 0x012346);
    assert_eq!(env.wrap_address(0x010000, -1), 0x01FFFF);
}

#[test]
fn wrap_address_long_mode_crosses_banks_and_wraps_at_24_bits() {
    let mut env = fresh_env();
    env.state.op_long = true;
    assert_eq!(env.wrap_address(0x01FFFF, 1), 0x020000);
    assert_eq!(env.wrap_address(0x012345, 2), 0x012347);
    // the increment wraps across the full 24-bit space
    assert_eq!(env.wrap_address(0xFFFFFF, 1), 0);
    assert_eq!(env.wrap_address(0, -1), 0xFFFFFF);
}

// The concrete case of the dual-width increment: a 16-bit write at the top
// of a bank stays within the bank in short mode and crosses into the next
// bank in long mode.
#[test]
fn poke16_wraps_within_bank_in_short_mode_only() {
    let mut env = fresh_env();
    env.state.op_long = false;
    env.poke16(0x8FFFF, 0xBBAA);
    assert_eq!(env.peek(0x8FFFF), 0xAA);
    assert_eq!(env.peek(0x80000), 0xBB);

    let mut env = fresh_env();
    env.state.op_long = true;
    env.poke16(0x8FFFF, 0xBBAA);
    assert_eq!(env.peek(0x8FFFF), 0xAA);
    assert_eq!(env.peek(0x90000), 0xBB);
}

#[test]
fn poke24_and_peek24_roundtrip() {
    let mut env = fresh_env();
    env.state.op_long = true;
    env.poke24(0x50000, 0xC102D8);
    assert_eq!(env.peek24(0x50000), 0xC102D8);
    assert_eq!(env.peek(0x50000), 0xD8);
    assert_eq!(env.peek(0x50001), 0x02);
    assert_eq!(env.peek(0x50002), 0xC1);
}

#[test]
fn push_pop_roundtrip_long_mode() {
    let mut env = fresh_env();
    env.state.op_long = true;
    env.state.reg.set24(Reg16::SP, 0x90000);
    env.push(0xABCDEF);
    assert_eq!(env.state.reg.get24(Reg16::SP), 0x8FFFD);
    let v = env.pop();
    assert_eq!(v, 0xABCDEF);
    assert_eq!(env.state.reg.get24(Reg16::SP), 0x90000);
}

#[test]
fn push_pop_roundtrip_short_mode() {
    let mut env = fresh_env();
    env.state.op_long = false;
    env.state.reg.mbase = 0x09;
    env.state.reg.set16(Reg16::SP, 0x8000);
    env.push(0x1234);
    assert_eq!(env.state.reg.get16(Reg16::SP), 0x7FFE);
    let v = env.pop();
    assert_eq!(v, 0x1234);
    assert_eq!(env.state.reg.get16(Reg16::SP), 0x8000);
    // the bytes went through the bank the bank-base register names
    env.push(0x5678);
    assert_eq!(env.peek(0x97FFE), 0x78);
    assert_eq!(env.peek(0x97FFF), 0x56);
}

#[test]
fn subroutine_call_and_return_restore_pc() {
    let mut env = fresh_env();
    env.state.op_long = true;
    env.state.reg.set24(Reg16::SP, 0x90000);
    env.state.set_pc(0x41234);
    env.subroutine_call(0x8000);
    assert_eq!(env.state.pc(), 0x8000);
    env.subroutine_return();
    assert_eq!(env.state.pc(), 0x41234);
    assert_eq!(env.state.reg.get24(Reg16::SP), 0x90000);
}

#[test]
fn try_subroutine_return_reports_zero_address() {
    let mut env = fresh_env();
    env.state.op_long = true;
    env.state.reg.set24(Reg16::SP, 0x90000);
    env.push(0);
    assert!(!env.try_subroutine_return());
    let mut env = fresh_env();
    env.state.op_long = true;
    env.state.reg.set24(Reg16::SP, 0x90000);
    env.push(0x1111);
    assert!(env.try_subroutine_return());
    assert_eq!(env.state.pc(), 0x1111);
}

#[test]
fn interrupt_is_an_implicit_call() {
    let mut env = fresh_env();
    env.state.op_long = true;
    env.state.reg.set24(Reg16::SP, 0x90000);
    env.state.set_pc(0x40100);
    env.interrupt(0x18);
    assert_eq!(env.state.pc(), 0x18);
    let back = env.pop();
    assert_eq!(back, 0x40100);
}

#[test]
fn advance_pc_and_immediates() {
    let mut env = fresh_env();
    env.state.op_long = true;
    env.poke(0x60000, 0x11);
    env.poke(0x60001, 0x22);
    env.poke(0x60002, 0x33);
    env.state.set_pc(0x60000);
    assert_eq!(env.peek_pc(), 0x11);
    assert_eq!(env.advance_pc(), 0x11);
    assert_eq!(env.state.pc(), 0x60001);

    env.state.set_pc(0x60000);
    assert_eq!(env.peek16_pc(), 0x2211);
    assert_eq!(env.advance_immediate16(), 0x2211);
    assert_eq!(env.state.pc(), 0x60002);

    env.state.set_pc(0x60000);
    assert_eq!(env.advance_immediate24(), 0x332211);
    assert_eq!(env.state.pc(), 0x60003);
}

#[test]
fn immediate_width_follows_imm_long_flag() {
    let mut env = fresh_env();
    env.poke(0x60000, 0x11);
    env.poke(0x60001, 0x22);
    env.poke(0x60002, 0x33);

    env.state.imm_long = true;
    env.state.set_pc(0x60000);
    assert_eq!(env.advance_immediate16or24(), 0x332211);

    env.state.imm_long = false;
    env.state.set_pc(0x60000);
    assert_eq!(env.advance_immediate16or24(), 0x2211);
}

#[test]
fn short_immediate_address_folds_in_bank_base() {
    let mut env = fresh_env();
    env.poke(0x60000, 0x11);
    env.poke(0x60001, 0x22);
    env.poke(0x60002, 0x33);
    env.state.reg.mbase = 0x07;

    env.state.imm_long = false;
    env.state.set_pc(0x60000);
    assert_eq!(env.advance_immediate_16mbase_or_24(), 0x072211);

    env.state.imm_long = true;
    env.state.set_pc(0x60000);
    assert_eq!(env.advance_immediate_16mbase_or_24(), 0x332211);
}

#[test]
fn index_selection_and_translation() {
    let mut env = fresh_env();
    assert_eq!(env.get_index(), Reg16::HL);
    assert!(!env.is_alt_index());
    env.set_index(Reg16::IX);
    assert_eq!(env.get_index(), Reg16::IX);
    assert!(env.is_alt_index());

    // H and L are substituted by the halves of the selected index
    env.state.reg.set16(Reg16::IX, 0xBEEF);
    assert_eq!(env.reg8_ext(Reg8::H), 0xBE);
    assert_eq!(env.reg8_ext(Reg8::L), 0xEF);
    env.set_reg(Reg8::H, 0x12);
    assert_eq!(env.state.reg.get16(Reg16::IX), 0x12EF);

    env.clear_index();
    assert_eq!(env.get_index(), Reg16::HL);
    env.state.reg.set16(Reg16::HL, 0x3456);
    assert_eq!(env.reg8_ext(Reg8::H), 0x34);
}

#[test]
fn index_address_applies_displacement_once_selected() {
    let mut env = fresh_env();
    // long mode: the full 24-bit pointer
    env.state.op_long = true;
    env.set_index(Reg16::IX);
    env.state.reg.set24(Reg16::IX, 0x50010);
    env.state.displacement = -0x10;
    assert_eq!(env.index_address(), 0x50000);
    env.state.displacement = 5;
    assert_eq!(env.index_address(), 0x50015);

    // short mode: the 16-bit pointer relocated by the bank base
    env.state.op_long = false;
    env.state.reg.mbase = 0x05;
    env.state.reg.set16(Reg16::IX, 0x0010);
    env.state.displacement = -0x10;
    assert_eq!(env.index_address(), 0x50000);

    // without an alternate index no displacement is applied
    env.state.op_long = true;
    env.clear_index();
    env.state.reg.set24(Reg16::HL, 0x50010);
    env.state.displacement = 5;
    assert_eq!(env.index_address(), 0x50010);
}

#[test]
fn pseudo_register_reads_memory_through_index() {
    let mut env = fresh_env();
    env.state.op_long = false;
    env.poke(0x70004, 0x99);
    env.set_index(Reg16::IY);
    env.state.reg.mbase = 0x07;
    env.state.reg.set16(Reg16::IY, 0x0000);
    env.state.displacement = 4;
    assert_eq!(env.reg8_ext(Reg8::_HL), 0x99);
    env.set_reg(Reg8::_HL, 0x55);
    assert_eq!(env.peek(0x70004), 0x55);
}

#[test]
fn reg16or24_respects_mode_and_af_width() {
    let mut env = fresh_env();
    env.state.reg.set24(Reg16::BC, 0xABCDEF);
    env.state.reg.set16(Reg16::AF, 0x1234);

    env.state.op_long = true;
    assert_eq!(env.reg16or24_ext(Reg16::BC), 0xABCDEF);
    assert_eq!(env.reg16or24_ext(Reg16::AF), 0x1234);

    env.state.op_long = false;
    assert_eq!(env.reg16or24_ext(Reg16::BC), 0xCDEF);

    // HL is substituted by the selected index
    env.set_index(Reg16::IX);
    env.state.reg.set24(Reg16::IX, 0x654321);
    env.state.op_long = true;
    assert_eq!(env.reg16or24_ext(Reg16::HL), 0x654321);

    env.set_reg16or24(Reg16::HL, 0x111111);
    assert_eq!(env.state.reg.get24(Reg16::IX), 0x111111);
}

#[test]
fn set_reg16_keeps_upper_byte_and_set_reg24_masks() {
    let mut env = fresh_env();
    env.state.reg.set24(Reg16::DE, 0xAB1122);
    env.set_reg16(Reg16::DE, 0x3344);
    assert_eq!(env.state.reg.get24(Reg16::DE), 0xAB3344);
    env.set_reg24(Reg16::DE, 0xFF556677);
    assert_eq!(env.state.reg.get24(Reg16::DE), 0x556677);
}

#[test]
fn load_displacement_reads_signed_byte() {
    let mut env = fresh_env();
    env.poke(0x60000, 0xFB); // -5
    env.state.set_pc(0x60000);
    env.load_displacement();
    assert_eq!(env.state.displacement, -5);
    assert_eq!(env.state.pc(), 0x60001);

    env.poke(0x60001, 0x7F);
    env.load_displacement();
    assert_eq!(env.state.displacement, 127);
}

#[test]
fn index_description_names_the_operand() {
    let mut env = fresh_env();
    assert_eq!(env.index_description(), "HL");
    env.set_index(Reg16::IX);
    env.state.displacement = 5;
    assert_eq!(env.index_description(), "IX+5");
    env.state.displacement = -3;
    assert_eq!(env.index_description(), "IX-3");
    env.state.displacement = 0;
    assert_eq!(env.index_description(), "IX+0");
    env.set_index(Reg16::IY);
    env.state.displacement = -128;
    assert_eq!(env.index_description(), "IY-128");
    env.state.displacement = 100;
    assert_eq!(env.index_description(), "IY+100");
}

#[test]
fn index_value_width_follows_mode() {
    let mut env = fresh_env();
    env.set_index(Reg16::IX);
    env.state.reg.set24(Reg16::IX, 0xABCDEF);
    env.state.reg.mbase = 0x03;
    env.state.op_long = true;
    assert_eq!(env.index_value(), 0xABCDEF);
    env.state.op_long = false;
    assert_eq!(env.index_value(), 0x03CDEF);
}

#[test]
fn into_parts_hands_state_and_machine_back() {
    let mut env = fresh_env();
    env.state.set_pc(0x1234);
    env.poke(0x50000, 7);
    let (state, machine) = env.into_parts();
    assert_eq!(state.pc, 0x1234);
    let env2 = Environment::new(state, machine);
    assert_eq!(env2.peek(0x50000), 7);
}
