//! What the register instructions compute: the value each leaves in its
//! register, and each flag, stated over the operand that was fetched.
use vstd::prelude::*;

use crate::nes::cpu::instructions::common::{lemma_add_u8s_overflow, signed};
use crate::nes::cpu::opcode::{Mnemonic, Opcode};
use crate::nes::cpu::state::{value_flags, with_flag, CpuState};

verus! {

/// Zero (bit 1) and negative (bit 7) of `after` describe `value`; every
/// other bit of `after` is that of `before`.
pub open spec fn describes(before: u8, after: u8, value: u8) -> bool {
    &&& (after & 0x02 != 0 <==> value == 0)
    &&& (after & 0x80 != 0 <==> value >= 0x80)
    &&& after & 0x7D == before & 0x7D
}

/// `t` differs from `s` at most in A, X, Y and the status.
pub open spec fn same_but_registers(s: CpuState, t: CpuState) -> bool {
    &&& t.stack_pointer == s.stack_pointer
    &&& t.program_counter == s.program_counter
    &&& t.clock_counter == s.clock_counter
    &&& t.bus == s.bus
}

/// `r` holds a state that is `u` with A, X and Y set to `a`, `x` and `y`,
/// and zero and negative describing `value`.
pub open spec fn registers_set(u: CpuState, r: Option<CpuState>, a: u8, x: u8, y: u8, value: u8) -> bool {
    &&& r is Some
    &&& r.unwrap().a == a
    &&& r.unwrap().x == x
    &&& r.unwrap().y == y
    &&& describes(u.status, r.unwrap().status, value)
    &&& same_but_registers(u, r.unwrap())
}

proof fn lemma_value_flags_describe(status: u8, value: u8)
    by (bit_vector)
    ensures
        describes(status, value_flags(status, value), value),
{
}

/// AND, EOR and ORA leave in the accumulator the AND, the exclusive OR and
/// the OR of the accumulator and the operand; LDA, LDX, LDY and LAX load
/// the operand into A, X, Y, or both A and X. Each fails exactly when the
/// operand cannot be fetched. Zero and negative describe the new value;
/// every other flag, the other registers and the machine stay as the fetch
/// left them.
pub proof fn lemma_logic_and_load_results(s: CpuState, op: Opcode)
    ensures
        s.operand_value(op) is None ==> {
            &&& s.spec_and(op) is None
            &&& s.spec_eor(op) is None
            &&& s.spec_ora(op) is None
            &&& s.spec_lda(op) is None
            &&& s.spec_ldx(op) is None
            &&& s.spec_ldy(op) is None
            &&& s.spec_lax(op) is None
        },
        s.operand_value(op) matches Some((v, u)) ==> {
            &&& registers_set(u, s.spec_and(op), u.a & v, u.x, u.y, u.a & v)
            &&& registers_set(u, s.spec_eor(op), u.a ^ v, u.x, u.y, u.a ^ v)
            &&& registers_set(u, s.spec_ora(op), u.a | v, u.x, u.y, u.a | v)
            &&& registers_set(u, s.spec_lda(op), v, u.x, u.y, v)
            &&& registers_set(u, s.spec_ldx(op), u.a, v, u.y, v)
            &&& registers_set(u, s.spec_ldy(op), u.a, u.x, v, v)
            &&& registers_set(u, s.spec_lax(op), v, v, u.y, v)
        },
{
    if let Some((v, u)) = s.operand_value(op) {
        lemma_value_flags_describe(u.status, u.a & v);
        lemma_value_flags_describe(u.status, u.a ^ v);
        lemma_value_flags_describe(u.status, u.a | v);
        lemma_value_flags_describe(u.status, v);
    }
}

/// The status after an addition: carry and overflow as given, then zero
/// and negative describing the sum.
spec fn sum_status(status: u8, carry: bool, overflow: bool, sum: u8) -> u8 {
    value_flags(with_flag(with_flag(status, 0x01, carry), 0x40, overflow), sum)
}

proof fn lemma_sum_status(status: u8, carry: bool, overflow: bool, sum: u8)
    by (bit_vector)
    ensures
        sum_status(status, carry, overflow, sum) & 0x01 != 0 <==> carry,
        sum_status(status, carry, overflow, sum) & 0x40 != 0 <==> overflow,
        sum_status(status, carry, overflow, sum) & 0x02 != 0 <==> sum == 0,
        sum_status(status, carry, overflow, sum) & 0x80 != 0 <==> sum >= 0x80,
        sum_status(status, carry, overflow, sum) & 0x3C == status & 0x3C,
{
}

/// ADC adds the operand and the carry to the accumulator: the accumulator
/// takes the sum modulo 256; carry tells whether the sum exceeds 255,
/// overflow whether the sum of the signed values leaves -128..=127, zero
/// and negative describe the new accumulator. It fails exactly when the
/// operand cannot be fetched; the other flags and registers stay as the
/// fetch left them.
pub proof fn lemma_adc_result(s: CpuState, op: Opcode)
    ensures
        s.operand_value(op) is None <==> s.spec_adc(op) is None,
        s.operand_value(op) matches Some((v, u)) ==> ({
            let t = s.spec_adc(op).unwrap();
            let c = if u.status & 0x01 != 0 { 1int } else { 0int };
            let sum = u.a + v + c;
            let signed_sum = signed(u.a) + signed(v) + c;
            &&& t.a == sum % 256
            &&& (t.status & 0x01 != 0 <==> sum > 255)
            &&& (t.status & 0x40 != 0 <==> signed_sum < -128 || signed_sum > 127)
            &&& (t.status & 0x02 != 0 <==> t.a == 0)
            &&& (t.status & 0x80 != 0 <==> t.a >= 0x80)
            &&& t.status & 0x3C == u.status & 0x3C
            &&& t.x == u.x
            &&& t.y == u.y
            &&& same_but_registers(u, t)
        }),
{
    if let Some((v, u)) = s.operand_value(op) {
        let carry_in = u.status & 0x01 != 0;
        let (sum, carry, overflow) = crate::nes::cpu::instructions::common::spec_add_u8s(u.a, v, carry_in);
        lemma_add_u8s_overflow(u.a, v, carry_in);
        lemma_sum_status(u.status, carry, overflow, sum);
        assert(s.spec_adc(op).unwrap().status == sum_status(u.status, carry, overflow, sum));
    }
}

/// The status after a comparison whose difference is `difference`.
spec fn compare_status(status: u8, difference: u8, no_borrow: bool) -> u8 {
    with_flag(value_flags(status, difference), 0x01, no_borrow)
}

proof fn lemma_compare_status(status: u8, difference: u8, no_borrow: bool)
    by (bit_vector)
    ensures
        compare_status(status, difference, no_borrow) & 0x01 != 0 <==> no_borrow,
        compare_status(status, difference, no_borrow) & 0x02 != 0 <==> difference == 0,
        compare_status(status, difference, no_borrow) & 0x80 != 0 <==> difference >= 0x80,
        compare_status(status, difference, no_borrow) & 0x7C == status & 0x7C,
{
}

/// Whether `t` is `u` after a comparison of `register` with `operand`: carry
/// tells whether the register is at least the operand, zero whether the two
/// are equal, negative is bit 7 of their difference modulo 256; the other
/// flags, every register and the machine stay.
pub open spec fn compared_with(u: CpuState, r: Option<CpuState>, register: u8, operand: u8) -> bool {
    &&& r is Some
    &&& (r.unwrap().status & 0x01 != 0 <==> register >= operand)
    &&& (r.unwrap().status & 0x02 != 0 <==> register == operand)
    &&& (r.unwrap().status & 0x80 != 0 <==> (register - operand) % 256 >= 128)
    &&& r.unwrap().status & 0x7C == u.status & 0x7C
    &&& r.unwrap().a == u.a
    &&& r.unwrap().x == u.x
    &&& r.unwrap().y == u.y
    &&& same_but_registers(u, r.unwrap())
}

/// CMP, CPX and CPY compare A, X and Y with the operand, and fail exactly
/// when the operand cannot be fetched.
pub proof fn lemma_compare_results(s: CpuState, op: Opcode)
    ensures
        s.operand_value(op) is None ==> s.spec_cmp(op) is None && s.spec_cpx(op) is None
            && s.spec_cpy(op) is None,
        s.operand_value(op) matches Some((v, u)) ==> {
            &&& compared_with(u, s.spec_cmp(op), u.a, v)
            &&& compared_with(u, s.spec_cpx(op), u.x, v)
            &&& compared_with(u, s.spec_cpy(op), u.y, v)
        },
{
    if let Some((v, u)) = s.operand_value(op) {
        lemma_compared(u, u.a, v);
        lemma_compared(u, u.x, v);
        lemma_compared(u, u.y, v);
    }
}

proof fn lemma_compared(u: CpuState, register: u8, operand: u8)
    ensures
        compared_with(u, Some(u.compared(register, operand)), register, operand),
{
    let d = vstd::wrapping::u8_specs::wrapping_sub(register, operand);
    lemma_compare_status(u.status, d, register >= operand);
    assert(d as int == (register - operand) % 256);
}

/// The status after BIT of `a` with `operand`.
spec fn bit_status(status: u8, a: u8, operand: u8) -> u8 {
    with_flag(
        with_flag(with_flag(status, 0x02, a & operand == 0), 0x40, operand & 0x40 != 0),
        0x80,
        operand & 0x80 != 0,
    )
}

proof fn lemma_bit_status(status: u8, a: u8, operand: u8)
    by (bit_vector)
    ensures
        bit_status(status, a, operand) & 0x02 != 0 <==> a & operand == 0,
        bit_status(status, a, operand) & 0xC0 == operand & 0xC0,
        bit_status(status, a, operand) & 0x3D == status & 0x3D,
{
}

/// BIT tests the accumulator against the operand: zero tells whether their
/// AND is zero, overflow and negative become bits 6 and 7 of the operand;
/// the other flags and every register, the accumulator too, stay. It fails
/// exactly when the operand cannot be fetched.
pub proof fn lemma_bit_result(s: CpuState, op: Opcode)
    ensures
        s.operand_value(op) is None <==> s.spec_bit(op) is None,
        s.operand_value(op) matches Some((v, u)) ==> ({
            let t = s.spec_bit(op).unwrap();
            &&& (t.status & 0x02 != 0 <==> u.a & v == 0)
            &&& t.status & 0xC0 == v & 0xC0
            &&& t.status & 0x3D == u.status & 0x3D
            &&& t.a == u.a
            &&& t.x == u.x
            &&& t.y == u.y
            &&& same_but_registers(u, t)
        }),
{
    if let Some((v, u)) = s.operand_value(op) {
        lemma_bit_status(u.status, u.a, v);
    }
}

/// The status after an increment or decrement of a register to `value`,
/// with the carry cleared first or not.
spec fn counted_status(status: u8, value: u8, clear_carry: bool) -> u8 {
    value_flags(if clear_carry { with_flag(status, 0x01, false) } else { status }, value)
}

proof fn lemma_counted_status(status: u8, value: u8, clear_carry: bool)
    by (bit_vector)
    ensures
        counted_status(status, value, clear_carry) & 0x02 != 0 <==> value == 0,
        counted_status(status, value, clear_carry) & 0x80 != 0 <==> value >= 0x80,
        counted_status(status, value, clear_carry) & 0x7C == status & 0x7C,
        counted_status(status, value, clear_carry) & 0x01 == if clear_carry {
            0
        } else {
            status & 0x01
        },
{
}

/// Whether `t` is `s` after one cycle in which X (`on_x`) or Y took
/// `value`, zero and negative describe it, the carry is cleared or kept,
/// and the other flags stay.
pub open spec fn counted(s: CpuState, t: CpuState, on_x: bool, value: u8, clear_carry: bool) -> bool {
    &&& t == (CpuState {
        x: if on_x { value } else { s.x },
        y: if on_x { s.y } else { value },
        status: t.status,
        ..s.ticked()
    })
    &&& (t.status & 0x02 != 0 <==> value == 0)
    &&& (t.status & 0x80 != 0 <==> value >= 0x80)
    &&& t.status & 0x7C == s.status & 0x7C
    &&& t.status & 0x01 == if clear_carry {
        0
    } else {
        s.status & 0x01
    }
}

/// INX and INY count X and Y up by one, DEX and DEY count them down by one,
/// modulo 256, in one cycle; zero and negative describe the new value. INX,
/// INY and DEX clear the carry; DEY keeps it.
pub proof fn lemma_register_count_results(s: CpuState)
    ensures
        counted(s, s.spec_inx(), true, ((s.x + 1) % 256) as u8, true),
        counted(s, s.spec_iny(), false, ((s.y + 1) % 256) as u8, true),
        counted(s, s.spec_dex(), true, ((s.x + 255) % 256) as u8, true),
        counted(s, s.spec_dey(), false, ((s.y + 255) % 256) as u8, false),
{
    lemma_counted_status(s.status, ((s.x + 1) % 256) as u8, true);
    lemma_counted_status(s.status, ((s.y + 1) % 256) as u8, true);
    lemma_counted_status(s.status, ((s.x + 255) % 256) as u8, true);
    lemma_counted_status(s.status, ((s.y + 255) % 256) as u8, false);
}

/// The status after ASL of `a`.
spec fn shift_status(status: u8, a: u8) -> u8 {
    value_flags(with_flag(status, 0x01, a & 0x80 != 0), a << 1u8)
}

proof fn lemma_shift_status(status: u8, a: u8)
    by (bit_vector)
    ensures
        shift_status(status, a) & 0x01 != 0 <==> a >= 0x80,
        shift_status(status, a) & 0x02 != 0 <==> a << 1u8 == 0,
        shift_status(status, a) & 0x80 != 0 <==> a << 1u8 >= 0x80,
        shift_status(status, a) & 0x7C == status & 0x7C,
        (a << 1u8) as u16 == ((a as u16) * 2) % 256,
{
}

/// ASL on the accumulator doubles it modulo 256 in one cycle: carry takes
/// its old bit 7, zero and negative describe the new value, the other
/// flags and registers stay.
pub proof fn lemma_asl_accumulator_result(s: CpuState)
    ensures
        ({
            let t = s.spec_asl_0a();
            &&& t == (CpuState { a: ((s.a * 2) % 256) as u8, status: t.status, ..s.ticked() })
            &&& (t.status & 0x01 != 0 <==> s.a >= 0x80)
            &&& (t.status & 0x02 != 0 <==> t.a == 0)
            &&& (t.status & 0x80 != 0 <==> t.a >= 0x80)
            &&& t.status & 0x7C == s.status & 0x7C
        }),
{
    lemma_shift_status(s.status, s.a);
}

/// What `execute` does for the register instructions, by mnemonic, over
/// the operand that was fetched: AND, EOR and ORA combine it with the
/// accumulator; LDA, LDX, LDY and LAX load it; CMP, CPX and CPY compare A,
/// X and Y with it; ADC adds it and the carry to the accumulator.
pub proof fn lemma_register_dispatch(s: CpuState, op: Opcode)
    ensures
        s.operand_value(op) matches Some((v, u)) ==> {
            let r = s.spec_execute(op);
            let c = if u.status & 0x01 != 0 { 1int } else { 0int };
            &&& op.mnemonic == Mnemonic::And ==> registers_set(u, r, u.a & v, u.x, u.y, u.a & v)
            &&& op.mnemonic == Mnemonic::Eor ==> registers_set(u, r, u.a ^ v, u.x, u.y, u.a ^ v)
            &&& op.mnemonic == Mnemonic::Ora ==> registers_set(u, r, u.a | v, u.x, u.y, u.a | v)
            &&& op.mnemonic == Mnemonic::Lda ==> registers_set(u, r, v, u.x, u.y, v)
            &&& op.mnemonic == Mnemonic::Ldx ==> registers_set(u, r, u.a, v, u.y, v)
            &&& op.mnemonic == Mnemonic::Ldy ==> registers_set(u, r, u.a, u.x, v, v)
            &&& op.mnemonic == Mnemonic::Lax ==> registers_set(u, r, v, v, u.y, v)
            &&& op.mnemonic == Mnemonic::Cmp ==> compared_with(u, r, u.a, v)
            &&& op.mnemonic == Mnemonic::Cpx ==> compared_with(u, r, u.x, v)
            &&& op.mnemonic == Mnemonic::Cpy ==> compared_with(u, r, u.y, v)
            &&& op.mnemonic == Mnemonic::Adc ==> r is Some && r.unwrap().a == (u.a + v + c) % 256
        },
{
    reveal(CpuState::spec_execute);
    lemma_logic_and_load_results(s, op);
    lemma_compare_results(s, op);
    lemma_adc_result(s, op);
}

} // verus!
