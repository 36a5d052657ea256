//! The arithmetic, logic, rotate, shift and bit operations of the CPU, as
//! functions from operands and flags to a result and the new flags.
use vstd::prelude::*;

use super::registers::Flags;

verus! {

/// Facts about shifting and or-ing a byte, as arithmetic.
pub proof fn lemma_shift_facts(a: u8)
    by (bit_vector)
    ensures
        a << 1u8 == ((a * 2) % 256) as u8,
        a << 4u8 == ((a * 16) % 256) as u8,
        (a << 1u8) | 1u8 == (a << 1u8) + 1,
        (a >> 1u8) | 0x80u8 == (a >> 1u8) + 128,
        (a >> 1u8) | (a & 0x80u8) == (a >> 1u8) + (a & 0x80u8),
        (a >> 4u8) | (a << 4u8) == (a >> 4u8) + (a << 4u8),
        !a == 255 - a,
        (a & 0x80 == 0x80) == (a >= 128),
        a & 0x80 == a / 128 * 128,
        (a & 0x01 == 0x01) == (a % 2 == 1),
        a & 0x0F == a % 16,
        a >> 1u8 == a / 2,
        a >> 4u8 == a / 16,
{
}

/// Facts about the low bits of a word.
pub proof fn lemma_word_facts(w: u16)
    by (bit_vector)
    ensures
        w & 0x0FFF == w % 4096,
        w & 0x000F == w % 16,
        w & 0x00FF == w % 256,
{
}

/// The flags with zero, subtraction, half carry and carry as given.
pub open spec fn flags(z: bool, n: bool, h: bool, c: bool) -> Flags {
    Flags { zero: z, subtraction: n, half_carry: h, carry: c }
}

/// 1 for a set carry, else 0.
pub open spec fn carry_value(c: bool) -> int {
    if c { 1 } else { 0 }
}

/// `ADD`/`ADC`: A plus the operand plus the carry in, modulo 256; half
/// carry out of bit 3, carry out of bit 7.
pub open spec fn add_spec(a: u8, b: u8, carry: bool) -> (u8, Flags) {
    let c = carry_value(carry);
    let r = ((a + b + c) % 256) as u8;
    (r, flags(r == 0, false, a % 16 + b % 16 + c > 15, a + b + c > 255))
}

/// `SUB`/`SBC`/`CP`: A minus the operand minus the carry in, modulo 256;
/// half borrow from bit 4, borrow.
pub open spec fn sub_spec(a: u8, b: u8, carry: bool) -> (u8, Flags) {
    let c = carry_value(carry);
    let r = ((a - b - c) % 256) as u8;
    (r, flags(r == 0, true, a % 16 < b % 16 + c, a < b + c))
}

/// `AND`: half carry set, carry clear.
pub open spec fn and_spec(a: u8, b: u8) -> (u8, Flags) {
    let r = a & b;
    (r, flags(r == 0, false, true, false))
}

/// `XOR`: only zero can be set.
pub open spec fn xor_spec(a: u8, b: u8) -> (u8, Flags) {
    let r = a ^ b;
    (r, flags(r == 0, false, false, false))
}

/// `OR`: only zero can be set.
pub open spec fn or_spec(a: u8, b: u8) -> (u8, Flags) {
    let r = a | b;
    (r, flags(r == 0, false, false, false))
}

/// `INC r8`: plus one modulo 256, the carry kept.
pub open spec fn inc_spec(v: u8, f: Flags) -> (u8, Flags) {
    let r = ((v + 1) % 256) as u8;
    (r, flags(r == 0, false, v % 16 == 15, f.carry))
}

/// `DEC r8`: minus one modulo 256, the carry kept.
pub open spec fn dec_spec(v: u8, f: Flags) -> (u8, Flags) {
    let r = ((v - 1) % 256) as u8;
    (r, flags(r == 0, true, v % 16 == 0, f.carry))
}

/// `ADD HL, r16`: zero kept, half carry out of bit 11, carry out of bit 15.
pub open spec fn add16_spec(hl: u16, v: u16, f: Flags) -> (u16, Flags) {
    (((hl + v) % 65536) as u16, flags(f.zero, false, hl % 4096 + v % 4096 > 4095, hl + v > 65535))
}

/// A byte sign-extended to sixteen bits, as an unsigned word.
pub open spec fn sign_extended(e: u8) -> u16 {
    if e < 128 {
        e as u16
    } else {
        (e + 0xFF00) as u16
    }
}

/// `ADD SP, e8` and `LD HL, SP+e8`: SP plus the signed byte, with half carry
/// and carry from the low byte's bits 3 and 7; zero and subtraction clear.
pub open spec fn add_sp_spec(sp: u16, e: u8) -> (u16, Flags) {
    let v = sign_extended(e);
    (((sp + v) % 65536) as u16, flags(false, false, sp % 16 + e % 16 > 15, sp % 256 + e > 255))
}

/// `DAA`: corrects A after a BCD addition or subtraction. The low digit is
/// corrected by 6 after a half carry (or, after an addition, a low digit
/// above 9); the high digit by 0x60 after a carry (or, after an addition,
/// a value above 0x99). Carry is set when the high digit was corrected.
pub open spec fn daa_spec(a: u8, f: Flags) -> (u8, Flags) {
    let low = f.half_carry || (!f.subtraction && a % 16 > 9);
    let high = f.carry || (!f.subtraction && a > 0x99);
    let correction = (if high { 0x60int } else { 0 }) + (if low { 6int } else { 0 });
    let r = if f.subtraction {
        ((a - correction) % 256) as u8
    } else {
        ((a + correction) % 256) as u8
    };
    (r, flags(r == 0, f.subtraction, false, high))
}

/// `RLCA`/`RLC`: rotate left, bit 7 into bit 0 and the carry.
pub open spec fn rlc_spec(v: u8) -> (u8, bool) {
    ((((v * 2) % 256) + v / 128) as u8, v >= 128)
}

/// `RRCA`/`RRC`: rotate right, bit 0 into bit 7 and the carry.
pub open spec fn rrc_spec(v: u8) -> (u8, bool) {
    ((v / 2 + (v % 2) * 128) as u8, v % 2 == 1)
}

/// `RLA`/`RL`: rotate left through the carry.
pub open spec fn rl_spec(v: u8, carry: bool) -> (u8, bool) {
    ((((v * 2) % 256) + carry_value(carry)) as u8, v >= 128)
}

/// `RRA`/`RR`: rotate right through the carry.
pub open spec fn rr_spec(v: u8, carry: bool) -> (u8, bool) {
    ((v / 2 + carry_value(carry) * 128) as u8, v % 2 == 1)
}

/// `SLA`: shift left, bit 7 into the carry.
pub open spec fn sla_spec(v: u8) -> (u8, bool) {
    (((v * 2) % 256) as u8, v >= 128)
}

/// `SRA`: shift right keeping bit 7, bit 0 into the carry.
pub open spec fn sra_spec(v: u8) -> (u8, bool) {
    ((v / 2 + (if v >= 128 { 128int } else { 0 })) as u8, v % 2 == 1)
}

/// `SRL`: shift right, bit 0 into the carry.
pub open spec fn srl_spec(v: u8) -> (u8, bool) {
    ((v / 2) as u8, v % 2 == 1)
}

/// `SWAP`: exchange the two nibbles.
pub open spec fn swap_spec(v: u8) -> u8 {
    ((v % 16) * 16 + v / 16) as u8
}

/// The flags of a rotate or shift on a register (CB-prefixed).
pub open spec fn rotate_flags(result: u8, carry: bool) -> Flags {
    flags(result == 0, false, false, carry)
}

/// The flags of `RLCA`, `RRCA`, `RLA` and `RRA`: zero is always clear.
pub open spec fn rotate_a_flags(carry: bool) -> Flags {
    flags(false, false, false, carry)
}

/// `ADD A`/`ADC A` (see `add_spec`).
pub fn add_8(a: u8, b: u8, carry: bool) -> (r: (u8, Flags))
    ensures
        r == add_spec(a, b, carry),
{
    proof {
        lemma_shift_facts(a);
        lemma_shift_facts(b);
    }
    let c: u8 = if carry { 1 } else { 0 };
    let partial = a.wrapping_add(b);
    assert(partial == (a + b) % 256);
    let result = partial.wrapping_add(c);
    assert(result == (a + b + c) % 256);
    let f = Flags {
        zero: result == 0,
        subtraction: false,
        half_carry: (a & 0x0F) + (b & 0x0F) + c > 0x0F,
        carry: a as u16 + b as u16 + c as u16 > 0xFF,
    };
    (result, f)
}

/// `SUB A`/`SBC A`/`CP A` (see `sub_spec`).
pub fn sub_8(a: u8, b: u8, carry: bool) -> (r: (u8, Flags))
    ensures
        r == sub_spec(a, b, carry),
{
    proof {
        lemma_shift_facts(a);
        lemma_shift_facts(b);
    }
    let c: u8 = if carry { 1 } else { 0 };
    let partial = a.wrapping_sub(b);
    let result = partial.wrapping_sub(c);
    assert(result == (a - b - c) % 256) by {
        if a - b - c >= 0 {
            assert(result == a - b - c);
        } else if a - b - c >= -256 {
            assert(result == a - b - c + 256);
        }
    }
    let f = Flags {
        zero: result == 0,
        subtraction: true,
        half_carry: (a & 0x0F) < (b & 0x0F) + c,
        carry: (a as u16) < (b as u16) + c as u16,
    };
    (result, f)
}

/// `AND A` (see `and_spec`).
pub fn and_8(a: u8, b: u8) -> (r: (u8, Flags))
    ensures
        r == and_spec(a, b),
{
    let result = a & b;
    (result, Flags { zero: result == 0, subtraction: false, half_carry: true, carry: false })
}

/// `XOR A` (see `xor_spec`).
pub fn xor_8(a: u8, b: u8) -> (r: (u8, Flags))
    ensures
        r == xor_spec(a, b),
{
    let result = a ^ b;
    (result, Flags { zero: result == 0, subtraction: false, half_carry: false, carry: false })
}

/// `OR A` (see `or_spec`).
pub fn or_8(a: u8, b: u8) -> (r: (u8, Flags))
    ensures
        r == or_spec(a, b),
{
    let result = a | b;
    (result, Flags { zero: result == 0, subtraction: false, half_carry: false, carry: false })
}

/// `INC r8` (see `inc_spec`).
pub fn inc_8(v: u8, f: Flags) -> (r: (u8, Flags))
    ensures
        r == inc_spec(v, f),
{
    proof {
        lemma_shift_facts(v);
    }
    let result = v.wrapping_add(1);
    (result, Flags { zero: result == 0, subtraction: false, half_carry: (v & 0x0F) + 1 > 0x0F, carry: f.carry })
}

/// `DEC r8` (see `dec_spec`).
pub fn dec_8(v: u8, f: Flags) -> (r: (u8, Flags))
    ensures
        r == dec_spec(v, f),
{
    proof {
        lemma_shift_facts(v);
    }
    let result = v.wrapping_sub(1);
    (result, Flags { zero: result == 0, subtraction: true, half_carry: (v & 0x0F) == 0, carry: f.carry })
}

/// `ADD HL, r16` (see `add16_spec`).
pub fn add_16(hl: u16, v: u16, f: Flags) -> (r: (u16, Flags))
    ensures
        r == add16_spec(hl, v, f),
{
    proof {
        lemma_word_facts(hl);
        lemma_word_facts(v);
    }
    let result = hl.wrapping_add(v);
    (
        result,
        Flags {
            zero: f.zero,
            subtraction: false,
            half_carry: (hl & 0x0FFF) + (v & 0x0FFF) > 0x0FFF,
            carry: hl as u32 + v as u32 > 0xFFFF,
        },
    )
}

/// A byte sign-extended to sixteen bits (see `sign_extended`).
pub fn sign_extend(e: u8) -> (r: u16)
    ensures
        r == sign_extended(e),
{
    if e < 0x80 {
        e as u16
    } else {
        e as u16 + 0xFF00
    }
}

/// `ADD SP, e8` and `LD HL, SP+e8` (see `add_sp_spec`).
pub fn add_sp(sp: u16, e: u8) -> (r: (u16, Flags))
    ensures
        r == add_sp_spec(sp, e),
{
    let value2 = sign_extend(e);
    proof {
        lemma_word_facts(sp);
        lemma_word_facts(value2);
    }
    let result = sp.wrapping_add(value2);
    (
        result,
        Flags {
            zero: false,
            subtraction: false,
            half_carry: (sp & 0x000F) + (value2 & 0x000F) > 0x000F,
            carry: (sp & 0x00FF) + (value2 & 0x00FF) > 0x00FF,
        },
    )
}

/// `DAA` (see `daa_spec`).
#[verifier::spinoff_prover]
pub fn daa_8(a: u8, f: Flags) -> (r: (u8, Flags))
    ensures
        r == daa_spec(a, f),
{
    proof {
        assert(a & 0x0F == a % 16) by (bit_vector);
    }
    let low = f.half_carry || (!f.subtraction && a & 0x0F > 0x09);
    let high = f.carry || (!f.subtraction && a > 0x99);
    let correction: u8 = (if high { 0x60 } else { 0x00 }) + (if low { 0x06 } else { 0x00 });
    let result = if !f.subtraction {
        a.wrapping_add(correction)
    } else {
        a.wrapping_sub(correction)
    };
    assert(result == daa_spec(a, f).0) by {
        if !f.subtraction {
            if a + correction < 256 {
                assert(result == a + correction);
            } else {
                assert(result == a + correction - 256);
            }
        } else {
            if a - correction >= 0 {
                assert(result == a - correction);
            } else {
                assert(result == a - correction + 256);
            }
        }
    }
    (result, Flags { zero: result == 0, subtraction: f.subtraction, half_carry: false, carry: correction >= 0x60 })
}

/// `CPL`: A complemented; subtraction and half carry set.
pub fn cpl_8(a: u8, f: Flags) -> (r: (u8, Flags))
    ensures
        r == ((255 - a) as u8, flags(f.zero, true, true, f.carry)),
{
    proof {
        lemma_shift_facts(a);
    }
    (!a, Flags { subtraction: true, half_carry: true, ..f })
}

/// `SCF`: carry set, subtraction and half carry clear.
pub fn scf_flags(f: Flags) -> (r: Flags)
    ensures
        r == flags(f.zero, false, false, true),
{
    Flags { carry: true, half_carry: false, subtraction: false, ..f }
}

/// `CCF`: carry complemented, subtraction and half carry clear.
pub fn ccf_flags(f: Flags) -> (r: Flags)
    ensures
        r == flags(f.zero, false, false, !f.carry),
{
    Flags { carry: !f.carry, half_carry: false, subtraction: false, ..f }
}

/// Rotate left (see `rlc_spec`).
pub fn rlc_8(v: u8) -> (r: (u8, bool))
    ensures
        r == rlc_spec(v),
{
    proof {
        lemma_shift_facts(v);
    }
    let carry = v & 0x80 == 0x80;
    (if carry { (v << 1) | 1 } else { v << 1 }, carry)
}

/// Rotate right (see `rrc_spec`).
pub fn rrc_8(v: u8) -> (r: (u8, bool))
    ensures
        r == rrc_spec(v),
{
    proof {
        lemma_shift_facts(v);
    }
    let carry = v & 0x01 == 0x01;
    (if carry { (v >> 1) | 0x80 } else { v >> 1 }, carry)
}

/// Rotate left through the carry (see `rl_spec`).
pub fn rl_8(v: u8, carry_in: bool) -> (r: (u8, bool))
    ensures
        r == rl_spec(v, carry_in),
{
    proof {
        lemma_shift_facts(v);
    }
    let carry = v & 0x80 == 0x80;
    (if carry_in { (v << 1) | 1 } else { v << 1 }, carry)
}

/// Rotate right through the carry (see `rr_spec`).
pub fn rr_8(v: u8, carry_in: bool) -> (r: (u8, bool))
    ensures
        r == rr_spec(v, carry_in),
{
    proof {
        lemma_shift_facts(v);
    }
    let carry = v & 0x01 == 0x01;
    (if carry_in { (v >> 1) | 0x80 } else { v >> 1 }, carry)
}

/// Shift left (see `sla_spec`).
pub fn sla_8(v: u8) -> (r: (u8, bool))
    ensures
        r == sla_spec(v),
{
    proof {
        lemma_shift_facts(v);
    }
    (v << 1, v & 0x80 == 0x80)
}

/// Arithmetic shift right (see `sra_spec`).
pub fn sra_8(v: u8) -> (r: (u8, bool))
    ensures
        r == sra_spec(v),
{
    proof {
        lemma_shift_facts(v);
    }
    ((v >> 1) | (v & 0x80), v & 0x01 == 0x01)
}

/// Logical shift right (see `srl_spec`).
pub fn srl_8(v: u8) -> (r: (u8, bool))
    ensures
        r == srl_spec(v),
{
    proof {
        lemma_shift_facts(v);
    }
    (v >> 1, v & 0x01 == 0x01)
}

/// Nibble swap (see `swap_spec`).
pub fn swap_8(v: u8) -> (r: u8)
    ensures
        r == swap_spec(v),
{
    proof {
        lemma_shift_facts(v);
    }
    (v >> 4) | (v << 4)
}

/// `BIT n`: zero set when bit `n` of the value is clear; half carry set,
/// the carry kept.
pub fn bit_flags(n: u8, v: u8, f: Flags) -> (r: Flags)
    requires
        n < 8,
    ensures
        r == flags(v & (1u8 << n) == 0, false, true, f.carry),
{
    Flags { zero: v & (1 << n) == 0, subtraction: false, half_carry: true, ..f }
}

/// `RES n`: bit `n` cleared.
pub fn res_bit(n: u8, v: u8) -> (r: u8)
    requires
        n < 8,
    ensures
        r == v & !(1u8 << n),
{
    v & !(1 << n)
}

/// `SET n`: bit `n` set.
pub fn set_bit(n: u8, v: u8) -> (r: u8)
    requires
        n < 8,
    ensures
        r == v | (1u8 << n),
{
    v | (1 << n)
}

/// Whether a byte holds two decimal digits.
pub open spec fn is_bcd(v: u8) -> bool {
    v % 16 <= 9 && v / 16 <= 9
}

/// The number that two decimal digits stand for.
pub open spec fn bcd_value(v: u8) -> int {
    (v / 16) * 10 + v % 16
}

proof fn lemma_daa_add_bits(a: u8, b: u8)
    by (bit_vector)
    requires
        a % 16 <= 9,
        a / 16 <= 9,
        b % 16 <= 9,
        b / 16 <= 9,
    ensures
        ({
            let s8 = ((a + b) % 256) as u8;
            let low = (a % 16 + b % 16 > 15) || s8 % 16 > 9;
            let high = (a + b > 255) || s8 > 0x99;
            let r = ((s8 + ((if high { 0x60int } else { 0 }) + (if low { 6int } else { 0 }))) % 256) as u8;
            let total = (a / 16) * 10 + a % 16 + (b / 16) * 10 + b % 16;
            &&& r % 16 <= 9
            &&& r / 16 <= 9
            &&& (r / 16) * 10 + r % 16 == total % 100
            &&& high == (total >= 100)
        }),
{
}

proof fn lemma_daa_sub_bits(a: u8, b: u8)
    by (bit_vector)
    requires
        a % 16 <= 9,
        a / 16 <= 9,
        b % 16 <= 9,
        b / 16 <= 9,
    ensures
        ({
            let s8 = ((a - b) % 256) as u8;
            let low = a % 16 < b % 16;
            let high = a < b;
            let r = ((s8 - ((if high { 0x60int } else { 0 }) + (if low { 6int } else { 0 }))) % 256) as u8;
            let ta = (a / 16) * 10 + a % 16;
            let tb = (b / 16) * 10 + b % 16;
            &&& r % 16 <= 9
            &&& r / 16 <= 9
            &&& (r / 16) * 10 + r % 16 == (ta - tb) % 100
            &&& high == (ta < tb)
        }),
{
}

/// `DAA` after `ADD` of two BCD bytes gives their decimal sum modulo 100
/// in BCD, with the carry set exactly when the sum reaches 100.
pub proof fn lemma_daa_after_add(a: u8, b: u8)
    requires
        is_bcd(a),
        is_bcd(b),
    ensures
        ({
            let (s, f) = add_spec(a, b, false);
            let (r, g) = daa_spec(s, f);
            &&& is_bcd(r)
            &&& bcd_value(r) == (bcd_value(a) + bcd_value(b)) % 100
            &&& g.carry == (bcd_value(a) + bcd_value(b) >= 100)
        }),
{
    lemma_daa_add_bits(a, b);
}

/// `DAA` after `SUB` of two BCD bytes gives their decimal difference modulo
/// 100 in BCD, with the carry set exactly when a borrow was needed.
pub proof fn lemma_daa_after_sub(a: u8, b: u8)
    requires
        is_bcd(a),
        is_bcd(b),
    ensures
        ({
            let (s, f) = sub_spec(a, b, false);
            let (r, g) = daa_spec(s, f);
            &&& is_bcd(r)
            &&& bcd_value(r) == (bcd_value(a) - bcd_value(b)) % 100
            &&& g.carry == (bcd_value(a) < bcd_value(b))
        }),
{
    lemma_daa_sub_bits(a, b);
}

/// Subtracting what was added gives back the starting value.
pub proof fn lemma_add_then_sub(a: u8, b: u8)
    ensures
        sub_spec(add_spec(a, b, false).0, b, false).0 == a,
        add_spec(sub_spec(a, b, false).0, b, false).0 == a,
{
}

/// `CP` sets zero exactly when the values are equal and carry exactly when
/// A is the smaller.
pub proof fn lemma_compare_flags(a: u8, b: u8)
    ensures
        sub_spec(a, b, false).1.zero == (a == b),
        sub_spec(a, b, false).1.carry == (a < b),
{
}

/// Swapping the nibbles twice gives back the byte.
pub proof fn lemma_swap_twice(v: u8)
    ensures
        swap_spec(swap_spec(v)) == v,
{
}

/// Rotating right undoes rotating left, and the other way round.
pub proof fn lemma_rotate_inverse(v: u8)
    ensures
        rrc_spec(rlc_spec(v).0).0 == v,
        rlc_spec(rrc_spec(v).0).0 == v,
{
    if v >= 128 {
        assert(rlc_spec(v).0 == v * 2 - 256 + 1);
    } else {
        assert(rlc_spec(v).0 == v * 2);
    }
    if v % 2 == 1 {
        assert(rrc_spec(v).0 == v / 2 + 128);
    } else {
        assert(rrc_spec(v).0 == v / 2);
    }
}

/// Rotating right through the carry undoes rotating left through it, and
/// the other way round.
pub proof fn lemma_rotate_through_carry_inverse(v: u8, carry: bool)
    ensures
        rr_spec(rl_spec(v, carry).0, rl_spec(v, carry).1) == (v, carry),
        rl_spec(rr_spec(v, carry).0, rr_spec(v, carry).1) == (v, carry),
{
    let c = carry_value(carry);
    if v >= 128 {
        assert(rl_spec(v, carry).0 == v * 2 - 256 + c);
    } else {
        assert(rl_spec(v, carry).0 == v * 2 + c);
    }
    assert(rr_spec(v, carry).0 == v / 2 + c * 128);
}

/// `BIT n` after `RES n` finds the bit clear, after `SET n` finds it set;
/// neither touches the other bits.
pub proof fn lemma_bit_after_res_set(n: u8, m: u8, v: u8)
    requires
        n < 8,
        m < 8,
    ensures
        (v & !(1u8 << n)) & (1u8 << n) == 0,
        (v | (1u8 << n)) & (1u8 << n) != 0,
        m != n ==> ((v & !(1u8 << n)) & (1u8 << m) == 0) == (v & (1u8 << m) == 0),
        m != n ==> ((v | (1u8 << n)) & (1u8 << m) == 0) == (v & (1u8 << m) == 0),
{
    lemma_res_set_bits(n, m, v);
}

proof fn lemma_res_set_bits(n: u8, m: u8, v: u8)
    by (bit_vector)
    requires
        n < 8,
        m < 8,
    ensures
        (v & !(1u8 << n)) & (1u8 << n) == 0,
        (v | (1u8 << n)) & (1u8 << n) != 0,
        m != n ==> ((v & !(1u8 << n)) & (1u8 << m) == 0) == (v & (1u8 << m) == 0),
        m != n ==> ((v | (1u8 << n)) & (1u8 << m) == 0) == (v & (1u8 << m) == 0),
        v ^ v == 0,
{
}

/// `XOR A` clears A and sets only the zero flag.
pub proof fn lemma_xor_self(a: u8)
    ensures
        xor_spec(a, a) == (0u8, flags(true, false, false, false)),
{
    lemma_res_set_bits(0, 0, a);
}

} // verus!
