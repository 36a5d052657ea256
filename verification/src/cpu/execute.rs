//! The semantics of each instruction, on the CPU and its bus. The operands
//! come from the bits of the current opcode.
use vstd::prelude::*;

use super::alu::{
    add_16, add_8, add_sp, add16_spec, add_sp_spec, add_spec, and_8, and_spec, bit_flags, ccf_flags, cpl_8,
    daa_8, daa_spec, dec_8, dec_spec, flags, inc_8, inc_spec, or_8, or_spec, res_bit, rl_8, rl_spec, rlc_8,
    rlc_spec, rotate_a_flags, rotate_flags, rr_8, rr_spec, rrc_8, rrc_spec, scf_flags, set_bit, sign_extend,
    sign_extended, sla_8, sla_spec, sra_8, sra_spec, srl_8, srl_spec, sub_8, sub_spec, swap_8, swap_spec,
    xor_8, xor_spec,
};
use super::operands::{
    condition_of, holds, r16_of, r16mem_address, r16mem_after, r16mem_of, r16stk_of, r8_of, reg16, reg_stk,
    set_reg16, set_reg_stk, Condition, R16Memory, R16Stack, R16, R8,
};
use super::registers::{Flags, Registers};
use super::instructions::Instruction;
use super::{pc_plus, Cpu};
use crate::memory::MemoryInterface;

verus! {

/// Bits 5-4 of an opcode (a register pair).
pub open spec fn bits_5_4(opcode: u8) -> u8 {
    opcode / 16 % 4
}

/// Bits 5-3 of an opcode (a register, or a bit number).
pub open spec fn bits_5_3(opcode: u8) -> u8 {
    opcode / 8 % 8
}

/// Bits 4-3 of an opcode (a condition).
pub open spec fn bits_4_3(opcode: u8) -> u8 {
    opcode / 8 % 4
}

/// Bits 2-0 of an opcode (a register).
pub open spec fn bits_2_0(opcode: u8) -> u8 {
    opcode % 8
}

/// The opcode fields as the bit operations of the code extract them.
pub proof fn lemma_opcode_fields(opcode: u8)
    ensures
        (opcode & 0b0011_0000) >> 4 == bits_5_4(opcode),
        (opcode & 0b0011_1000) >> 3 == bits_5_3(opcode),
        (opcode & 0b0001_1000) >> 3 == bits_4_3(opcode),
        opcode & 0b0000_0111 == bits_2_0(opcode),
        opcode & 0b0011_1000 == bits_5_3(opcode) * 8,
        (opcode & 0b1100_0000) >> 6 == opcode / 64,
{
    crate::bits::lemma_byte_fields(opcode);
    crate::bits::lemma_byte_fields(opcode & 0b0011_0000);
    crate::bits::lemma_byte_fields(opcode & 0b0011_1000);
    crate::bits::lemma_byte_fields(opcode & 0b0001_1000);
    crate::bits::lemma_byte_fields(opcode & 0b1100_0000);
}

/// The eight operations between A and an operand.
#[derive(Debug, Clone, Copy, PartialEq, Eq, Structural)]
pub enum AluOp {
    Add,
    Adc,
    Sub,
    Sbc,
    And,
    Xor,
    Or,
    Cp,
}

/// The value A takes and the flags an operation leaves; `CP` keeps A.
pub open spec fn alu_apply(op: AluOp, a: u8, b: u8, f: Flags) -> (u8, Flags) {
    match op {
        AluOp::Add => add_spec(a, b, false),
        AluOp::Adc => add_spec(a, b, f.carry),
        AluOp::Sub => sub_spec(a, b, false),
        AluOp::Sbc => sub_spec(a, b, f.carry),
        AluOp::And => and_spec(a, b),
        AluOp::Xor => xor_spec(a, b),
        AluOp::Or => or_spec(a, b),
        AluOp::Cp => (a, sub_spec(a, b, false).1),
    }
}

/// The CPU after an operation between A and `operand`.
pub open spec fn alu_done<I: MemoryInterface>(c: Cpu<I>, op: AluOp, operand: u8) -> Cpu<I> {
    let (a, f) = alu_apply(op, c.registers.a, operand, c.registers.f);
    c.with_registers(Registers { a, f, ..c.registers })
}

/// The CPU after an operation between A and the register (or `[HL]`) in
/// bits 2-0 of the opcode.
pub open spec fn alu_r8_done<I: MemoryInterface>(c: Cpu<I>, op: AluOp) -> Cpu<I> {
    let (v, c1) = c.read_r8(r8_of(bits_2_0(c.opcode)));
    alu_done(c1, op, v)
}

/// The CPU after an operation between A and the byte after the opcode.
pub open spec fn alu_imm8_done<I: MemoryInterface>(c: Cpu<I>, op: AluOp) -> Cpu<I> {
    let (v, c1) = c.fetched_byte();
    alu_done(c1, op, v)
}

fn alu<I: MemoryInterface>(cpu: &mut Cpu<I>, op: AluOp, value: u8)
    ensures
        *final(cpu) == alu_done(*old(cpu), op, value),
{
    let a = cpu.registers.a();
    let f = cpu.registers.f;
    let (result, flags) = match op {
        AluOp::Add => add_8(a, value, false),
        AluOp::Adc => add_8(a, value, f.carry),
        AluOp::Sub => sub_8(a, value, false),
        AluOp::Sbc => sub_8(a, value, f.carry),
        AluOp::And => and_8(a, value),
        AluOp::Xor => xor_8(a, value),
        AluOp::Or => or_8(a, value),
        AluOp::Cp => (a, sub_8(a, value, false).1),
    };
    cpu.registers.set_a(result);
    cpu.registers.set_f(flags);
}

fn alu_r8<I: MemoryInterface>(cpu: &mut Cpu<I>, op: AluOp)
    ensures
        *final(cpu) == alu_r8_done(*old(cpu), op),
{
    proof {
        lemma_opcode_fields(cpu.opcode);
    }
    let operand = cpu.opcode & 0b0000_0111;
    let register = R8::from(operand);
    let value = cpu.load_r8(register);
    alu(cpu, op, value);
}

fn alu_imm8<I: MemoryInterface>(cpu: &mut Cpu<I>, op: AluOp)
    ensures
        *final(cpu) == alu_imm8_done(*old(cpu), op),
{
    let value = cpu.fetch_byte();
    alu(cpu, op, value);
}

/// The CPU after `LD r16, n16`.
pub open spec fn ld_r16_imm16_done<I: MemoryInterface>(c: Cpu<I>) -> Cpu<I> {
    let (w, c1) = c.fetched_word();
    c1.with_registers(set_reg16(c1.registers, r16_of(bits_5_4(c.opcode)), w))
}

/// `LD r16, n16`.
pub fn ld_r16_imm16<I: MemoryInterface>(cpu: &mut Cpu<I>)
    requires
        old(cpu).registers.pc < 0xFFFF,
    ensures
        *final(cpu) == ld_r16_imm16_done(*old(cpu)),
{
    proof {
        lemma_opcode_fields(cpu.opcode);
    }
    let destination = (cpu.opcode & 0b0011_0000) >> 4;
    let value = cpu.fetch_word();
    R16::from(destination).store(&mut cpu.registers, value);
}

/// The CPU after `LD [r16mem], A`.
pub open spec fn ld_r16mem_a_done<I: MemoryInterface>(c: Cpu<I>) -> Cpu<I> {
    let m = r16mem_of(bits_5_4(c.opcode));
    (Cpu {
        bus: c.bus.stored(r16mem_address(c.registers, m), c.registers.a, true),
        registers: r16mem_after(c.registers, m),
        ..c
    })
}

/// `LD [r16mem], A`.
pub fn ld_r16mem_a<I: MemoryInterface>(cpu: &mut Cpu<I>)
    ensures
        *final(cpu) == ld_r16mem_a_done(*old(cpu)),
{
    proof {
        lemma_opcode_fields(cpu.opcode);
    }
    let destination = (cpu.opcode & 0b0011_0000) >> 4;
    let address = R16Memory::from(destination).load(&mut cpu.registers);
    cpu.bus.store_8(address, cpu.registers.a(), true);
}

/// The CPU after `LD A, [r16mem]`.
pub open spec fn ld_a_r16mem_done<I: MemoryInterface>(c: Cpu<I>) -> Cpu<I> {
    let m = r16mem_of(bits_5_4(c.opcode));
    let address = r16mem_address(c.registers, m);
    (Cpu {
        bus: c.bus.loaded(address, true),
        registers: Registers { a: c.bus.peek(address), ..r16mem_after(c.registers, m) },
        ..c
    })
}

/// `LD A, [r16mem]`.
pub fn ld_a_r16mem<I: MemoryInterface>(cpu: &mut Cpu<I>)
    ensures
        *final(cpu) == ld_a_r16mem_done(*old(cpu)),
{
    proof {
        lemma_opcode_fields(cpu.opcode);
    }
    let source = (cpu.opcode & 0b0011_0000) >> 4;
    let address = R16Memory::from(source).load(&mut cpu.registers);
    let byte = cpu.bus.load_8(address, true);
    cpu.registers.set_a(byte);
}

/// The CPU after `LD [n16], SP`.
pub open spec fn ld_imm16_sp_done<I: MemoryInterface>(c: Cpu<I>) -> Cpu<I> {
    let (address, c1) = c.fetched_word();
    let sp = c1.registers.sp;
    c1.with_bus(
        c1.bus.stored(address, (sp % 256) as u8, true).stored((address + 1) as u16, (sp / 256) as u8, true),
    )
}

/// `LD [n16], SP`.
pub fn ld_imm16_sp<I: MemoryInterface>(cpu: &mut Cpu<I>)
    requires
        old(cpu).registers.pc < 0xFFFF,
        old(cpu).fetched_word().0 < 0xFFFF,
    ensures
        *final(cpu) == ld_imm16_sp_done(*old(cpu)),
{
    let address = cpu.fetch_word();
    cpu.bus.store_16(address, cpu.registers.sp(), true);
}

/// The CPU after `LD r8, n8`.
pub open spec fn ld_r8_imm8_done<I: MemoryInterface>(c: Cpu<I>) -> Cpu<I> {
    let (v, c1) = c.fetched_byte();
    c1.written_r8(r8_of(bits_5_3(c.opcode)), v)
}

/// `LD r8, n8`.
pub fn ld_r8_imm8<I: MemoryInterface>(cpu: &mut Cpu<I>)
    ensures
        *final(cpu) == ld_r8_imm8_done(*old(cpu)),
{
    proof {
        lemma_opcode_fields(cpu.opcode);
    }
    let destination = (cpu.opcode & 0b0011_1000) >> 3;
    let value = cpu.fetch_byte();
    let register = R8::from(destination);
    cpu.write_r8(register, value);
}

/// The CPU after `LD r8, r8`.
pub open spec fn ld_r8_r8_done<I: MemoryInterface>(c: Cpu<I>) -> Cpu<I> {
    let (v, c1) = c.read_r8(r8_of(bits_2_0(c.opcode)));
    c1.written_r8(r8_of(bits_5_3(c.opcode)), v)
}

/// `LD r8, r8`.
pub fn ld_r8_r8<I: MemoryInterface>(cpu: &mut Cpu<I>)
    ensures
        *final(cpu) == ld_r8_r8_done(*old(cpu)),
{
    proof {
        lemma_opcode_fields(cpu.opcode);
    }
    let destination = (cpu.opcode & 0b0011_1000) >> 3;
    let source = cpu.opcode & 0b0000_0111;
    let register1 = R8::from(destination);
    let register2 = R8::from(source);

    let value = cpu.load_r8(register2);
    cpu.write_r8(register1, value);
}

/// The CPU after `LDH [C], A`.
pub open spec fn ldh_cmem_a_done<I: MemoryInterface>(c: Cpu<I>) -> Cpu<I> {
    c.with_bus(c.bus.stored((0xFF00 + c.registers.c) as u16, c.registers.a, true))
}

/// `LDH [C], A`.
pub fn ldh_cmem_a<I: MemoryInterface>(cpu: &mut Cpu<I>)
    ensures
        *final(cpu) == ldh_cmem_a_done(*old(cpu)),
{
    proof {
        crate::bits::lemma_word_join(0, cpu.registers.c);
    }
    let address = 0xFF00 | cpu.registers.c() as u16;
    cpu.bus.store_8(address, cpu.registers.a(), true);
}

/// The CPU after `LDH [n8], A`.
pub open spec fn ldh_imm8mem_a_done<I: MemoryInterface>(c: Cpu<I>) -> Cpu<I> {
    let (v, c1) = c.fetched_byte();
    c1.with_bus(c1.bus.stored((0xFF00 + v) as u16, c1.registers.a, true))
}

/// `LDH [n8], A`.
pub fn ldh_imm8mem_a<I: MemoryInterface>(cpu: &mut Cpu<I>)
    ensures
        *final(cpu) == ldh_imm8mem_a_done(*old(cpu)),
{
    let byte = cpu.fetch_byte();
    proof {
        crate::bits::lemma_word_join(0, byte);
    }
    let address = 0xFF00 | byte as u16;
    cpu.bus.store_8(address, cpu.registers.a(), true);
}

/// The CPU after `LD [n16], A`.
pub open spec fn ld_imm16mem_a_done<I: MemoryInterface>(c: Cpu<I>) -> Cpu<I> {
    let (address, c1) = c.fetched_word();
    c1.with_bus(c1.bus.stored(address, c1.registers.a, true))
}

/// `LD [n16], A`.
pub fn ld_imm16mem_a<I: MemoryInterface>(cpu: &mut Cpu<I>)
    requires
        old(cpu).registers.pc < 0xFFFF,
    ensures
        *final(cpu) == ld_imm16mem_a_done(*old(cpu)),
{
    let address = cpu.fetch_word();
    cpu.bus.store_8(address, cpu.registers.a(), true);
}

/// The CPU after `LDH A, [C]`.
pub open spec fn ldh_a_cmem_done<I: MemoryInterface>(c: Cpu<I>) -> Cpu<I> {
    let address = (0xFF00 + c.registers.c) as u16;
    (Cpu {
        bus: c.bus.loaded(address, true),
        registers: Registers { a: c.bus.peek(address), ..c.registers },
        ..c
    })
}

/// `LDH A, [C]`.
pub fn ldh_a_cmem<I: MemoryInterface>(cpu: &mut Cpu<I>)
    ensures
        *final(cpu) == ldh_a_cmem_done(*old(cpu)),
{
    proof {
        crate::bits::lemma_word_join(0, cpu.registers.c);
    }
    let address = 0xFF00 | cpu.registers.c() as u16;
    let byte = cpu.bus.load_8(address, true);
    cpu.registers.set_a(byte);
}

/// The CPU after `LDH A, [n8]`.
pub open spec fn ldh_a_imm8mem_done<I: MemoryInterface>(c: Cpu<I>) -> Cpu<I> {
    let (v, c1) = c.fetched_byte();
    let address = (0xFF00 + v) as u16;
    (Cpu {
        bus: c1.bus.loaded(address, true),
        registers: Registers { a: c1.bus.peek(address), ..c1.registers },
        ..c1
    })
}

/// `LDH A, [n8]`.
pub fn ldh_a_imm8mem<I: MemoryInterface>(cpu: &mut Cpu<I>)
    ensures
        *final(cpu) == ldh_a_imm8mem_done(*old(cpu)),
{
    let byte = cpu.fetch_byte();
    proof {
        crate::bits::lemma_word_join(0, byte);
    }
    let address = 0xFF00 | byte as u16;
    let byte = cpu.bus.load_8(address, true);
    cpu.registers.set_a(byte);
}

/// The CPU after `LD A, [n16]`.
pub open spec fn ld_a_imm16mem_done<I: MemoryInterface>(c: Cpu<I>) -> Cpu<I> {
    let (address, c1) = c.fetched_word();
    (Cpu {
        bus: c1.bus.loaded(address, true),
        registers: Registers { a: c1.bus.peek(address), ..c1.registers },
        ..c1
    })
}

/// `LD A, [n16]`.
pub fn ld_a_imm16mem<I: MemoryInterface>(cpu: &mut Cpu<I>)
    requires
        old(cpu).registers.pc < 0xFFFF,
    ensures
        *final(cpu) == ld_a_imm16mem_done(*old(cpu)),
{
    let address = cpu.fetch_word();
    let byte = cpu.bus.load_8(address, true);
    cpu.registers.set_a(byte);
}

/// The CPU after `LD HL, SP+e8`.
pub open spec fn ld_hl_sp_plus_signed_imm8_done<I: MemoryInterface>(c: Cpu<I>) -> Cpu<I> {
    let (e, c1) = c.fetched_byte();
    let (r, f) = add_sp_spec(c1.registers.sp, e);
    (Cpu {
        bus: c1.bus.ticked(),
        registers: Registers { h: (r / 256) as u8, l: (r % 256) as u8, f, ..c1.registers },
        ..c1
    })
}

/// `LD HL, SP+e8`.
pub fn ld_hl_sp_plus_signed_imm8<I: MemoryInterface>(cpu: &mut Cpu<I>)
    ensures
        *final(cpu) == ld_hl_sp_plus_signed_imm8_done(*old(cpu)),
{
    let value1 = cpu.registers.sp();
    let value2 = cpu.fetch_byte();
    cpu.bus.m_cycle();
    let (result, flags) = add_sp(value1, value2);
    cpu.registers.set_hl(result);
    cpu.registers.set_f(flags);
}

/// The CPU after `LD SP, HL`.
pub open spec fn ld_sp_hl_done<I: MemoryInterface>(c: Cpu<I>) -> Cpu<I> {
    (Cpu { bus: c.bus.ticked(), registers: Registers { sp: c.hl(), ..c.registers }, ..c })
}

/// `LD SP, HL`.
pub fn ld_sp_hl<I: MemoryInterface>(cpu: &mut Cpu<I>)
    ensures
        *final(cpu) == ld_sp_hl_done(*old(cpu)),
{
    cpu.registers.set_sp(cpu.registers.hl());
    cpu.bus.m_cycle();
}

/// The CPU after `POP r16stk`.
pub open spec fn pop_r16_stk_done<I: MemoryInterface>(c: Cpu<I>) -> Cpu<I> {
    let (v, c1) = c.popped();
    c1.with_registers(set_reg_stk(c1.registers, r16stk_of(bits_5_4(c.opcode)), v))
}

/// `POP r16stk`.
pub fn pop_r16_stk<I: MemoryInterface>(cpu: &mut Cpu<I>)
    requires
        old(cpu).registers.sp < 0xFFFF,
    ensures
        *final(cpu) == pop_r16_stk_done(*old(cpu)),
{
    proof {
        lemma_opcode_fields(cpu.opcode);
    }
    let value = cpu.pop_stack();
    let register = (cpu.opcode & 0b0011_0000) >> 4;
    R16Stack::from(register).store(&mut cpu.registers, value);
}

/// The CPU after `PUSH r16stk`.
pub open spec fn push_r16_stk_done<I: MemoryInterface>(c: Cpu<I>) -> Cpu<I> {
    c.pushed(reg_stk(c.registers, r16stk_of(bits_5_4(c.opcode))))
}

/// `PUSH r16stk`.
pub fn push_r16_stk<I: MemoryInterface>(cpu: &mut Cpu<I>)
    requires
        old(cpu).can_push(),
    ensures
        *final(cpu) == push_r16_stk_done(*old(cpu)),
{
    proof {
        lemma_opcode_fields(cpu.opcode);
    }
    let register = (cpu.opcode & 0b0011_0000) >> 4;
    let value = R16Stack::from(register).load(&cpu.registers);
    cpu.push_stack(value);
}

/// The CPU after `ADD A, r8`.
pub open spec fn add_a_r8_done<I: MemoryInterface>(c: Cpu<I>) -> Cpu<I> {
    alu_r8_done(c, AluOp::Add)
}

/// `ADD A, r8`.
pub fn add_a_r8<I: MemoryInterface>(cpu: &mut Cpu<I>)
    ensures
        *final(cpu) == add_a_r8_done(*old(cpu)),
{
    alu_r8(cpu, AluOp::Add)
}

/// The CPU after `ADD A, n8`.
pub open spec fn add_a_imm8_done<I: MemoryInterface>(c: Cpu<I>) -> Cpu<I> {
    alu_imm8_done(c, AluOp::Add)
}

/// `ADD A, n8`.
pub fn add_a_imm8<I: MemoryInterface>(cpu: &mut Cpu<I>)
    ensures
        *final(cpu) == add_a_imm8_done(*old(cpu)),
{
    alu_imm8(cpu, AluOp::Add)
}

/// The CPU after `ADC A, r8`.
pub open spec fn adc_a_r8_done<I: MemoryInterface>(c: Cpu<I>) -> Cpu<I> {
    alu_r8_done(c, AluOp::Adc)
}

/// `ADC A, r8`.
pub fn adc_a_r8<I: MemoryInterface>(cpu: &mut Cpu<I>)
    ensures
        *final(cpu) == adc_a_r8_done(*old(cpu)),
{
    alu_r8(cpu, AluOp::Adc)
}

/// The CPU after `ADC A, n8`.
pub open spec fn adc_a_imm8_done<I: MemoryInterface>(c: Cpu<I>) -> Cpu<I> {
    alu_imm8_done(c, AluOp::Adc)
}

/// `ADC A, n8`.
pub fn adc_a_imm8<I: MemoryInterface>(cpu: &mut Cpu<I>)
    ensures
        *final(cpu) == adc_a_imm8_done(*old(cpu)),
{
    alu_imm8(cpu, AluOp::Adc)
}

/// The CPU after `SUB A, r8`.
pub open spec fn sub_a_r8_done<I: MemoryInterface>(c: Cpu<I>) -> Cpu<I> {
    alu_r8_done(c, AluOp::Sub)
}

/// `SUB A, r8`.
pub fn sub_a_r8<I: MemoryInterface>(cpu: &mut Cpu<I>)
    ensures
        *final(cpu) == sub_a_r8_done(*old(cpu)),
{
    alu_r8(cpu, AluOp::Sub)
}

/// The CPU after `SUB A, n8`.
pub open spec fn sub_a_imm8_done<I: MemoryInterface>(c: Cpu<I>) -> Cpu<I> {
    alu_imm8_done(c, AluOp::Sub)
}

/// `SUB A, n8`.
pub fn sub_a_imm8<I: MemoryInterface>(cpu: &mut Cpu<I>)
    ensures
        *final(cpu) == sub_a_imm8_done(*old(cpu)),
{
    alu_imm8(cpu, AluOp::Sub)
}

/// The CPU after `SBC A, r8`.
pub open spec fn sbc_a_r8_done<I: MemoryInterface>(c: Cpu<I>) -> Cpu<I> {
    alu_r8_done(c, AluOp::Sbc)
}

/// `SBC A, r8`.
pub fn sbc_a_r8<I: MemoryInterface>(cpu: &mut Cpu<I>)
    ensures
        *final(cpu) == sbc_a_r8_done(*old(cpu)),
{
    alu_r8(cpu, AluOp::Sbc)
}

/// The CPU after `SBC A, n8`.
pub open spec fn sbc_a_imm8_done<I: MemoryInterface>(c: Cpu<I>) -> Cpu<I> {
    alu_imm8_done(c, AluOp::Sbc)
}

/// `SBC A, n8`.
pub fn sbc_a_imm8<I: MemoryInterface>(cpu: &mut Cpu<I>)
    ensures
        *final(cpu) == sbc_a_imm8_done(*old(cpu)),
{
    alu_imm8(cpu, AluOp::Sbc)
}

/// The CPU after `AND A, r8`.
pub open spec fn and_a_r8_done<I: MemoryInterface>(c: Cpu<I>) -> Cpu<I> {
    alu_r8_done(c, AluOp::And)
}

/// `AND A, r8`.
pub fn and_a_r8<I: MemoryInterface>(cpu: &mut Cpu<I>)
    ensures
        *final(cpu) == and_a_r8_done(*old(cpu)),
{
    alu_r8(cpu, AluOp::And)
}

/// The CPU after `AND A, n8`.
pub open spec fn and_a_imm8_done<I: MemoryInterface>(c: Cpu<I>) -> Cpu<I> {
    alu_imm8_done(c, AluOp::And)
}

/// `AND A, n8`.
pub fn and_a_imm8<I: MemoryInterface>(cpu: &mut Cpu<I>)
    ensures
        *final(cpu) == and_a_imm8_done(*old(cpu)),
{
    alu_imm8(cpu, AluOp::And)
}

/// The CPU after `XOR A, r8`.
pub open spec fn xor_a_r8_done<I: MemoryInterface>(c: Cpu<I>) -> Cpu<I> {
    alu_r8_done(c, AluOp::Xor)
}

/// `XOR A, r8`.
pub fn xor_a_r8<I: MemoryInterface>(cpu: &mut Cpu<I>)
    ensures
        *final(cpu) == xor_a_r8_done(*old(cpu)),
{
    alu_r8(cpu, AluOp::Xor)
}

/// The CPU after `XOR A, n8`.
pub open spec fn xor_a_imm8_done<I: MemoryInterface>(c: Cpu<I>) -> Cpu<I> {
    alu_imm8_done(c, AluOp::Xor)
}

/// `XOR A, n8`.
pub fn xor_a_imm8<I: MemoryInterface>(cpu: &mut Cpu<I>)
    ensures
        *final(cpu) == xor_a_imm8_done(*old(cpu)),
{
    alu_imm8(cpu, AluOp::Xor)
}

/// The CPU after `OR A, r8`.
pub open spec fn or_a_r8_done<I: MemoryInterface>(c: Cpu<I>) -> Cpu<I> {
    alu_r8_done(c, AluOp::Or)
}

/// `OR A, r8`.
pub fn or_a_r8<I: MemoryInterface>(cpu: &mut Cpu<I>)
    ensures
        *final(cpu) == or_a_r8_done(*old(cpu)),
{
    alu_r8(cpu, AluOp::Or)
}

/// The CPU after `OR A, n8`.
pub open spec fn or_a_imm8_done<I: MemoryInterface>(c: Cpu<I>) -> Cpu<I> {
    alu_imm8_done(c, AluOp::Or)
}

/// `OR A, n8`.
pub fn or_a_imm8<I: MemoryInterface>(cpu: &mut Cpu<I>)
    ensures
        *final(cpu) == or_a_imm8_done(*old(cpu)),
{
    alu_imm8(cpu, AluOp::Or)
}

/// The CPU after `CP A, r8`.
pub open spec fn cp_a_r8_done<I: MemoryInterface>(c: Cpu<I>) -> Cpu<I> {
    alu_r8_done(c, AluOp::Cp)
}

/// `CP A, r8`.
pub fn cp_a_r8<I: MemoryInterface>(cpu: &mut Cpu<I>)
    ensures
        *final(cpu) == cp_a_r8_done(*old(cpu)),
{
    alu_r8(cpu, AluOp::Cp)
}

/// The CPU after `CP A, n8`.
pub open spec fn cp_a_imm8_done<I: MemoryInterface>(c: Cpu<I>) -> Cpu<I> {
    alu_imm8_done(c, AluOp::Cp)
}

/// `CP A, n8`.
pub fn cp_a_imm8<I: MemoryInterface>(cpu: &mut Cpu<I>)
    ensures
        *final(cpu) == cp_a_imm8_done(*old(cpu)),
{
    alu_imm8(cpu, AluOp::Cp)
}

/// The CPU after `ADD HL, r16`.
pub open spec fn add_hl_r16_done<I: MemoryInterface>(c: Cpu<I>) -> Cpu<I> {
    let (r, f) = add16_spec(c.hl(), reg16(c.registers, r16_of(bits_5_4(c.opcode))), c.registers.f);
    (Cpu {
        bus: c.bus.ticked(),
        registers: Registers { h: (r / 256) as u8, l: (r % 256) as u8, f, ..c.registers },
        ..c
    })
}

/// `ADD HL, r16`.
pub fn add_hl_r16<I: MemoryInterface>(cpu: &mut Cpu<I>)
    ensures
        *final(cpu) == add_hl_r16_done(*old(cpu)),
{
    proof {
        lemma_opcode_fields(cpu.opcode);
    }
    let value1 = cpu.registers.hl();
    let operand = (cpu.opcode & 0b0011_0000) >> 4;
    let value2 = R16::from(operand).load(&cpu.registers);
    let (result, flags) = add_16(value1, value2, cpu.registers.f);
    cpu.bus.m_cycle();

    cpu.registers.set_hl(result);
    cpu.registers.set_f(flags);
}

/// The CPU after `ADD SP, e8`.
pub open spec fn add_sp_signed_imm8_done<I: MemoryInterface>(c: Cpu<I>) -> Cpu<I> {
    let (e, c1) = c.fetched_byte();
    let (r, f) = add_sp_spec(c1.registers.sp, e);
    (Cpu {
        bus: c1.bus.ticked().ticked(),
        registers: Registers { sp: r, f, ..c1.registers },
        ..c1
    })
}

/// `ADD SP, e8`.
pub fn add_sp_signed_imm8<I: MemoryInterface>(cpu: &mut Cpu<I>)
    ensures
        *final(cpu) == add_sp_signed_imm8_done(*old(cpu)),
{
    let value1 = cpu.registers.sp();
    let value2 = cpu.fetch_byte();
    let (result, flags) = add_sp(value1, value2);
    cpu.bus.m_cycle();
    cpu.registers.set_sp(result);
    cpu.bus.m_cycle();
    cpu.registers.set_f(flags);
}

/// The CPU after `INC r16`.
pub open spec fn inc_r16_done<I: MemoryInterface>(c: Cpu<I>) -> Cpu<I> {
    let reg = r16_of(bits_5_4(c.opcode));
    (Cpu {
        bus: c.bus.ticked(),
        registers: set_reg16(c.registers, reg, pc_plus(reg16(c.registers, reg), 1)),
        ..c
    })
}

/// `INC r16`.
pub fn inc_r16<I: MemoryInterface>(cpu: &mut Cpu<I>)
    ensures
        *final(cpu) == inc_r16_done(*old(cpu)),
{
    proof {
        lemma_opcode_fields(cpu.opcode);
    }
    let operand = (cpu.opcode & 0b0011_0000) >> 4;
    let register = R16::from(operand);
    let value = register.load(&cpu.registers).wrapping_add(1);
    assert(value == pc_plus(reg16(cpu.registers, register), 1));
    register.store(&mut cpu.registers, value);
    cpu.bus.m_cycle();
}

/// The CPU after `DEC r16`.
pub open spec fn dec_r16_done<I: MemoryInterface>(c: Cpu<I>) -> Cpu<I> {
    let reg = r16_of(bits_5_4(c.opcode));
    (Cpu {
        bus: c.bus.ticked(),
        registers: set_reg16(c.registers, reg, pc_plus(reg16(c.registers, reg), -1)),
        ..c
    })
}

/// `DEC r16`.
pub fn dec_r16<I: MemoryInterface>(cpu: &mut Cpu<I>)
    ensures
        *final(cpu) == dec_r16_done(*old(cpu)),
{
    proof {
        lemma_opcode_fields(cpu.opcode);
    }
    let operand = (cpu.opcode & 0b0011_0000) >> 4;
    let register = R16::from(operand);
    let value = register.load(&cpu.registers).wrapping_sub(1);
    assert(value == pc_plus(reg16(cpu.registers, register), -1));
    register.store(&mut cpu.registers, value);
    cpu.bus.m_cycle();
}

/// The CPU after `INC r8` or `DEC r8` (`increment`) on the operand in bits
/// 5-3 of the opcode.
pub open spec fn inc_dec_done<I: MemoryInterface>(c: Cpu<I>, increment: bool) -> Cpu<I> {
    let reg = r8_of(bits_5_3(c.opcode));
    let (v, c1) = c.read_r8(reg);
    let (r, f) = if increment { inc_spec(v, c.registers.f) } else { dec_spec(v, c.registers.f) };
    let c2 = c1.written_r8(reg, r);
    c2.with_registers(Registers { f, ..c2.registers })
}

/// The CPU after `INC r8`.
pub open spec fn inc_r8_done<I: MemoryInterface>(c: Cpu<I>) -> Cpu<I> {
    inc_dec_done(c, true)
}

/// `INC r8`.
pub fn inc_r8<I: MemoryInterface>(cpu: &mut Cpu<I>)
    ensures
        *final(cpu) == inc_r8_done(*old(cpu)),
{
    proof {
        lemma_opcode_fields(cpu.opcode);
    }
    let operand = (cpu.opcode & 0b0011_1000) >> 3;
    let register = R8::from(operand);
    let value = cpu.load_r8(register);
    let (result, flags) = inc_8(value, cpu.registers.f);
    cpu.write_r8(register, result);
    cpu.registers.set_f(flags);
}

/// The CPU after `DEC r8`.
pub open spec fn dec_r8_done<I: MemoryInterface>(c: Cpu<I>) -> Cpu<I> {
    inc_dec_done(c, false)
}

/// `DEC r8`.
pub fn dec_r8<I: MemoryInterface>(cpu: &mut Cpu<I>)
    ensures
        *final(cpu) == dec_r8_done(*old(cpu)),
{
    proof {
        lemma_opcode_fields(cpu.opcode);
    }
    let operand = (cpu.opcode & 0b0011_1000) >> 3;
    let register = R8::from(operand);
    let value = cpu.load_r8(register);
    let (result, flags) = dec_8(value, cpu.registers.f);
    cpu.write_r8(register, result);
    cpu.registers.set_f(flags);
}

/// The CPU with A rotated to `r` and the carry `carry` (zero clear).
pub open spec fn rotated_a<I: MemoryInterface>(c: Cpu<I>, r: u8, carry: bool) -> Cpu<I> {
    c.with_registers(Registers { a: r, f: rotate_a_flags(carry), ..c.registers })
}

/// The CPU after `RLCA`.
pub open spec fn rlca_done<I: MemoryInterface>(c: Cpu<I>) -> Cpu<I> {
    rotated_a(c, rlc_spec(c.registers.a).0, rlc_spec(c.registers.a).1)
}

/// `RLCA`.
pub fn rlca<I: MemoryInterface>(cpu: &mut Cpu<I>)
    ensures
        *final(cpu) == rlca_done(*old(cpu)),
{
    let (result, carry) = rlc_8(cpu.registers.a());
    cpu.registers.set_f(Flags { zero: false, subtraction: false, half_carry: false, carry });
    cpu.registers.set_a(result);
}

/// The CPU after `RRCA`.
pub open spec fn rrca_done<I: MemoryInterface>(c: Cpu<I>) -> Cpu<I> {
    rotated_a(c, rrc_spec(c.registers.a).0, rrc_spec(c.registers.a).1)
}

/// `RRCA`.
pub fn rrca<I: MemoryInterface>(cpu: &mut Cpu<I>)
    ensures
        *final(cpu) == rrca_done(*old(cpu)),
{
    let (result, carry) = rrc_8(cpu.registers.a());
    cpu.registers.set_f(Flags { zero: false, subtraction: false, half_carry: false, carry });
    cpu.registers.set_a(result);
}

/// The CPU after `RLA`.
pub open spec fn rla_done<I: MemoryInterface>(c: Cpu<I>) -> Cpu<I> {
    let (r, carry) = rl_spec(c.registers.a, c.registers.f.carry);
    rotated_a(c, r, carry)
}

/// `RLA`.
pub fn rla<I: MemoryInterface>(cpu: &mut Cpu<I>)
    ensures
        *final(cpu) == rla_done(*old(cpu)),
{
    let (result, carry) = rl_8(cpu.registers.a(), cpu.registers.f.carry);
    cpu.registers.set_f(Flags { zero: false, subtraction: false, half_carry: false, carry });
    cpu.registers.set_a(result);
}

/// The CPU after `RRA`.
pub open spec fn rra_done<I: MemoryInterface>(c: Cpu<I>) -> Cpu<I> {
    let (r, carry) = rr_spec(c.registers.a, c.registers.f.carry);
    rotated_a(c, r, carry)
}

/// `RRA`.
pub fn rra<I: MemoryInterface>(cpu: &mut Cpu<I>)
    ensures
        *final(cpu) == rra_done(*old(cpu)),
{
    let (result, carry) = rr_8(cpu.registers.a(), cpu.registers.f.carry);
    cpu.registers.set_f(Flags { zero: false, subtraction: false, half_carry: false, carry });
    cpu.registers.set_a(result);
}

/// The eight rotate and shift operations of the CB-prefixed opcodes.
#[derive(Debug, Clone, Copy, PartialEq, Eq, Structural)]
pub enum ShiftOp {
    Rlc,
    Rrc,
    Rl,
    Rr,
    Sla,
    Sra,
    Swap,
    Srl,
}

/// The result and the carry of a rotate or shift (`SWAP` clears the carry).
pub open spec fn shift_apply(op: ShiftOp, v: u8, carry: bool) -> (u8, bool) {
    match op {
        ShiftOp::Rlc => rlc_spec(v),
        ShiftOp::Rrc => rrc_spec(v),
        ShiftOp::Rl => rl_spec(v, carry),
        ShiftOp::Rr => rr_spec(v, carry),
        ShiftOp::Sla => sla_spec(v),
        ShiftOp::Sra => sra_spec(v),
        ShiftOp::Swap => (swap_spec(v), false),
        ShiftOp::Srl => srl_spec(v),
    }
}

/// The CPU after a rotate or shift on the operand in bits 2-0 of `opcode`.
pub open spec fn shift_done<I: MemoryInterface>(c: Cpu<I>, op: ShiftOp, opcode: u8) -> Cpu<I> {
    let reg = r8_of(bits_2_0(opcode));
    let (v, c1) = c.read_r8(reg);
    let (r, carry) = shift_apply(op, v, c.registers.f.carry);
    let c2 = c1.written_r8(reg, r);
    c2.with_registers(Registers { f: rotate_flags(r, carry), ..c2.registers })
}

fn shift_r8<I: MemoryInterface>(cpu: &mut Cpu<I>, op: ShiftOp, opcode: u8)
    ensures
        *final(cpu) == shift_done(*old(cpu), op, opcode),
{
    proof {
        lemma_opcode_fields(opcode);
    }
    let operand = opcode & 0b0000_0111;
    let register = R8::from(operand);
    let value = cpu.load_r8(register);
    let carry_in = cpu.registers.f.carry;
    let (result, carry) = match op {
        ShiftOp::Rlc => rlc_8(value),
        ShiftOp::Rrc => rrc_8(value),
        ShiftOp::Rl => rl_8(value, carry_in),
        ShiftOp::Rr => rr_8(value, carry_in),
        ShiftOp::Sla => sla_8(value),
        ShiftOp::Sra => sra_8(value),
        ShiftOp::Swap => (swap_8(value), false),
        ShiftOp::Srl => srl_8(value),
    };
    cpu.write_r8(register, result);
    set_rotate_shift_flags(cpu, result, carry);
}

/// `RLC r8`.
pub fn rlc_r8<I: MemoryInterface>(cpu: &mut Cpu<I>, opcode: u8)
    ensures
        *final(cpu) == shift_done(*old(cpu), ShiftOp::Rlc, opcode),
{
    shift_r8(cpu, ShiftOp::Rlc, opcode)
}

/// `RRC r8`.
pub fn rrc_r8<I: MemoryInterface>(cpu: &mut Cpu<I>, opcode: u8)
    ensures
        *final(cpu) == shift_done(*old(cpu), ShiftOp::Rrc, opcode),
{
    shift_r8(cpu, ShiftOp::Rrc, opcode)
}

/// `RL r8`.
pub fn rl_r8<I: MemoryInterface>(cpu: &mut Cpu<I>, opcode: u8)
    ensures
        *final(cpu) == shift_done(*old(cpu), ShiftOp::Rl, opcode),
{
    shift_r8(cpu, ShiftOp::Rl, opcode)
}

/// `RR r8`.
pub fn rr_r8<I: MemoryInterface>(cpu: &mut Cpu<I>, opcode: u8)
    ensures
        *final(cpu) == shift_done(*old(cpu), ShiftOp::Rr, opcode),
{
    shift_r8(cpu, ShiftOp::Rr, opcode)
}

/// `SLA r8`.
pub fn sla_r8<I: MemoryInterface>(cpu: &mut Cpu<I>, opcode: u8)
    ensures
        *final(cpu) == shift_done(*old(cpu), ShiftOp::Sla, opcode),
{
    shift_r8(cpu, ShiftOp::Sla, opcode)
}

/// `SRA r8`.
pub fn sra_r8<I: MemoryInterface>(cpu: &mut Cpu<I>, opcode: u8)
    ensures
        *final(cpu) == shift_done(*old(cpu), ShiftOp::Sra, opcode),
{
    shift_r8(cpu, ShiftOp::Sra, opcode)
}

/// `SWAP r8`.
pub fn swap_r8<I: MemoryInterface>(cpu: &mut Cpu<I>, opcode: u8)
    ensures
        *final(cpu) == shift_done(*old(cpu), ShiftOp::Swap, opcode),
{
    shift_r8(cpu, ShiftOp::Swap, opcode)
}

/// `SRL r8`.
pub fn srl_r8<I: MemoryInterface>(cpu: &mut Cpu<I>, opcode: u8)
    ensures
        *final(cpu) == shift_done(*old(cpu), ShiftOp::Srl, opcode),
{
    shift_r8(cpu, ShiftOp::Srl, opcode)
}

/// Sets the flags of a rotate or shift: zero from the result, the carry
/// given, subtraction and half carry clear.
fn set_rotate_shift_flags<I: MemoryInterface>(cpu: &mut Cpu<I>, result: u8, carry: bool)
    ensures
        *final(cpu) == old(cpu).with_registers(Registers { f: rotate_flags(result, carry), ..old(cpu).registers }),
{
    cpu.registers.set_f(Flags { zero: result == 0, subtraction: false, half_carry: false, carry });
}

/// The CPU after `JR e8` from `c` (the offset already read): PC moves by
/// the signed offset, and an internal M-cycle passes.
pub open spec fn jumped_relative<I: MemoryInterface>(c: Cpu<I>, e: u8) -> Cpu<I> {
    Cpu {
        bus: c.bus.ticked(),
        registers: Registers { pc: pc_plus(c.registers.pc, sign_extended(e) as int), ..c.registers },
        ..c
    }
}

/// The CPU after `JR e8`.
pub open spec fn jr_signed_imm8_done<I: MemoryInterface>(c: Cpu<I>) -> Cpu<I> {
    let (e, c1) = c.fetched_byte();
    jumped_relative(c1, e)
}

/// `JR e8`.
pub fn jr_signed_imm8<I: MemoryInterface>(cpu: &mut Cpu<I>)
    ensures
        *final(cpu) == jr_signed_imm8_done(*old(cpu)),
{
    let signed = cpu.fetch_byte();
    cpu.registers.set_pc(cpu.registers.pc().wrapping_add(sign_extend(signed)));
    cpu.bus.m_cycle();
}

/// The signed value of a byte.
pub open spec fn signed_byte(e: u8) -> int {
    if e < 128 {
        e as int
    } else {
        e - 256
    }
}

/// The signed value of a word.
pub open spec fn signed_word(w: u16) -> int {
    if w < 0x8000 {
        w as int
    } else {
        w - 65536
    }
}

/// The condition in bits 4-3 of the opcode holds.
pub open spec fn condition_met<I: MemoryInterface>(c: Cpu<I>) -> bool {
    holds(condition_of(bits_4_3(c.opcode)), c.registers.f)
}

/// The CPU after `JR cc, e8`.
pub open spec fn jr_cond_signed_imm8_done<I: MemoryInterface>(c: Cpu<I>) -> Cpu<I> {
    if condition_met(c) {
        let (e, c1) = c.fetched_byte();
        jumped_relative(c1, e)
    } else {
        (Cpu {
            bus: c.bus.ticked(),
            registers: Registers { pc: (c.registers.pc + 1) as u16, ..c.registers },
            ..c
        })
    }
}

/// `JR cc, e8`: with the condition met, PC moves by the signed offset after
/// it (a sixteen-bit signed addition, which must not overflow); otherwise
/// PC skips the offset. An internal M-cycle passes either way.
pub fn jr_cond_signed_imm8<I: MemoryInterface>(cpu: &mut Cpu<I>)
    requires
        condition_met(*old(cpu)) ==> ({
            let (e, c1) = old(cpu).fetched_byte();
            -32768 <= signed_word(c1.registers.pc) + signed_byte(e) <= 32767
        }),
        !condition_met(*old(cpu)) ==> old(cpu).registers.pc < 0xFFFF,
    ensures
        *final(cpu) == jr_cond_signed_imm8_done(*old(cpu)),
{
    proof {
        lemma_opcode_fields(cpu.opcode);
    }
    let cond = (cpu.opcode & 0b0001_1000) >> 3;
    let jump = Condition::from(cond).test(&cpu.registers.f);

    if jump {
        let signed_byte = cpu.fetch_byte();
        cpu.registers.set_pc(cpu.registers.pc().wrapping_add(sign_extend(signed_byte)));
    } else {
        cpu.registers.set_pc(cpu.registers.pc() + 1);
    }
    cpu.bus.m_cycle();
}

/// The CPU after `JP cc, n16`.
pub open spec fn jp_cond_imm16_done<I: MemoryInterface>(c: Cpu<I>) -> Cpu<I> {
    let (w, c1) = c.fetched_word();
    if condition_met(c) {
        (Cpu { bus: c1.bus.ticked(), registers: Registers { pc: w, ..c1.registers }, ..c1 })
    } else {
        c1
    }
}

/// `JP cc, n16`: the address is read either way; with the condition met PC
/// takes it after an internal M-cycle.
pub fn jp_cond_imm16<I: MemoryInterface>(cpu: &mut Cpu<I>)
    requires
        old(cpu).registers.pc < 0xFFFF,
    ensures
        *final(cpu) == jp_cond_imm16_done(*old(cpu)),
{
    proof {
        lemma_opcode_fields(cpu.opcode);
    }
    let cond = (cpu.opcode & 0b0001_1000) >> 3;
    let jump = Condition::from(cond).test(&cpu.registers.f);

    let word = cpu.fetch_word();
    if jump {
        cpu.registers.set_pc(word);
        cpu.bus.m_cycle();
    }
}

/// The CPU after `JP n16`.
pub open spec fn jp_imm16_done<I: MemoryInterface>(c: Cpu<I>) -> Cpu<I> {
    let (w, c1) = c.fetched_word();
    (Cpu { bus: c1.bus.ticked(), registers: Registers { pc: w, ..c1.registers }, ..c1 })
}

/// `JP n16`.
pub fn jp_imm16<I: MemoryInterface>(cpu: &mut Cpu<I>)
    requires
        old(cpu).registers.pc < 0xFFFF,
    ensures
        *final(cpu) == jp_imm16_done(*old(cpu)),
{
    let word = cpu.fetch_word();
    cpu.registers.set_pc(word);
    cpu.bus.m_cycle();
}

/// The CPU after `JP HL`.
pub open spec fn jp_hl_done<I: MemoryInterface>(c: Cpu<I>) -> Cpu<I> {
    c.with_registers(Registers { pc: c.hl(), ..c.registers })
}

/// `JP HL`.
pub fn jp_hl<I: MemoryInterface>(cpu: &mut Cpu<I>)
    ensures
        *final(cpu) == jp_hl_done(*old(cpu)),
{
    let hl = cpu.registers.hl();
    cpu.registers.set_pc(hl);
}

/// The CPU after a return: PC popped, then an internal M-cycle.
pub open spec fn returned<I: MemoryInterface>(c: Cpu<I>) -> Cpu<I> {
    let (v, c1) = c.popped();
    Cpu { bus: c1.bus.ticked(), registers: Registers { pc: v, ..c1.registers }, ..c1 }
}

/// The CPU after `RET cc`.
pub open spec fn ret_cond_done<I: MemoryInterface>(c: Cpu<I>) -> Cpu<I> {
    let c1 = if condition_met(c) { returned(c) } else { c };
    c1.with_bus(c1.bus.ticked())
}

/// `RET cc`: an internal M-cycle for the condition, and a return when it is
/// met.
pub fn ret_cond<I: MemoryInterface>(cpu: &mut Cpu<I>)
    requires
        condition_met(*old(cpu)) ==> old(cpu).registers.sp < 0xFFFF,
    ensures
        *final(cpu) == ret_cond_done(*old(cpu)),
{
    proof {
        lemma_opcode_fields(cpu.opcode);
    }
    let cond = (cpu.opcode & 0b0001_1000) >> 3;
    let ret = Condition::from(cond).test(&cpu.registers.f);

    if ret {
        let pop_stack = cpu.pop_stack();
        cpu.registers.set_pc(pop_stack);
        cpu.bus.m_cycle();
    }
    cpu.bus.m_cycle();
}

/// The CPU after `RET`.
pub open spec fn ret_done<I: MemoryInterface>(c: Cpu<I>) -> Cpu<I> {
    returned(c)
}

/// `RET`.
pub fn ret<I: MemoryInterface>(cpu: &mut Cpu<I>)
    requires
        old(cpu).registers.sp < 0xFFFF,
    ensures
        *final(cpu) == ret_done(*old(cpu)),
{
    let pop_stack = cpu.pop_stack();
    cpu.registers.set_pc(pop_stack);
    cpu.bus.m_cycle();
}

/// The CPU after `RETI`.
pub open spec fn reti_done<I: MemoryInterface>(c: Cpu<I>) -> Cpu<I> {
    (Cpu { interrupt_master_enable: true, ..returned(c) })
}

/// `RETI`: a return that enables interrupts at once.
pub fn reti<I: MemoryInterface>(cpu: &mut Cpu<I>)
    requires
        old(cpu).registers.sp < 0xFFFF,
    ensures
        *final(cpu) == reti_done(*old(cpu)),
{
    let pop_stack = cpu.pop_stack();
    cpu.registers.set_pc(pop_stack);
    cpu.bus.m_cycle();
    cpu.interrupt_master_enable = true;
}

/// The CPU after `CALL cc, n16`.
pub open spec fn call_cond_imm16_done<I: MemoryInterface>(c: Cpu<I>) -> Cpu<I> {
    let (w, c1) = c.fetched_word();
    if condition_met(c) {
        let c2 = c1.pushed(c1.registers.pc);
        c2.with_registers(Registers { pc: w, ..c2.registers })
    } else {
        c1
    }
}

/// `CALL cc, n16`: the address is read either way; with the condition met
/// the address after it is pushed and PC takes the target.
pub fn call_cond_imm16<I: MemoryInterface>(cpu: &mut Cpu<I>)
    requires
        old(cpu).registers.pc < 0xFFFF,
        condition_met(*old(cpu)) ==> old(cpu).can_push(),
    ensures
        *final(cpu) == call_cond_imm16_done(*old(cpu)),
{
    proof {
        lemma_opcode_fields(cpu.opcode);
    }
    let cond = (cpu.opcode & 0b0001_1000) >> 3;
    let call = Condition::from(cond).test(&cpu.registers.f);

    let word = cpu.fetch_word();
    if call {
        cpu.push_stack(cpu.registers.pc());
        cpu.registers.set_pc(word);
    }
}

/// The CPU after `CALL n16`.
pub open spec fn call_imm16_done<I: MemoryInterface>(c: Cpu<I>) -> Cpu<I> {
    let c1 = c.pushed((c.registers.pc + 2) as u16);
    let (w, c2) = c1.fetched_word();
    c2.with_registers(Registers { pc: w, ..c2.registers })
}

/// `CALL n16`: the address after the operand is pushed first, then the
/// target is read and PC takes it.
pub fn call_imm16<I: MemoryInterface>(cpu: &mut Cpu<I>)
    requires
        old(cpu).registers.pc < 0xFFFE,
        old(cpu).can_push(),
    ensures
        *final(cpu) == call_imm16_done(*old(cpu)),
{
    cpu.push_stack(cpu.registers.pc() + 2);
    let word = cpu.fetch_word();
    cpu.registers.set_pc(word);
}

/// The CPU after `RST vec`.
pub open spec fn rst_tgt3_done<I: MemoryInterface>(c: Cpu<I>) -> Cpu<I> {
    let c1 = c.pushed(c.registers.pc);
    c1.with_registers(
        Registers { pc: (bits_5_3(c.opcode) * 8) as u16, ..c1.registers },
    )
}

/// `RST vec`: PC is pushed and takes the vector in bits 5-3 (times 8).
pub fn rst_tgt3<I: MemoryInterface>(cpu: &mut Cpu<I>)
    requires
        old(cpu).can_push(),
    ensures
        *final(cpu) == rst_tgt3_done(*old(cpu)),
{
    proof {
        lemma_opcode_fields(cpu.opcode);
    }
    cpu.push_stack(cpu.registers.pc());
    let target = cpu.opcode & 0b0011_1000;
    cpu.registers.set_pc(target as u16);
}

/// The condition of a conditional jump, call or return, by bits 4-3 of the
/// opcode: 00 not zero, 01 zero, 10 no carry, 11 carry.
pub proof fn lemma_condition_codes<I: MemoryInterface>(c: Cpu<I>)
    ensures
        condition_met(c) <==> (if c.opcode & 0x18 == 0x00 {
            !c.registers.f.zero
        } else if c.opcode & 0x18 == 0x08 {
            c.registers.f.zero
        } else if c.opcode & 0x18 == 0x10 {
            !c.registers.f.carry
        } else {
            c.registers.f.carry
        }),
{
    lemma_opcode_fields(c.opcode);
    let op = c.opcode;
    assert(((op & 0x18) >> 3 == 0 <==> op & 0x18 == 0x00) && ((op & 0x18) >> 3 == 1 <==> op & 0x18 == 0x08)
        && ((op & 0x18) >> 3 == 2 <==> op & 0x18 == 0x10)) by (bit_vector);
}

/// A taken relative jump adds the offset byte, read as a signed number
/// from -128 to 127, to the address after it (modulo 65536); `JR e8` always
/// jumps, from just after its operand.
pub proof fn lemma_relative_jump<I: MemoryInterface>(c: Cpu<I>, e: u8)
    ensures
        jumped_relative(c, e).registers.pc == (c.registers.pc + (if e < 128 { e as int } else { e - 256 }))
            % 65536,
        jr_signed_imm8_done(c).registers.pc == (c.registers.pc + 1 + (if c.bus.peek(c.registers.pc) < 128 {
            c.bus.peek(c.registers.pc) as int
        } else {
            c.bus.peek(c.registers.pc) - 256
        })) % 65536,
{
}

/// A `RET` after `CALL n16`, on a bus that keeps writes, comes back to the
/// address after the call's operand, with SP where it was.
pub proof fn lemma_call_then_return<I: MemoryInterface>(c: Cpu<I>)
    requires
        super::keeps_writes::<I>(),
        c.can_push(),
    ensures
        returned(call_imm16_done(c)).registers.pc == (c.registers.pc + 2) as u16,
        returned(call_imm16_done(c)).registers.sp == c.registers.sp,
{
    let ret = (c.registers.pc + 2) as u16;
    let c1 = c.pushed(ret);
    super::lemma_pop_after_push(c, ret);
    let (w, c2) = c1.fetched_word();
    let c3 = call_imm16_done(c);
    let pc1 = c1.registers.pc;
    assert(forall|x: u16| #[trigger] c2.bus.peek(x) == c1.bus.peek(x)) by {
        assert forall|x: u16| #[trigger] c2.bus.peek(x) == c1.bus.peek(x) by {
            assert(c1.bus.loaded(pc1, true).loaded(pc_plus(pc1, 1), true).peek(x) == c1.bus.loaded(pc1, true).peek(x));
            assert(c1.bus.loaded(pc1, true).peek(x) == c1.bus.peek(x));
        }
    }
    let sp = c1.registers.sp;
    assert(c3.bus == c2.bus);
    assert(c3.registers.sp == sp);
    assert(c3.bus.loaded(sp, true).peek(pc_plus(sp, 1)) == c3.bus.peek(pc_plus(sp, 1)));
    assert(c1.bus.loaded(sp, true).peek(pc_plus(sp, 1)) == c1.bus.peek(pc_plus(sp, 1)));
    assert(c3.popped().0 == c1.popped().0);
}

/// `RST` jumps to its restart vector, 8 times bits 5-3 of the opcode (one
/// of 0x00, 0x08, ..., 0x38; `RST 28h`, opcode 0xEF, goes to 0x0028), with
/// SP two lower; on a bus that keeps writes, the word on top of the stack is
/// the address the instruction was to return to.
pub proof fn lemma_rst_jumps_to_vector<I: MemoryInterface>(c: Cpu<I>)
    ensures
        rst_tgt3_done(c).registers.pc == (c.opcode & 0x38) as u16,
        rst_tgt3_done(c).registers.pc == 8 * ((c.opcode >> 3) & 7),
        rst_tgt3_done(c).registers.pc % 8 == 0,
        rst_tgt3_done(c).registers.pc <= 0x38,
        c.opcode == 0xEF ==> rst_tgt3_done(c).registers.pc == 0x0028,
        rst_tgt3_done(c).registers.sp == pc_plus(c.registers.sp, -2),
        super::keeps_writes::<I>() && c.can_push() ==> rst_tgt3_done(c).popped().0 == c.registers.pc,
{
    lemma_opcode_fields(c.opcode);
    let op = c.opcode;
    assert((op >> 3) & 7 == (op & 0x38) >> 3 && (op & 0x38) == ((op & 0x38) >> 3) * 8) by (bit_vector);
    if super::keeps_writes::<I>() && c.can_push() {
        super::lemma_pop_after_push(c, c.registers.pc);
    }
}

/// The CPU after `BIT`, `RES` or `SET` (by `opcode / 64`: 1, 2, 3) on bit
/// `bits_5_3(opcode)` of the operand in bits 2-0.
pub open spec fn bit_op_done<I: MemoryInterface>(c: Cpu<I>, opcode: u8) -> Cpu<I> {
    let reg = r8_of(bits_2_0(opcode));
    let n = bits_5_3(opcode);
    let (v, c1) = c.read_r8(reg);
    if opcode / 64 == 1 {
        c1.with_registers(
            Registers { f: flags(v & (1u8 << n) == 0, false, true, c.registers.f.carry), ..c1.registers },
        )
    } else if opcode / 64 == 2 {
        c1.written_r8(reg, v & !(1u8 << n))
    } else {
        c1.written_r8(reg, v | (1u8 << n))
    }
}

/// `BIT n, r8`.
pub fn bit_b3_r8<I: MemoryInterface>(cpu: &mut Cpu<I>, opcode: u8)
    requires
        opcode / 64 == 1,
    ensures
        *final(cpu) == bit_op_done(*old(cpu), opcode),
{
    proof {
        lemma_opcode_fields(opcode);
    }
    let operand = opcode & 0b0000_0111;
    let register = R8::from(operand);
    let value = cpu.load_r8(register);
    let bit_index = (opcode & 0b0011_1000) >> 3;

    let f = bit_flags(bit_index, value, cpu.registers.f);
    cpu.registers.set_f(f);
}

/// `RES n, r8`.
pub fn res_b3_r8<I: MemoryInterface>(cpu: &mut Cpu<I>, opcode: u8)
    requires
        opcode / 64 == 2,
    ensures
        *final(cpu) == bit_op_done(*old(cpu), opcode),
{
    proof {
        lemma_opcode_fields(opcode);
    }
    let operand = opcode & 0b0000_0111;
    let register = R8::from(operand);
    let value = cpu.load_r8(register);
    let bit_index = (opcode & 0b0011_1000) >> 3;
    cpu.write_r8(register, res_bit(bit_index, value));
}

/// `SET n, r8`.
pub fn set_b3_r8<I: MemoryInterface>(cpu: &mut Cpu<I>, opcode: u8)
    requires
        opcode / 64 == 3,
    ensures
        *final(cpu) == bit_op_done(*old(cpu), opcode),
{
    proof {
        lemma_opcode_fields(opcode);
    }
    let operand = opcode & 0b0000_0111;
    let register = R8::from(operand);
    let value = cpu.load_r8(register);
    let bit_index = (opcode & 0b0011_1000) >> 3;
    cpu.write_r8(register, set_bit(bit_index, value));
}

/// The CPU after `DAA`.
pub open spec fn daa_done<I: MemoryInterface>(c: Cpu<I>) -> Cpu<I> {
    let (a, f) = daa_spec(c.registers.a, c.registers.f);
    c.with_registers(Registers { a, f, ..c.registers })
}

/// `DAA`.
pub fn daa<I: MemoryInterface>(cpu: &mut Cpu<I>)
    ensures
        *final(cpu) == daa_done(*old(cpu)),
{
    let (a, f) = daa_8(cpu.registers.a(), cpu.registers.f);
    cpu.registers.set_f(f);
    cpu.registers.set_a(a);
}

/// The CPU after `CPL`.
pub open spec fn cpl_done<I: MemoryInterface>(c: Cpu<I>) -> Cpu<I> {
    c.with_registers(
        Registers {
            a: (255 - c.registers.a) as u8,
            f: flags(c.registers.f.zero, true, true, c.registers.f.carry),
            ..c.registers
        },
    )
}

/// `CPL`.
pub fn cpl<I: MemoryInterface>(cpu: &mut Cpu<I>)
    ensures
        *final(cpu) == cpl_done(*old(cpu)),
{
    let (a, f) = cpl_8(cpu.registers.a(), cpu.registers.f);
    cpu.registers.set_a(a);
    cpu.registers.set_f(f);
}

/// The CPU after `SCF`.
pub open spec fn scf_done<I: MemoryInterface>(c: Cpu<I>) -> Cpu<I> {
    c.with_registers(
        Registers { f: flags(c.registers.f.zero, false, false, true), ..c.registers },
    )
}

/// `SCF`.
pub fn scf<I: MemoryInterface>(cpu: &mut Cpu<I>)
    ensures
        *final(cpu) == scf_done(*old(cpu)),
{
    let f = scf_flags(cpu.registers.f);
    cpu.registers.set_f(f);
}

/// The CPU after `CCF`.
pub open spec fn ccf_done<I: MemoryInterface>(c: Cpu<I>) -> Cpu<I> {
    c.with_registers(
        Registers { f: flags(c.registers.f.zero, false, false, !c.registers.f.carry), ..c.registers },
    )
}

/// `CCF`.
pub fn ccf<I: MemoryInterface>(cpu: &mut Cpu<I>)
    ensures
        *final(cpu) == ccf_done(*old(cpu)),
{
    let f = ccf_flags(cpu.registers.f);
    cpu.registers.set_f(f);
}

/// The CPU after `STOP`.
pub open spec fn stop_done<I: MemoryInterface>(c: Cpu<I>) -> Cpu<I> {
    c.with_bus(c.bus.speed_switched())
}

/// `STOP`: used to switch speed.
pub fn stop<I: MemoryInterface>(cpu: &mut Cpu<I>)
    ensures
        *final(cpu) == stop_done(*old(cpu)),
{
    cpu.bus.change_speed();
}

/// The CPU after `HALT`.
pub open spec fn halt_done<I: MemoryInterface>(c: Cpu<I>) -> Cpu<I> {
    (Cpu {
    halted: true,
    halt_bug: c.bus.pending() != 0 && !c.interrupt_master_enable,
    ..c
})
}

/// `HALT`: the CPU halts; with an interrupt pending while interrupts are
/// disabled, the halt bug repeats the next byte.
pub fn halt<I: MemoryInterface>(cpu: &mut Cpu<I>)
    ensures
        *final(cpu) == halt_done(*old(cpu)),
{
    cpu.halted = true;
    cpu.halt_bug = cpu.bus.pending_interrupt() != 0 && !cpu.interrupt_master_enable
}

/// The CPU after `DI`.
pub open spec fn di_done<I: MemoryInterface>(c: Cpu<I>) -> Cpu<I> {
    (Cpu { disable_interrupt_delay: 2, ..c })
}

/// `DI`: interrupts are disabled after the next instruction.
pub fn di<I: MemoryInterface>(cpu: &mut Cpu<I>)
    ensures
        *final(cpu) == di_done(*old(cpu)),
{
    cpu.disable_interrupt_delay = 2;
}

/// The CPU after `EI`.
pub open spec fn ei_done<I: MemoryInterface>(c: Cpu<I>) -> Cpu<I> {
    (Cpu { enable_interrupt_delay: 2, ..c })
}

/// `EI`: interrupts are enabled after the next instruction.
pub fn ei<I: MemoryInterface>(cpu: &mut Cpu<I>)
    ensures
        *final(cpu) == ei_done(*old(cpu)),
{
    cpu.enable_interrupt_delay = 2;
}

/// The CPU after the CB-prefixed instruction `opcode`.
pub open spec fn prefixed_done<I: MemoryInterface>(c: Cpu<I>, opcode: u8) -> Cpu<I> {
    if opcode / 64 != 0 {
        bit_op_done(c, opcode)
    } else {
        let op = bits_5_3(opcode);
        let shift = if op == 0 {
            ShiftOp::Rlc
        } else if op == 1 {
            ShiftOp::Rrc
        } else if op == 2 {
            ShiftOp::Rl
        } else if op == 3 {
            ShiftOp::Rr
        } else if op == 4 {
            ShiftOp::Sla
        } else if op == 5 {
            ShiftOp::Sra
        } else if op == 6 {
            ShiftOp::Swap
        } else {
            ShiftOp::Srl
        };
        shift_done(c, shift, opcode)
    }
}

/// The CPU after `PREFIX`.
pub open spec fn prefix_done<I: MemoryInterface>(c: Cpu<I>) -> Cpu<I> {
    let (opcode, c1) = c.fetched_byte();
    prefixed_done(c1, opcode)
}

/// `PREFIX`: reads the CB-prefixed opcode and executes it.
pub fn prefix<I: MemoryInterface>(cpu: &mut Cpu<I>)
    ensures
        *final(cpu) == prefix_done(*old(cpu)),
{
    let opcode = cpu.fetch_byte();
    proof {
        lemma_opcode_fields(opcode);
    }
    let operation = (opcode & 0b1100_0000) >> 6;
    match operation {
        0b01 => bit_b3_r8(cpu, opcode),
        0b10 => res_b3_r8(cpu, opcode),
        0b11 => set_b3_r8(cpu, opcode),
        _ => {
            let operation = (opcode & 0b0011_1000) >> 3;
            match operation {
                0b000 => rlc_r8(cpu, opcode),
                0b001 => rrc_r8(cpu, opcode),
                0b010 => rl_r8(cpu, opcode),
                0b011 => rr_r8(cpu, opcode),
                0b100 => sla_r8(cpu, opcode),
                0b101 => sra_r8(cpu, opcode),
                0b110 => swap_r8(cpu, opcode),
                _ => srl_r8(cpu, opcode),
            }
        },
    }
}

/// Whether the current instruction can run from `c` without running past
/// the top of memory (or, for `JR cc`, overflowing its signed addition).
pub open spec fn can_execute<I: MemoryInterface>(c: Cpu<I>) -> bool {
    let pc = c.registers.pc;
    match c.instruction {
        Instruction::LdR16Imm16 | Instruction::LdImm16MemA | Instruction::LdAImm16Mem | Instruction::JpCondImm16
        | Instruction::JpImm16 => pc < 0xFFFF,
        Instruction::LdImm16Sp => pc < 0xFFFF && c.fetched_word().0 < 0xFFFF,
        Instruction::CallCondImm16 => pc < 0xFFFF && (condition_met(c) ==> c.can_push()),
        Instruction::CallImm16 => pc < 0xFFFE && c.can_push(),
        Instruction::PopR16Stk | Instruction::Ret | Instruction::Reti => c.registers.sp < 0xFFFF,
        Instruction::RetCond => condition_met(c) ==> c.registers.sp < 0xFFFF,
        Instruction::PushR16Stk | Instruction::RstTgt3 => c.can_push(),
        Instruction::JrCondSignedImm8 => {
            &&& condition_met(c) ==> ({
                let (e, c1) = c.fetched_byte();
                -32768 <= signed_word(c1.registers.pc) + signed_byte(e) <= 32767
            })
            &&& !condition_met(c) ==> pc < 0xFFFF
        },
        _ => true,
    }
}

/// The CPU after the current instruction runs.
pub open spec fn executed<I: MemoryInterface>(c: Cpu<I>) -> Cpu<I> {
    match c.instruction {
        Instruction::Nop => c,
        Instruction::LdR16Imm16 => ld_r16_imm16_done(c),
        Instruction::LdR16MemA => ld_r16mem_a_done(c),
        Instruction::LdAR16Mem => ld_a_r16mem_done(c),
        Instruction::LdImm16Sp => ld_imm16_sp_done(c),
        Instruction::IncR16 => inc_r16_done(c),
        Instruction::DecR16 => dec_r16_done(c),
        Instruction::AddHlR16 => add_hl_r16_done(c),
        Instruction::IncR8 => inc_r8_done(c),
        Instruction::DecR8 => dec_r8_done(c),
        Instruction::LdR8Imm8 => ld_r8_imm8_done(c),
        Instruction::Rlca => rlca_done(c),
        Instruction::Rrca => rrca_done(c),
        Instruction::Rla => rla_done(c),
        Instruction::Rra => rra_done(c),
        Instruction::Daa => daa_done(c),
        Instruction::Cpl => cpl_done(c),
        Instruction::Scf => scf_done(c),
        Instruction::Ccf => ccf_done(c),
        Instruction::JrSignedImm8 => jr_signed_imm8_done(c),
        Instruction::JrCondSignedImm8 => jr_cond_signed_imm8_done(c),
        Instruction::Stop => stop_done(c),
        Instruction::LdR8R8 => ld_r8_r8_done(c),
        Instruction::Halt => halt_done(c),
        Instruction::AddAR8 => add_a_r8_done(c),
        Instruction::AdcAR8 => adc_a_r8_done(c),
        Instruction::SubAR8 => sub_a_r8_done(c),
        Instruction::SbcAR8 => sbc_a_r8_done(c),
        Instruction::AndAR8 => and_a_r8_done(c),
        Instruction::XorAR8 => xor_a_r8_done(c),
        Instruction::OrAR8 => or_a_r8_done(c),
        Instruction::CpAR8 => cp_a_r8_done(c),
        Instruction::AddAImm8 => add_a_imm8_done(c),
        Instruction::AdcAImm8 => adc_a_imm8_done(c),
        Instruction::SubAImm8 => sub_a_imm8_done(c),
        Instruction::SbcAImm8 => sbc_a_imm8_done(c),
        Instruction::AndAImm8 => and_a_imm8_done(c),
        Instruction::XorAImm8 => xor_a_imm8_done(c),
        Instruction::OrAImm8 => or_a_imm8_done(c),
        Instruction::CpAImm8 => cp_a_imm8_done(c),
        Instruction::RetCond => ret_cond_done(c),
        Instruction::Ret => ret_done(c),
        Instruction::Reti => reti_done(c),
        Instruction::JpCondImm16 => jp_cond_imm16_done(c),
        Instruction::JpImm16 => jp_imm16_done(c),
        Instruction::JpHl => jp_hl_done(c),
        Instruction::CallCondImm16 => call_cond_imm16_done(c),
        Instruction::CallImm16 => call_imm16_done(c),
        Instruction::RstTgt3 => rst_tgt3_done(c),
        Instruction::PopR16Stk => pop_r16_stk_done(c),
        Instruction::PushR16Stk => push_r16_stk_done(c),
        Instruction::Prefix => prefix_done(c),
        Instruction::LdhCMemA => ldh_cmem_a_done(c),
        Instruction::LdhImm8MemA => ldh_imm8mem_a_done(c),
        Instruction::LdImm16MemA => ld_imm16mem_a_done(c),
        Instruction::LdhACMem => ldh_a_cmem_done(c),
        Instruction::LdhAImm8Mem => ldh_a_imm8mem_done(c),
        Instruction::LdAImm16Mem => ld_a_imm16mem_done(c),
        Instruction::AddSpSignedImm8 => add_sp_signed_imm8_done(c),
        Instruction::LdHlSpPlusSignedImm8 => ld_hl_sp_plus_signed_imm8_done(c),
        Instruction::LdSpHl => ld_sp_hl_done(c),
        Instruction::Di => di_done(c),
        Instruction::Ei => ei_done(c),
    }
}

/// Runs the current instruction.
pub fn execute_instruction<I: MemoryInterface>(cpu: &mut Cpu<I>)
    requires
        can_execute(*old(cpu)),
    ensures
        *final(cpu) == executed(*old(cpu)),
{
    match cpu.instruction {
        Instruction::Nop => {},
        Instruction::LdR16Imm16 => ld_r16_imm16(cpu),
        Instruction::LdR16MemA => ld_r16mem_a(cpu),
        Instruction::LdAR16Mem => ld_a_r16mem(cpu),
        Instruction::LdImm16Sp => ld_imm16_sp(cpu),
        Instruction::IncR16 => inc_r16(cpu),
        Instruction::DecR16 => dec_r16(cpu),
        Instruction::AddHlR16 => add_hl_r16(cpu),
        Instruction::IncR8 => inc_r8(cpu),
        Instruction::DecR8 => dec_r8(cpu),
        Instruction::LdR8Imm8 => ld_r8_imm8(cpu),
        Instruction::Rlca => rlca(cpu),
        Instruction::Rrca => rrca(cpu),
        Instruction::Rla => rla(cpu),
        Instruction::Rra => rra(cpu),
        Instruction::Daa => daa(cpu),
        Instruction::Cpl => cpl(cpu),
        Instruction::Scf => scf(cpu),
        Instruction::Ccf => ccf(cpu),
        Instruction::JrSignedImm8 => jr_signed_imm8(cpu),
        Instruction::JrCondSignedImm8 => jr_cond_signed_imm8(cpu),
        Instruction::Stop => stop(cpu),
        Instruction::LdR8R8 => ld_r8_r8(cpu),
        Instruction::Halt => halt(cpu),
        Instruction::AddAR8 => add_a_r8(cpu),
        Instruction::AdcAR8 => adc_a_r8(cpu),
        Instruction::SubAR8 => sub_a_r8(cpu),
        Instruction::SbcAR8 => sbc_a_r8(cpu),
        Instruction::AndAR8 => and_a_r8(cpu),
        Instruction::XorAR8 => xor_a_r8(cpu),
        Instruction::OrAR8 => or_a_r8(cpu),
        Instruction::CpAR8 => cp_a_r8(cpu),
        Instruction::AddAImm8 => add_a_imm8(cpu),
        Instruction::AdcAImm8 => adc_a_imm8(cpu),
        Instruction::SubAImm8 => sub_a_imm8(cpu),
        Instruction::SbcAImm8 => sbc_a_imm8(cpu),
        Instruction::AndAImm8 => and_a_imm8(cpu),
        Instruction::XorAImm8 => xor_a_imm8(cpu),
        Instruction::OrAImm8 => or_a_imm8(cpu),
        Instruction::CpAImm8 => cp_a_imm8(cpu),
        Instruction::RetCond => ret_cond(cpu),
        Instruction::Ret => ret(cpu),
        Instruction::Reti => reti(cpu),
        Instruction::JpCondImm16 => jp_cond_imm16(cpu),
        Instruction::JpImm16 => jp_imm16(cpu),
        Instruction::JpHl => jp_hl(cpu),
        Instruction::CallCondImm16 => call_cond_imm16(cpu),
        Instruction::CallImm16 => call_imm16(cpu),
        Instruction::RstTgt3 => rst_tgt3(cpu),
        Instruction::PopR16Stk => pop_r16_stk(cpu),
        Instruction::PushR16Stk => push_r16_stk(cpu),
        Instruction::Prefix => prefix(cpu),
        Instruction::LdhCMemA => ldh_cmem_a(cpu),
        Instruction::LdhImm8MemA => ldh_imm8mem_a(cpu),
        Instruction::LdImm16MemA => ld_imm16mem_a(cpu),
        Instruction::LdhACMem => ldh_a_cmem(cpu),
        Instruction::LdhAImm8Mem => ldh_a_imm8mem(cpu),
        Instruction::LdAImm16Mem => ld_a_imm16mem(cpu),
        Instruction::AddSpSignedImm8 => add_sp_signed_imm8(cpu),
        Instruction::LdHlSpPlusSignedImm8 => ld_hl_sp_plus_signed_imm8(cpu),
        Instruction::LdSpHl => ld_sp_hl(cpu),
        Instruction::Di => di(cpu),
        Instruction::Ei => ei(cpu),
    }
}

} // verus!
