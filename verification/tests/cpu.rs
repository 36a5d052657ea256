use ironboy::cpu::alu::{add_8, daa_8, rlc_8, sub_8, swap_8};
use ironboy::cpu::execute::{inc_r8, pop_r16_stk, push_r16_stk, rlca};
use ironboy::cpu::instructions::Instruction;
use ironboy::cpu::interrupts::{InterruptKind, Interrupts};
use ironboy::cpu::registers::{Flags, Registers};
use ironboy::cpu::Cpu;
use ironboy::memory::MemoryInterface;
use ironboy::{GbMode, GbSpeed};

/// A flat 64 KiB bus that counts M-cycles; IF and IE live at their
/// addresses.
struct TestBus {
    memory: Vec<u8>,
    cycles: u64,
    speed: GbSpeed,
}

impl TestBus {
    fn new() -> Self {
        TestBus { memory: vec![0; 0x10000], cycles: 0, speed: GbSpeed::Normal }
    }
}

impl MemoryInterface for TestBus {
    fn load_8(&mut self, address: u16, with_cycles: bool) -> u8 {
        if with_cycles {
            self.cycles += 1;
        }
        self.memory[address as usize]
    }

    fn store_8(&mut self, address: u16, value: u8, with_cycles: bool) {
        if with_cycles {
            self.cycles += 1;
        }
        self.memory[address as usize] = value;
    }

    fn m_cycle(&mut self) {
        self.cycles += 1;
    }

    fn total_m_cycles(&self) -> u64 {
        self.cycles
    }

    fn pending_interrupt(&self) -> u8 {
        self.memory[0xFF0F] & self.memory[0xFFFF] & 0x1F
    }

    fn clear_interrupt(&mut self, mask: u8) {
        self.memory[0xFF0F] &= !(1 << mask);
    }

    fn change_speed(&mut self) {
        self.speed = match self.speed {
            GbSpeed::Normal => GbSpeed::Double,
            GbSpeed::Double => GbSpeed::Normal,
        };
    }

    fn speed(&self) -> GbSpeed {
        self.speed
    }
}

fn cpu_with_program(program: &[u8]) -> Cpu<TestBus> {
    let mut bus = TestBus::new();
    for (i, b) in program.iter().enumerate() {
        bus.memory[0x0100 + i] = *b;
    }
    Cpu::new(bus, GbMode::Monochrome)
}

#[test]
fn registers_after_boot() {
    let registers = Registers::new(GbMode::Monochrome);
    assert_eq!(registers.af(), 0x01B0);
    assert_eq!(registers.bc(), 0x0013);
    assert_eq!(registers.de(), 0x00D8);
    assert_eq!(registers.hl(), 0x014D);
    assert_eq!(registers.sp(), 0xFFFE);
    assert_eq!(registers.pc(), 0x0100);
}

#[test]
fn load_bc_with_immediate_word() {
    let mut cpu = cpu_with_program(&[0x01, 0x34, 0x12]);
    cpu.cycle();
    assert_eq!(cpu.instruction(), Instruction::LdR16Imm16);
    cpu.cycle();
    assert_eq!(cpu.registers().bc(), 0x1234);
    assert_eq!(cpu.registers().pc(), 0x0104);
    assert_eq!(cpu.bus().total_m_cycles(), 4);
}

#[test]
fn inc_b_sets_flags() {
    let mut cpu = cpu_with_program(&[]);
    cpu.opcode = 0x04;
    cpu.registers.f = Flags::from_byte(0);
    cpu.registers.b = 0x45;
    inc_r8(&mut cpu);
    assert_eq!(cpu.registers.b, 0x46);
    assert_eq!(cpu.registers.f.to_byte(), 0b0000_0000);

    cpu.registers.f = Flags::from_byte(0);
    cpu.registers.b = 0b0001_1111;
    inc_r8(&mut cpu);
    assert_eq!(cpu.registers.b, 0x20);
    assert_eq!(cpu.registers.f.to_byte(), 0b0010_0000);

    cpu.registers.f = Flags::from_byte(0);
    cpu.registers.b = 0xFF;
    inc_r8(&mut cpu);
    assert_eq!(cpu.registers.b, 0);
    assert_eq!(cpu.registers.f.to_byte(), 0b1010_0000);
}

#[test]
fn rlca_rotates_into_carry() {
    let mut cpu = cpu_with_program(&[]);
    cpu.registers.a = 0x85;
    rlca(&mut cpu);
    assert_eq!(cpu.registers.a, 0x0B);
    assert_eq!(cpu.registers.f.to_byte(), 0b0001_0000);
}

#[test]
fn push_then_pop_restores_pair() {
    let mut cpu = cpu_with_program(&[]);
    cpu.registers.set_bc(0xBEEF);
    cpu.opcode = 0xC5;
    push_r16_stk(&mut cpu);
    assert_eq!(cpu.registers.sp(), 0xFFFC);
    cpu.opcode = 0xD1;
    pop_r16_stk(&mut cpu);
    assert_eq!(cpu.registers.de(), 0xBEEF);
    assert_eq!(cpu.registers.sp(), 0xFFFE);
}

#[test]
fn alu_exact_values() {
    let (r, f) = add_8(0x3A, 0xC6, false);
    assert_eq!(r, 0x00);
    assert_eq!(f.to_byte(), 0b1011_0000);
    let (r, f) = add_8(0x0F, 0x00, true);
    assert_eq!(r, 0x10);
    assert_eq!(f.to_byte(), 0b0010_0000);
    let (r, f) = sub_8(0x3E, 0x3E, false);
    assert_eq!(r, 0x00);
    assert_eq!(f.to_byte(), 0b1100_0000);
    let (r, f) = sub_8(0x3B, 0x4F, false);
    assert_eq!(r, 0xEC);
    assert_eq!(f.to_byte(), 0b0111_0000);
    let (r, f) = sub_8(0x10, 0x0F, true);
    assert_eq!(r, 0x00);
    assert_eq!(f.to_byte(), 0b1110_0000);
    assert_eq!(swap_8(0xAB), 0xBA);
    assert_eq!(rlc_8(0x80), (0x01, true));
}

#[test]
fn daa_corrects_bcd_sum() {
    let (sum, flags) = add_8(0x45, 0x38, false);
    assert_eq!(sum, 0x7D);
    let (bcd, f) = daa_8(sum, flags);
    assert_eq!(bcd, 0x83);
    assert!(!f.carry);
    let (sum, flags) = add_8(0x99, 0x01, false);
    let (bcd, f) = daa_8(sum, flags);
    assert_eq!(bcd, 0x00);
    assert!(f.carry);
    assert!(f.zero);
    let (diff, flags) = sub_8(0x10, 0x01, false);
    let (bcd, f) = daa_8(diff, flags);
    assert_eq!(bcd, 0x09);
    assert!(!f.carry);
}

#[test]
fn decode_opcodes() {
    assert_eq!(Instruction::decode(0xD3), None);
    assert_eq!(Instruction::decode(0xCB), Some(Instruction::Prefix));
    assert_eq!(Instruction::from(0x76), Instruction::Halt);
    assert_eq!(Instruction::from(0x41), Instruction::LdR8R8);
    assert_eq!(Instruction::from(0xFF), Instruction::RstTgt3);
}

#[test]
fn interrupt_kinds() {
    assert_eq!(InterruptKind::VBlank.source_address(), 0x40);
    assert_eq!(InterruptKind::Joypad.source_address(), 0x60);
    assert_eq!(InterruptKind::Timer.bit_mask(), 0x04);
}

#[test]
fn handle_interrupt_picks_highest_priority() {
    let mut bus = TestBus::new();
    bus.memory[0xFF0F] = 0x05;
    bus.memory[0xFFFF] = 0x04;
    let mut interrupts = Interrupts::new();
    assert_eq!(interrupts.handle_interrupt(&mut bus), None);
    interrupts.set_interrupt_master_enable(true);
    assert!(interrupts.pending_interrupt(&mut bus));
    assert_eq!(interrupts.handle_interrupt(&mut bus), Some(0x50));
    assert_eq!(bus.memory[0xFF0F], 0x01);
    assert!(!interrupts.interrupt_master_enable());
}

#[test]
fn ei_takes_effect_after_next_instruction() {
    let mut interrupts = Interrupts::new();
    interrupts.set_ei();
    interrupts.update_interrupt_master_enable();
    assert!(!interrupts.interrupt_master_enable());
    interrupts.update_interrupt_master_enable();
    assert!(interrupts.interrupt_master_enable());
    interrupts.set_di();
    interrupts.update_interrupt_master_enable();
    interrupts.update_interrupt_master_enable();
    assert!(!interrupts.interrupt_master_enable());
}

#[test]
fn cpu_dispatches_interrupt() {
    let mut cpu = cpu_with_program(&[]);
    cpu.interrupt_master_enable = true;
    cpu.registers.set_pc(0x1234);
    cpu.bus.memory[0xFF0F] = 0x03;
    cpu.bus.memory[0xFFFF] = 0x02;
    cpu.execute_interrupt();
    assert_eq!(cpu.registers.pc(), 0x48);
    assert_eq!(cpu.registers.sp(), 0xFFFC);
    assert_eq!(cpu.bus.memory[0xFFFC], 0x34);
    assert_eq!(cpu.bus.memory[0xFFFD], 0x12);
    assert_eq!(cpu.bus.memory[0xFF0F], 0x01);
    assert!(!cpu.interrupt_master_enable);
}

#[test]
fn disassemble_instructions() {
    assert_eq!(Instruction::LdR16Imm16.disassemble(0x01, 0x34, 0x1234), "LD BC,0x1234");
    assert_eq!(Instruction::LdR8Imm8.disassemble(0x06, 0x05, 0x0005), "LD B,0x05");
    assert_eq!(Instruction::JpImm16.disassemble(0xC3, 0x50, 0x0150), "JP 0x150");
    assert_eq!(Instruction::LdR16MemA.disassemble(0x22, 0, 0), "LD [HL+],A");
    assert_eq!(Instruction::LdR8R8.disassemble(0x7E, 0, 0), "LD A,[HL]");
    assert_eq!(Instruction::JrCondSignedImm8.disassemble(0x20, 0xFE, 0), "JR NZ,0xFE");
    assert_eq!(Instruction::Prefix.disassemble(0xCB, 0x7C, 0), "BIT 7,H");
    assert_eq!(Instruction::Prefix.disassemble(0xCB, 0x37, 0), "SWAP A");
    assert_eq!(Instruction::RstTgt3.disassemble(0xFF, 0, 0), "RST 00h");
    assert_eq!(Instruction::PushR16Stk.disassemble(0xF5, 0, 0), "PUSH AF");
    assert_eq!(Instruction::Nop.disassemble(0x00, 0, 0), "NOP");
}

const WORKING_MEMORY: u16 = 0xC001;

impl TestBus {
    fn mem_write(&mut self, address: u16, value: u8) {
        self.memory[address as usize] = value;
    }

    fn mem_write_16(&mut self, address: u16, value: u16) {
        self.mem_write(address, (value & 0xFF) as u8);
        self.mem_write(address.wrapping_add(1), (value >> 8) as u8);
    }

    fn mem_read(&self, address: u16) -> u8 {
        self.memory[address as usize]
    }

    fn mem_read_16(&self, address: u16) -> u16 {
        self.mem_read(address) as u16 | (self.mem_read(address.wrapping_add(1)) as u16) << 8
    }
}

/// A CPU that runs from work RAM at 0xC000.
fn cpu_in_work_ram() -> Cpu<TestBus> {
    let mut cpu = Cpu::new(TestBus::new(), GbMode::Monochrome);
    cpu.registers.set_pc(0xC000);
    cpu
}

/// Fetches the instruction at PC and runs it.
fn run_instruction(cpu: &mut Cpu<TestBus>) {
    cpu.fetch_instruction();
    cpu.cycle();
}

#[test]
fn x01_ld_bc_u16() {
    let mut cpu = cpu_in_work_ram();
    let pc = cpu.registers.pc();
    cpu.bus.mem_write(pc, 0x01);
    cpu.bus.mem_write_16(pc + 1, 0x1234);
    run_instruction(&mut cpu);

    assert_eq!(cpu.registers.bc(), 0x1234);
}

#[test]
fn x02_ld_bc_a() {
    let mut cpu = cpu_in_work_ram();
    let pc = cpu.registers.pc();
    cpu.bus.mem_write(pc, 0x02);
    cpu.registers.set_bc(WORKING_MEMORY);
    cpu.registers.a = 0x03;
    run_instruction(&mut cpu);

    assert_eq!(cpu.bus.mem_read(cpu.registers.bc()), cpu.registers.a);
}

#[test]
fn x06_ld_b_u8() {
    let mut cpu = cpu_in_work_ram();
    let pc = cpu.registers.pc();
    cpu.bus.mem_write(pc, 0x06);
    cpu.bus.mem_write(pc + 1, 0x12);
    run_instruction(&mut cpu);

    assert_eq!(cpu.registers.b, 0x12);
}

#[test]
fn x08_ld_u16_sp() {
    let mut cpu = cpu_in_work_ram();
    let pc = cpu.registers.pc();
    cpu.bus.mem_write(pc, 0x08);
    cpu.bus.mem_write_16(pc + 1, WORKING_MEMORY);
    cpu.registers.set_sp(0x1555);
    run_instruction(&mut cpu);

    assert_eq!(cpu.bus.mem_read_16(WORKING_MEMORY), 0x1555);
}

#[test]
fn x0a_ld_a_bc() {
    let mut cpu = cpu_in_work_ram();
    let pc = cpu.registers.pc();
    cpu.bus.mem_write(pc, 0x0A);
    cpu.registers.set_bc(WORKING_MEMORY);
    cpu.bus.mem_write(cpu.registers.bc(), 0x35);
    run_instruction(&mut cpu);

    assert_eq!(cpu.registers.a, 0x35);
}

#[test]
fn x0e_ld_c_u8() {
    let mut cpu = cpu_in_work_ram();
    let pc = cpu.registers.pc();
    cpu.bus.mem_write(pc, 0x0e);
    cpu.bus.mem_write(pc + 1, 0x12);
    run_instruction(&mut cpu);

    assert_eq!(cpu.registers.c, 0x12);
}

#[test]
fn x11_ld_de_u16() {
    let mut cpu = cpu_in_work_ram();
    let pc = cpu.registers.pc();
    cpu.bus.mem_write(pc, 0x11);
    cpu.bus.mem_write_16(pc + 1, 0x1234);
    run_instruction(&mut cpu);

    assert_eq!(cpu.registers.de(), 0x1234);
}

#[test]
fn x12_ld_de_a() {
    let mut cpu = cpu_in_work_ram();
    let pc = cpu.registers.pc();
    cpu.bus.mem_write(pc, 0x12);
    cpu.registers.set_de(WORKING_MEMORY);
    cpu.registers.a = 0x03;
    run_instruction(&mut cpu);

    assert_eq!(cpu.bus.mem_read(cpu.registers.de()), cpu.registers.a);
}

#[test]
fn x16_ld_d_u8() {
    let mut cpu = cpu_in_work_ram();
    let pc = cpu.registers.pc();
    cpu.bus.mem_write(pc, 0x16);
    cpu.bus.mem_write(pc + 1, 0x12);
    run_instruction(&mut cpu);

    assert_eq!(cpu.registers.d, 0x12);
}

#[test]
fn x0a_ld_a_de() {
    let mut cpu = cpu_in_work_ram();
    let pc = cpu.registers.pc();
    cpu.bus.mem_write(pc, 0x1A);
    cpu.registers.set_de(WORKING_MEMORY);
    cpu.bus.mem_write(cpu.registers.de(), 0x35);
    run_instruction(&mut cpu);

    assert_eq!(cpu.registers.a, 0x35);
}

#[test]
fn x1e_ld_e_u8() {
    let mut cpu = cpu_in_work_ram();
    let pc = cpu.registers.pc();
    cpu.bus.mem_write(pc, 0x1e);
    cpu.bus.mem_write(pc + 1, 0x12);
    run_instruction(&mut cpu);

    assert_eq!(cpu.registers.e, 0x12);
}

#[test]
fn xe0_ff00_u8_a() {
    let mut cpu = cpu_in_work_ram();
    let pc = cpu.registers.pc();
    cpu.bus.mem_write(pc, 0xE0);
    cpu.bus.mem_write(pc + 1, 0x80);
    cpu.registers.a = 0x22;
    run_instruction(&mut cpu);

    assert_eq!(cpu.bus.mem_read(0xFF80), 0x22);
}

#[test]
fn xe2_ff00_c_a() {
    let mut cpu = cpu_in_work_ram();
    let pc = cpu.registers.pc();
    cpu.bus.mem_write(pc, 0xE2);
    cpu.registers.c = 0x80;
    cpu.registers.a = 0x22;
    run_instruction(&mut cpu);

    assert_eq!(cpu.bus.mem_read(0xFF80), 0x22);
}
