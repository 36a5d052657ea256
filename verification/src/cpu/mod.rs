//! The Sharp SM83 CPU: registers, flags, interrupts, instruction decoding and
//! the semantics of each instruction.
use vstd::prelude::*;

use self::instructions::Instruction;
use self::operands::{set_reg8, reg8, R8};
use self::registers::{pair, Registers};
use crate::memory::MemoryInterface;
use crate::GbMode;

pub mod alu;
pub mod execute;
pub mod instructions;
pub mod interrupts;
pub mod operands;
pub mod registers;

verus! {

/// The CPU clock in Hz.
pub const CPU_CLOCK_SPEED: u32 = 4194304;

/// The CPU: the bus it runs on, its registers, the interrupt master enable
/// with the delays of `EI` and `DI`, whether it is halted (and the halt
/// bug), and the instruction being executed.
pub struct Cpu<I: MemoryInterface> {
    pub bus: I,
    pub registers: Registers,
    pub interrupt_master_enable: bool,
    pub enable_interrupt_delay: u8,
    pub disable_interrupt_delay: u8,
    pub halted: bool,
    pub halt_bug: bool,
    pub opcode: u8,
    pub instruction: Instruction,
}

/// `pc + n` within sixteen bits.
pub open spec fn pc_plus(pc: u16, n: int) -> u16 {
    ((pc + n) % 65536) as u16
}

impl<I: MemoryInterface> Cpu<I> {
    /// The CPU with other registers.
    pub open spec fn with_registers(self, registers: Registers) -> Cpu<I> {
        Cpu { registers, ..self }
    }

    /// The CPU with the bus in another state.
    pub open spec fn with_bus(self, bus: I) -> Cpu<I> {
        Cpu { bus, ..self }
    }

    /// HL.
    pub open spec fn hl(self) -> u16 {
        pair(self.registers.h, self.registers.l)
    }

    /// The byte at PC, and the CPU after reading it (one M-cycle) and moving
    /// PC past it.
    pub open spec fn fetched_byte(self) -> (u8, Cpu<I>) {
        let pc = self.registers.pc;
        (
            self.bus.peek(pc),
            Cpu {
                bus: self.bus.loaded(pc, true),
                registers: Registers { pc: pc_plus(pc, 1), ..self.registers },
                ..self
            },
        )
    }

    /// The little-endian word at PC, and the CPU after reading it (two
    /// M-cycles) and moving PC past it.
    pub open spec fn fetched_word(self) -> (u16, Cpu<I>) {
        let pc = self.registers.pc;
        let b1 = self.bus.loaded(pc, true);
        (
            (self.bus.peek(pc) + 256 * b1.peek(pc_plus(pc, 1))) as u16,
            Cpu {
                bus: b1.loaded(pc_plus(pc, 1), true),
                registers: Registers { pc: pc_plus(pc, 2), ..self.registers },
                ..self
            },
        )
    }

    /// The word on top of the stack, and the CPU after popping it.
    pub open spec fn popped(self) -> (u16, Cpu<I>) {
        let sp = self.registers.sp;
        let b1 = self.bus.loaded(sp, true);
        (
            (self.bus.peek(sp) + 256 * b1.peek(pc_plus(sp, 1))) as u16,
            Cpu {
                bus: b1.loaded(pc_plus(sp, 1), true),
                registers: Registers { sp: pc_plus(sp, 2), ..self.registers },
                ..self
            },
        )
    }

    /// The CPU after pushing `value`: an internal M-cycle, then SP moves
    /// down two and the word is stored little-endian there.
    pub open spec fn pushed(self, value: u16) -> Cpu<I> {
        let sp = pc_plus(self.registers.sp, -2);
        Cpu {
            bus: self.bus.ticked().stored(sp, (value % 256) as u8, true).stored(
                pc_plus(sp, 1),
                (value / 256) as u8,
                true,
            ),
            registers: Registers { sp, ..self.registers },
            ..self
        }
    }

    /// Whether a push cannot run past the top of memory.
    pub open spec fn can_push(self) -> bool {
        pc_plus(self.registers.sp, -2) < 0xFFFF
    }

    /// The value of an eight-bit operand, and the CPU after reading it
    /// (reading `[HL]` takes an M-cycle).
    pub open spec fn read_r8(self, which: R8) -> (u8, Cpu<I>) {
        if which == R8::HlMem {
            (self.bus.peek(self.hl()), Cpu { bus: self.bus.loaded(self.hl(), true), ..self })
        } else {
            (reg8(self.registers, which), self)
        }
    }

    /// The CPU after writing an eight-bit operand (writing `[HL]` takes an
    /// M-cycle).
    pub open spec fn written_r8(self, which: R8, value: u8) -> Cpu<I> {
        if which == R8::HlMem {
            Cpu { bus: self.bus.stored(self.hl(), value, true), ..self }
        } else {
            Cpu { registers: set_reg8(self.registers, which, value), ..self }
        }
    }

    /// A CPU on `bus` with the registers the boot ROM leaves for `mode`,
    /// interrupts disabled and `NOP` as the current instruction.
    pub fn new(bus: I, mode: GbMode) -> (r: Cpu<I>)
        ensures
            r.bus == bus,
            r.registers == registers::initial_registers(mode),
            !r.interrupt_master_enable,
            r.enable_interrupt_delay == 0,
            r.disable_interrupt_delay == 0,
            !r.halted,
            !r.halt_bug,
            r.opcode == 0,
            r.instruction == Instruction::Nop,
    {
        Cpu {
            bus,
            registers: Registers::new(mode),
            interrupt_master_enable: false,
            enable_interrupt_delay: 0,
            disable_interrupt_delay: 0,
            halted: false,
            halt_bug: false,
            opcode: 0x00,
            instruction: Instruction::Nop,
        }
    }

    pub fn bus(&self) -> (r: &I)
        ensures
            *r == self.bus,
    {
        &self.bus
    }

    pub fn registers(&self) -> (r: &Registers)
        ensures
            *r == self.registers,
    {
        &self.registers
    }

    pub fn instruction(&self) -> (r: Instruction)
        ensures
            r == self.instruction,
    {
        self.instruction
    }

    /// Reads the byte at PC and moves PC past it.
    pub fn fetch_byte(&mut self) -> (r: u8)
        ensures
            (r, *final(self)) == old(self).fetched_byte(),
    {
        let byte = self.bus.load_8(self.registers.pc(), true);
        self.registers.set_pc(self.registers.pc().wrapping_add(1));
        byte
    }

    /// Reads the word at PC and moves PC past it.
    pub fn fetch_word(&mut self) -> (r: u16)
        requires
            old(self).registers.pc < 0xFFFF,
        ensures
            (r, *final(self)) == old(self).fetched_word(),
    {
        let word = self.bus.load_16(self.registers.pc(), true);
        self.registers.set_pc(self.registers.pc().wrapping_add(2));
        word
    }

    /// Pops the word on top of the stack.
    pub fn pop_stack(&mut self) -> (r: u16)
        requires
            old(self).registers.sp < 0xFFFF,
        ensures
            (r, *final(self)) == old(self).popped(),
    {
        let value = self.bus.load_16(self.registers.sp(), true);
        self.registers.set_sp(self.registers.sp().wrapping_add(2));
        value
    }

    /// Pushes `value` on the stack.
    pub fn push_stack(&mut self, value: u16)
        requires
            old(self).can_push(),
        ensures
            *final(self) == old(self).pushed(value),
    {
        self.bus.m_cycle();
        self.registers.set_sp(self.registers.sp().wrapping_sub(2));
        self.bus.store_16(self.registers.sp(), value, true);
    }

    /// Reads an eight-bit operand.
    pub fn load_r8(&mut self, which: R8) -> (r: u8)
        ensures
            (r, *final(self)) == old(self).read_r8(which),
    {
        match which {
            R8::B => self.registers.b(),
            R8::C => self.registers.c(),
            R8::D => self.registers.d(),
            R8::E => self.registers.e(),
            R8::H => self.registers.h(),
            R8::L => self.registers.l(),
            R8::HlMem => self.bus.load_8(self.registers.hl(), true),
            R8::A => self.registers.a(),
        }
    }

    /// Writes an eight-bit operand.
    pub fn write_r8(&mut self, which: R8, value: u8)
        ensures
            *final(self) == old(self).written_r8(which, value),
    {
        match which {
            R8::B => self.registers.set_b(value),
            R8::C => self.registers.set_c(value),
            R8::D => self.registers.set_d(value),
            R8::E => self.registers.set_e(value),
            R8::H => self.registers.set_h(value),
            R8::L => self.registers.set_l(value),
            R8::HlMem => self.bus.store_8(self.registers.hl(), value, true),
            R8::A => self.registers.set_a(value),
        }
    }

    /// The CPU after the delays of `EI` and `DI` count down by one
    /// instruction; one that reaches its last step takes effect, `EI` after
    /// `DI`.
    pub open spec fn ime_updated(self) -> Cpu<I> {
        Cpu {
            disable_interrupt_delay: if self.disable_interrupt_delay > 0 {
                (self.disable_interrupt_delay - 1) as u8
            } else {
                0
            },
            enable_interrupt_delay: if self.enable_interrupt_delay > 0 {
                (self.enable_interrupt_delay - 1) as u8
            } else {
                0
            },
            interrupt_master_enable: if self.enable_interrupt_delay == 1 {
                true
            } else if self.disable_interrupt_delay == 1 {
                false
            } else {
                self.interrupt_master_enable
            },
            ..self
        }
    }

    /// Counts the delays of `EI` and `DI` down (see `ime_updated`).
    pub fn update_interrupt_master_enable(&mut self)
        ensures
            *final(self) == old(self).ime_updated(),
    {
        if self.disable_interrupt_delay == 1 {
            self.interrupt_master_enable = false;
        }
        self.disable_interrupt_delay = self.disable_interrupt_delay.saturating_sub(1);

        if self.enable_interrupt_delay == 1 {
            self.interrupt_master_enable = true;
        }
        self.enable_interrupt_delay = self.enable_interrupt_delay.saturating_sub(1);
    }

    /// The CPU after the next opcode is read at PC and decoded, and PC moves
    /// past it, except right after the halt bug, when PC stays.
    pub open spec fn instruction_fetched(self) -> Cpu<I> {
        let pc = self.registers.pc;
        let opcode = self.bus.peek(pc);
        Cpu {
            opcode,
            instruction: instructions::decoded(opcode).unwrap(),
            bus: self.bus.loaded(pc, true),
            registers: Registers { pc: if self.halt_bug { pc } else { pc_plus(pc, 1) }, ..self.registers },
            halt_bug: false,
            ..self
        }
    }

    /// Whether the opcode at PC encodes an instruction.
    pub open spec fn can_fetch(self) -> bool {
        instructions::decoded(self.bus.peek(self.registers.pc)) is Some
    }

    /// Reads and decodes the next instruction (see `instruction_fetched`).
    pub fn fetch_instruction(&mut self)
        requires
            old(self).can_fetch(),
        ensures
            *final(self) == old(self).instruction_fetched(),
    {
        self.opcode = self.bus.load_8(self.registers.pc(), true);
        self.instruction = Instruction::from(self.opcode);
        if self.halt_bug {
            self.halt_bug = false;
        } else {
            self.registers.set_pc(self.registers.pc().wrapping_add(1));
        }
    }

    /// Whether an interrupt can be dispatched from here: a pending one is
    /// among the five sources, and PC can be pushed.
    pub open spec fn can_interrupt(self) -> bool {
        self.bus.pending() != 0 && self.interrupt_master_enable ==> self.bus.pending() & 0x1F != 0 && self.can_push()
    }

    /// The CPU after it looks for an interrupt. A pending one takes an
    /// M-cycle and ends a halt; with interrupts enabled it is dispatched:
    /// interrupts are disabled, an M-cycle passes, PC is pushed, the request
    /// of the highest-priority source is cleared and PC takes its handler.
    pub open spec fn interrupted(self) -> Cpu<I> {
        let requested = self.bus.pending();
        if requested == 0 {
            self
        } else {
            let c1 = Cpu { bus: self.bus.ticked(), halted: false, ..self };
            if !self.interrupt_master_enable {
                c1
            } else {
                let c2 = Cpu { interrupt_master_enable: false, bus: c1.bus.ticked(), ..c1 };
                let c3 = c2.pushed(c2.registers.pc);
                let kind = interrupts::highest_priority(requested);
                Cpu {
                    bus: c3.bus.cleared(interrupts::kind_bit(kind)),
                    registers: Registers { pc: (0x40 + 8 * interrupts::kind_bit(kind)) as u16, ..c3.registers },
                    ..c3
                }
            }
        }
    }

    /// Looks for an interrupt and dispatches it (see `interrupted`).
    pub fn execute_interrupt(&mut self)
        requires
            old(self).can_interrupt(),
        ensures
            *final(self) == old(self).interrupted(),
    {
        let requested_interrupt = self.bus.pending_interrupt();
        if requested_interrupt == 0 {
            return;
        }

        self.bus.m_cycle();
        if self.halted {
            self.halted = false;
        }

        if !self.interrupt_master_enable {
            return;
        }

        self.interrupt_master_enable = false;
        self.bus.m_cycle();
        self.push_stack(self.registers.pc());

        let (interrupt_bit, interrupt_kind) = if requested_interrupt & 0x01 != 0 {
            (0u8, interrupts::InterruptKind::VBlank)
        } else if requested_interrupt & 0x02 != 0 {
            (1u8, interrupts::InterruptKind::Lcd)
        } else if requested_interrupt & 0x04 != 0 {
            (2u8, interrupts::InterruptKind::Timer)
        } else if requested_interrupt & 0x08 != 0 {
            (3u8, interrupts::InterruptKind::Serial)
        } else {
            (4u8, interrupts::InterruptKind::Joypad)
        };
        self.bus.clear_interrupt(interrupt_bit);

        self.registers.set_pc(interrupt_kind.source_address());
    }

    /// The CPU after one step: unless halted, the interrupt delays count
    /// down and the current instruction runs (a halted CPU lets an M-cycle
    /// pass); then an interrupt is looked for; then, unless halted, the next
    /// instruction is fetched.
    pub open spec fn cycled(self) -> Cpu<I> {
        let c1 = if !self.halted { execute::executed(self.ime_updated()) } else { self.with_bus(self.bus.ticked()) };
        let c2 = c1.interrupted();
        if !c2.halted { c2.instruction_fetched() } else { c2 }
    }

    /// Whether a step can run: the instruction runs within memory, an
    /// interrupt can be dispatched, and the next opcode encodes an
    /// instruction.
    pub open spec fn can_cycle(self) -> bool {
        let c1 = if !self.halted { execute::executed(self.ime_updated()) } else { self.with_bus(self.bus.ticked()) };
        let c2 = c1.interrupted();
        &&& !self.halted ==> execute::can_execute(self.ime_updated())
        &&& c1.can_interrupt()
        &&& !c2.halted ==> c2.can_fetch()
    }

    /// One step of the CPU (see `cycled`).
    pub fn cycle(&mut self)
        requires
            old(self).can_cycle(),
        ensures
            *final(self) == old(self).cycled(),
    {
        if !self.halted {
            self.update_interrupt_master_enable();
            execute::execute_instruction(self);
        } else {
            self.bus.m_cycle();
        }

        self.execute_interrupt();

        if !self.halted {
            self.fetch_instruction();
        }
    }
}

/// A bus that returns, at each address, the byte last stored there, and
/// whose loads and idle M-cycles change no byte.
pub open spec fn keeps_writes<I: MemoryInterface>() -> bool {
    &&& forall|b: I, a: u16, v: u8, w: bool, x: u16|
        #[trigger] b.stored(a, v, w).peek(x) == if x == a { v } else { b.peek(x) }
    &&& forall|b: I, a: u16, w: bool, x: u16| #[trigger] b.loaded(a, w).peek(x) == b.peek(x)
    &&& forall|b: I, x: u16| #[trigger] b.ticked().peek(x) == b.peek(x)
}

/// On a bus that keeps what is written to it, popping right after a push
/// gives back the pushed word and returns SP to where it was.
pub proof fn lemma_pop_after_push<I: MemoryInterface>(cpu: Cpu<I>, value: u16)
    requires
        keeps_writes::<I>(),
        cpu.can_push(),
    ensures
        cpu.pushed(value).popped().0 == value,
        cpu.pushed(value).popped().1.registers == cpu.registers,
{
    let sp = pc_plus(cpu.registers.sp, -2);
    let after = cpu.pushed(value);
    let b0 = cpu.bus.ticked();
    let b1 = b0.stored(sp, (value % 256) as u8, true);
    let b2 = b1.stored(pc_plus(sp, 1), (value / 256) as u8, true);
    assert(after.bus == b2);
    assert(pc_plus(sp, 1) != sp);
    assert(b2.peek(sp) == b1.peek(sp));
    assert(b1.peek(sp) == (value % 256) as u8);
    assert(b2.loaded(sp, true).peek(pc_plus(sp, 1)) == b2.peek(pc_plus(sp, 1)));
    assert(b2.peek(pc_plus(sp, 1)) == (value / 256) as u8);
    assert(pc_plus(sp, 2) == cpu.registers.sp);
    assert(after.popped().1.registers =~= cpu.registers);
}

/// With interrupts enabled and a request pending, the CPU dispatches the
/// source of the lowest pending bit (V-Blank first, Joypad last): PC takes
/// that source's handler (0x40, 0x48, 0x50, 0x58 or 0x60), interrupts are
/// disabled, the halt ends, and SP is two lower.
pub proof fn lemma_dispatch_lowest_pending<I: MemoryInterface>(c: Cpu<I>)
    requires
        c.interrupt_master_enable,
        c.bus.pending() & 0x1F != 0,
    ensures
        ({
            let d = c.interrupted();
            let b = ((d.registers.pc - 0x40) / 8) as u8;
            &&& 0x40 <= d.registers.pc <= 0x60
            &&& d.registers.pc == 0x40 + 8 * b
            &&& c.bus.pending() & (1u8 << b) != 0
            &&& forall|j: u8| j < b ==> c.bus.pending() & (1u8 << j) == 0
            &&& !d.interrupt_master_enable
            &&& !d.halted
            &&& d.registers.sp == pc_plus(c.registers.sp, -2)
        }),
{
    interrupts::lemma_highest_priority_is_lowest_bit(c.bus.pending());
}

} // verus!
