//! The system bus as the CPU sees it: the cartridge-and-RAM bus, the
//! interrupt request (IF) and enable (IE) registers, and an M-cycle counter.
use vstd::prelude::*;

use crate::bus::{ram_cell, Bus};
use crate::memory::MemoryInterface;
use crate::mmu::Memory;
use crate::GbSpeed;

verus! {

/// Address of the interrupt request register.
pub const IF_REGISTER: u16 = 0xFF0F;

/// Address of the interrupt enable register.
pub const IE_REGISTER: u16 = 0xFFFF;

/// The system bus. Reads of an address that nothing serves give 0xFF and
/// writes there are dropped.
pub struct SystemBus {
    pub bus: Bus,
    pub interrupt_flag: u8,
    pub interrupt_enable: u8,
    pub cycles: u64,
}

/// The counter after one more M-cycle (it wraps at the top of its range).
pub open spec fn next_count(cycles: u64) -> u64 {
    if cycles == u64::MAX { 0 } else { (cycles + 1) as u64 }
}

impl SystemBus {
    /// A bus over `bus` with no interrupt requested or enabled and no
    /// M-cycle counted.
    pub fn new(bus: Bus) -> (r: SystemBus)
        ensures
            r == (SystemBus { bus, interrupt_flag: 0, interrupt_enable: 0, cycles: 0 }),
    {
        SystemBus { bus, interrupt_flag: 0, interrupt_enable: 0, cycles: 0 }
    }

    /// Whether the cartridge-and-RAM bus serves `address`.
    pub fn serves(&self, address: u16) -> (r: bool)
        ensures
            r == self.bus.contents().contains_key(address),
    {
        broadcast use vstd::array::group_array_axioms;
        let bank_ok = 1 <= self.bus.wram_bank && self.bus.wram_bank <= 7;
        let cart = (address <= 0x7FFF || (0xA000 <= address && address <= 0xBFFF))
            && (address as usize) < self.bus.cartridge.buffer.len();
        let ram = (0xC000 <= address && address <= 0xFDFF) || (0xFF80 <= address && address <= 0xFFFE);
        bank_ok && (cart || ram)
    }

    fn count(&mut self, with_cycles: bool)
        ensures
            *final(self) == (SystemBus { cycles: if with_cycles { next_count(old(self).cycles) } else { old(self).cycles }, ..*old(self) }),
    {
        if with_cycles {
            if self.cycles < u64::MAX {
                self.cycles = self.cycles + 1;
            } else {
                self.cycles = 0;
            }
        }
    }
}

impl MemoryInterface for SystemBus {
    /// IF, IE, the byte the cartridge-and-RAM bus holds, or 0xFF.
    open spec fn peek(&self, address: u16) -> u8 {
        if address == IF_REGISTER {
            self.interrupt_flag
        } else if address == IE_REGISTER {
            self.interrupt_enable
        } else if self.bus.contents().contains_key(address) {
            self.bus.byte(address)
        } else {
            0xFF
        }
    }

    open spec fn loaded(&self, address: u16, with_cycles: bool) -> SystemBus {
        SystemBus { cycles: if with_cycles { next_count(self.cycles) } else { self.cycles }, ..*self }
    }

    open spec fn stored(&self, address: u16, value: u8, with_cycles: bool) -> SystemBus {
        let b = self.loaded(address, with_cycles);
        if address == IF_REGISTER {
            SystemBus { interrupt_flag: value, ..b }
        } else if address == IE_REGISTER {
            SystemBus { interrupt_enable: value, ..b }
        } else if self.bus.contents().contains_key(address) {
            SystemBus { bus: self.bus.written(address, value), ..b }
        } else {
            b
        }
    }

    open spec fn ticked(&self) -> SystemBus {
        SystemBus { cycles: next_count(self.cycles), ..*self }
    }

    open spec fn m_cycles(&self) -> u64 {
        self.cycles
    }

    open spec fn pending(&self) -> u8 {
        self.interrupt_flag & self.interrupt_enable & 0x1F
    }

    open spec fn cleared(&self, bit: u8) -> SystemBus {
        if bit < 8 {
            SystemBus { interrupt_flag: self.interrupt_flag & !(1u8 << bit), ..*self }
        } else {
            *self
        }
    }

    /// A switch always toggles the speed.
    open spec fn speed_switched(&self) -> SystemBus {
        SystemBus {
            bus: Bus {
                speed: match self.bus.speed {
                    GbSpeed::Normal => GbSpeed::Double,
                    GbSpeed::Double => GbSpeed::Normal,
                },
                speed_change_requested: false,
                ..self.bus
            },
            ..*self
        }
    }

    open spec fn current_speed(&self) -> GbSpeed {
        self.bus.speed
    }

    fn load_8(&mut self, address: u16, with_cycles: bool) -> (r: u8) {
        let r = if address == IF_REGISTER {
            self.interrupt_flag
        } else if address == IE_REGISTER {
            self.interrupt_enable
        } else if self.serves(address) {
            self.bus.mem_read(address)
        } else {
            0xFF
        };
        self.count(with_cycles);
        r
    }

    fn store_8(&mut self, address: u16, value: u8, with_cycles: bool) {
        if address == IF_REGISTER {
            self.interrupt_flag = value;
        } else if address == IE_REGISTER {
            self.interrupt_enable = value;
        } else if self.serves(address) {
            self.bus.mem_write(address, value);
        }
        self.count(with_cycles);
    }

    fn m_cycle(&mut self) {
        self.count(true);
    }

    fn total_m_cycles(&self) -> (r: u64) {
        self.cycles
    }

    fn pending_interrupt(&self) -> (r: u8) {
        self.interrupt_flag & self.interrupt_enable & 0x1F
    }

    fn clear_interrupt(&mut self, mask: u8) {
        if mask < 8 {
            self.interrupt_flag = self.interrupt_flag & !(1u8 << mask);
        }
    }

    fn change_speed(&mut self) {
        self.bus.speed_change_requested = true;
        self.bus.change_speed();
    }

    fn speed(&self) -> (r: GbSpeed) {
        self.bus.speed
    }
}

/// Through the system bus, a load of IF, IE or a RAM cell gives the byte
/// last stored there; other loads and idle M-cycles change no byte.
pub proof fn lemma_system_bus_read_after_write(s: SystemBus, address: u16, value: u8, with_cycles: bool)
    requires
        address == IF_REGISTER || address == IE_REGISTER || (s.bus.contents().contains_key(address) && ram_cell(
            address,
        ) >= 0),
    ensures
        s.stored(address, value, with_cycles).peek(address) == value,
        forall|a: u16| #[trigger] s.loaded(address, with_cycles).peek(a) == s.peek(a),
        forall|a: u16| #[trigger] s.ticked().peek(a) == s.peek(a),
{
    broadcast use vstd::array::group_array_axioms;
    let b = s.stored(address, value, with_cycles);
    if address != IF_REGISTER && address != IE_REGISTER {
        assert(b.bus.contents().contains_key(address));
    }
}

} // verus!
