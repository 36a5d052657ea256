//! The CPU's side of interrupts: the master enable with its delayed
//! `EI`/`DI`, and dispatching the highest-priority pending interrupt.
use vstd::prelude::*;

use crate::memory::MemoryInterface;

verus! {

/// The interrupt flag register (IF).
pub const IF_ADDRESS: u16 = 0xFF0F;

/// The interrupt enable register (IE).
pub const IE_ADDRESS: u16 = 0xFFFF;

/// The five interrupt sources, highest priority first.
#[derive(Debug, Clone, Copy, PartialEq, Eq, Structural)]
pub enum InterruptKind {
    VBlank,
    Lcd,
    Timer,
    Serial,
    Joypad,
}

/// The bit of an interrupt source in IF and IE.
pub open spec fn kind_bit(kind: InterruptKind) -> u8 {
    match kind {
        InterruptKind::VBlank => 0,
        InterruptKind::Lcd => 1,
        InterruptKind::Timer => 2,
        InterruptKind::Serial => 3,
        InterruptKind::Joypad => 4,
    }
}

/// The highest-priority source requested in `requested` (the lowest set
/// bit), for a nonzero value of five bits.
pub open spec fn highest_priority(requested: u8) -> InterruptKind {
    if requested & 0x01 != 0 {
        InterruptKind::VBlank
    } else if requested & 0x02 != 0 {
        InterruptKind::Lcd
    } else if requested & 0x04 != 0 {
        InterruptKind::Timer
    } else if requested & 0x08 != 0 {
        InterruptKind::Serial
    } else {
        InterruptKind::Joypad
    }
}

/// The source chosen among a nonzero set of requests is the one of the
/// lowest set bit: V-Blank before LCD STAT before Timer before Serial
/// before Joypad.
pub proof fn lemma_highest_priority_is_lowest_bit(requested: u8)
    requires
        requested & 0x1F != 0,
    ensures
        requested != 0,
        kind_bit(highest_priority(requested)) < 5,
        requested & (1u8 << kind_bit(highest_priority(requested))) != 0,
        forall|j: u8| j < kind_bit(highest_priority(requested)) ==> requested & (1u8 << j) == 0,
{
    lemma_lowest_bit(requested);
}

/// The bit facts behind `highest_priority`, case by case.
proof fn lemma_lowest_bit(r: u8)
    by (bit_vector)
    ensures
        r & 0x1F != 0 ==> r != 0,
        r & 0x01 != 0 ==> r & (1u8 << 0u8) != 0,
        r & 0x01 == 0 && r & 0x02 != 0 ==> r & (1u8 << 1u8) != 0 && forall|j: u8| j < 1 ==> r & (1u8 << j) == 0,
        r & 0x03 == 0 && r & 0x04 != 0 ==> r & (1u8 << 2u8) != 0 && forall|j: u8| j < 2 ==> r & (1u8 << j) == 0,
        r & 0x07 == 0 && r & 0x08 != 0 ==> r & (1u8 << 3u8) != 0 && forall|j: u8| j < 3 ==> r & (1u8 << j) == 0,
        r & 0x0F == 0 && r & 0x1F != 0 ==> r & (1u8 << 4u8) != 0 && forall|j: u8| j < 4 ==> r & (1u8 << j) == 0,
        r & 0x01 == 0 && r & 0x02 == 0 ==> r & 0x03 == 0,
        r & 0x03 == 0 && r & 0x04 == 0 ==> r & 0x07 == 0,
        r & 0x07 == 0 && r & 0x08 == 0 ==> r & 0x0F == 0,
{
}

impl InterruptKind {
    /// The address of the interrupt's handler: 0x40, 0x48, 0x50, 0x58, 0x60.
    pub fn source_address(self) -> (r: u16)
        ensures
            r == 0x40 + 8 * kind_bit(self),
    {
        match self {
            InterruptKind::VBlank => 0x0040,
            InterruptKind::Lcd => 0x0048,
            InterruptKind::Timer => 0x0050,
            InterruptKind::Serial => 0x0058,
            InterruptKind::Joypad => 0x0060,
        }
    }

    /// The interrupt's bit in IF and IE, as a mask.
    pub fn bit_mask(self) -> (r: u8)
        ensures
            r == 1u8 << kind_bit(self),
    {
        match self {
            InterruptKind::VBlank => 1 << 0u8,
            InterruptKind::Lcd => 1 << 1u8,
            InterruptKind::Timer => 1 << 2u8,
            InterruptKind::Serial => 1 << 3u8,
            InterruptKind::Joypad => 1 << 4u8,
        }
    }
}

/// The interrupt master enable, and the countdowns of a pending `EI` or
/// `DI`, which take effect after the next instruction.
#[derive(Debug, Clone, Copy, PartialEq, Eq, Structural)]
pub struct Interrupts {
    pub interrupt_master_enable: bool,
    pub ei: u8,
    pub di: u8,
}

/// The interrupts that IF and IE both hold, among the five sources.
pub open spec fn requested(flags: u8, enable: u8) -> u8 {
    flags & enable & 0x1F
}

impl Interrupts {
    /// Interrupts disabled, with nothing pending.
    pub fn new() -> (r: Interrupts)
        ensures
            r == (Interrupts { interrupt_master_enable: false, ei: 0, di: 0 }),
    {
        Interrupts { interrupt_master_enable: false, ei: 0, di: 0 }
    }

    pub fn interrupt_master_enable(&self) -> (r: bool)
        ensures
            r == self.interrupt_master_enable,
    {
        self.interrupt_master_enable
    }

    pub fn set_interrupt_master_enable(&mut self, value: bool)
        ensures
            *final(self) == (Interrupts { interrupt_master_enable: value, ..*old(self) }),
    {
        self.interrupt_master_enable = value;
    }

    /// `EI`: interrupts are enabled after the next instruction.
    pub fn set_ei(&mut self)
        ensures
            *final(self) == (Interrupts { ei: 2, ..*old(self) }),
    {
        self.ei = 2;
    }

    /// `DI`: interrupts are disabled after the next instruction.
    pub fn set_di(&mut self)
        ensures
            *final(self) == (Interrupts { di: 2, ..*old(self) }),
    {
        self.di = 2;
    }

    /// Counts the pending `DI` and `EI` down by one instruction; one that
    /// reaches its last step takes effect, `EI` after `DI`.
    pub fn update_interrupt_master_enable(&mut self)
        ensures
            final(self).di == (if old(self).di > 0 { old(self).di - 1 } else { 0 }),
            final(self).ei == (if old(self).ei > 0 { old(self).ei - 1 } else { 0 }),
            final(self).interrupt_master_enable == (if old(self).ei == 1 {
                true
            } else if old(self).di == 1 {
                false
            } else {
                old(self).interrupt_master_enable
            }),
    {
        if self.di == 1 {
            self.interrupt_master_enable = false;
        }
        self.di = self.di.saturating_sub(1);

        if self.ei == 1 {
            self.interrupt_master_enable = true;
        }
        self.ei = self.ei.saturating_sub(1);
    }

    /// Reads IF and IE; when interrupts are enabled and one is requested,
    /// disables interrupts, clears the request of the highest-priority one
    /// in IF and returns the address of its handler.
    pub fn handle_interrupt<I: MemoryInterface>(&mut self, bus: &mut I) -> (r: Option<u16>)
        ensures
            ({
                let flags = old(bus).peek(IF_ADDRESS);
                let b1 = old(bus).loaded(IF_ADDRESS, false);
                let enable = b1.peek(IE_ADDRESS);
                let b2 = b1.loaded(IE_ADDRESS, false);
                let req = requested(flags, enable);
                if old(self).interrupt_master_enable && req != 0 {
                    let kind = highest_priority(req);
                    &&& r == Some((0x40 + 8 * kind_bit(kind)) as u16)
                    &&& *final(self) == (Interrupts { interrupt_master_enable: false, ..*old(self) })
                    &&& *final(bus) == b2.stored(IF_ADDRESS, flags & !(1u8 << kind_bit(kind)), false)
                } else {
                    &&& r == None::<u16>
                    &&& *final(self) == *old(self)
                    &&& *final(bus) == b2
                }
            }),
    {
        let interrupt_flag = bus.load_8(IF_ADDRESS, false);
        let interrupt_enable = bus.load_8(IE_ADDRESS, false);
        let requested_interrupt = interrupt_flag & interrupt_enable & 0x1F;

        if !self.interrupt_master_enable || requested_interrupt == 0 {
            return None;
        }

        self.interrupt_master_enable = false;
        let interrupt_kind = if requested_interrupt & 0x01 != 0 {
            InterruptKind::VBlank
        } else if requested_interrupt & 0x02 != 0 {
            InterruptKind::Lcd
        } else if requested_interrupt & 0x04 != 0 {
            InterruptKind::Timer
        } else if requested_interrupt & 0x08 != 0 {
            InterruptKind::Serial
        } else {
            InterruptKind::Joypad
        };

        let updated_flags = interrupt_flag & !interrupt_kind.bit_mask();
        bus.store_8(IF_ADDRESS, updated_flags, false);

        Some(interrupt_kind.source_address())
    }

    /// Whether an interrupt is both requested and enabled.
    pub fn pending_interrupt<I: MemoryInterface>(&self, bus: &mut I) -> (r: bool)
        ensures
            ({
                let flags = old(bus).peek(IF_ADDRESS);
                let b1 = old(bus).loaded(IF_ADDRESS, false);
                let enable = b1.peek(IE_ADDRESS);
                &&& r == (requested(flags, enable) != 0)
                &&& *final(bus) == b1.loaded(IE_ADDRESS, false)
            }),
    {
        let interrupt_flag = bus.load_8(IF_ADDRESS, false);
        let interrupt_enable = bus.load_8(IE_ADDRESS, false);
        let requested_interrupt = interrupt_flag & interrupt_enable & 0x1F;
        requested_interrupt != 0
    }
}

/// The stage of a pending `EI` or `DI`: staged by
/// the instruction, taking effect one instruction later.
#[derive(Debug, Clone, Copy, PartialEq, Eq, Structural)]
pub enum ImeState {
    Disable,
    Enable,
    Staged,
    NoChange,
}

/// The next stage of a pending `EI` or `DI`: staged becomes due, a due one
/// takes effect and is done.
pub open spec fn next_ime_state(state: ImeState, due: ImeState) -> ImeState {
    if state == ImeState::Staged {
        due
    } else {
        ImeState::NoChange
    }
}

/// Advances a pending `EI` (`ei`) and `DI` (`di`) by one instruction: a due
/// `EI` sets the master enable, then a due `DI` clears it.
pub fn update_ime_state(ime: &mut bool, ei: &mut ImeState, di: &mut ImeState)
    ensures
        *final(ei) == next_ime_state(*old(ei), ImeState::Enable),
        *final(di) == next_ime_state(*old(di), ImeState::Disable),
        *final(ime) == (if *old(di) == ImeState::Disable {
            false
        } else if *old(ei) == ImeState::Enable {
            true
        } else {
            *old(ime)
        }),
{
    *ei = match *ei {
        ImeState::Staged => ImeState::Enable,
        ImeState::Enable => {
            *ime = true;
            ImeState::NoChange
        },
        _ => ImeState::NoChange,
    };

    *di = match *di {
        ImeState::Staged => ImeState::Disable,
        ImeState::Disable => {
            *ime = false;
            ImeState::NoChange
        },
        _ => ImeState::NoChange,
    };
}

} // verus!
