//! The joypad register (P1): two rows of four buttons, selected by bits 4
//! and 5, read as 0 when pressed.
use vstd::prelude::*;

use crate::interrupts::{with_bit, Interrupts};
use crate::memory::SystemMemoryAccess;

verus! {

/// The eight buttons.
#[derive(Debug, Clone, Copy, PartialEq, Eq, Structural)]
pub enum JoypadButton {
    Right,
    Left,
    Up,
    Down,
    A,
    B,
    Select,
    Start,
}

/// Whether a button is in the direction row (row 0).
pub open spec fn in_direction_row(button: JoypadButton) -> bool {
    match button {
        JoypadButton::Right | JoypadButton::Left | JoypadButton::Up | JoypadButton::Down => true,
        _ => false,
    }
}

/// The bit of a button within its row.
pub open spec fn button_bit(button: JoypadButton) -> u8 {
    match button {
        JoypadButton::Right | JoypadButton::A => 0,
        JoypadButton::Left | JoypadButton::B => 1,
        JoypadButton::Up | JoypadButton::Select => 2,
        JoypadButton::Down | JoypadButton::Start => 3,
    }
}

/// The joypad: the two rows (a clear bit is a pressed button), the P1
/// register, and the interrupt flags it raises the joypad interrupt in.
#[derive(Debug, Clone, Copy, PartialEq, Eq, Structural)]
pub struct JoyPad {
    pub row0: u8,
    pub row1: u8,
    pub value: u8,
    pub interrupt_flags: Interrupts,
}

/// The low nibble of P1 for a selection: the rows whose select bit (4 for
/// the directions, 5 for the others) is clear, and-ed together.
pub open spec fn selected_buttons(value: u8, row0: u8, row1: u8) -> u8 {
    let r0: u8 = if value & 0x10 == 0 { 0x0F & row0 } else { 0x0F };
    if value & 0x20 == 0 { r0 & row1 } else { r0 }
}

impl JoyPad {
    /// The joypad's invariant: each row uses only its low four bits, and the
    /// low nibble of P1 shows the buttons of the selected rows.
    pub open spec fn wf(self) -> bool {
        &&& self.row0 <= 0x0F
        &&& self.row1 <= 0x0F
        &&& self.value & 0x0F == selected_buttons(self.value, self.row0, self.row1)
    }

    /// The joypad after the low nibble of P1 is brought up to date. When a
    /// nibble with no button pressed gets one, the joypad interrupt is
    /// requested.
    pub open spec fn updated(self) -> JoyPad {
        let buttons = selected_buttons(self.value, self.row0, self.row1);
        JoyPad {
            value: (self.value & 0xF0) | buttons,
            interrupt_flags: if self.value & 0x0F == 0x0F && buttons != 0x0F {
                Interrupts { bits: with_bit(self.interrupt_flags.bits, 4, true) }
            } else {
                self.interrupt_flags
            },
            ..self
        }
    }

    /// The rows with `button` pressed (`pressed`) or released.
    pub open spec fn with_button(self, button: JoypadButton, pressed: bool) -> JoyPad {
        let mask = 1u8 << button_bit(button);
        if in_direction_row(button) {
            JoyPad { row0: if pressed { self.row0 & !mask } else { self.row0 | mask }, ..self }
        } else {
            JoyPad { row1: if pressed { self.row1 & !mask } else { self.row1 | mask }, ..self }
        }
    }

    /// No button pressed and no row selected; `interrupt_flags` is where the
    /// joypad interrupt is requested.
    pub fn new(interrupt_flags: Interrupts) -> (r: JoyPad)
        ensures
            r.wf(),
            r == (JoyPad { row0: 0x0F, row1: 0x0F, value: 0xFF, interrupt_flags }),
    {
        proof {
            lemma_press_release_row(0x0F, 0);
        }
        JoyPad { row0: 0x0F, row1: 0x0F, value: 0xFF, interrupt_flags }
    }

    fn update_buttons(&mut self)
        ensures
            *final(self) == old(self).updated(),
            old(self).row0 <= 0x0F && old(self).row1 <= 0x0F ==> final(self).wf(),
    {
        proof {
            lemma_updated_value(self.value, self.row0, self.row1);
        }
        let values = self.value & 0xF;
        let mut updated_values: u8 = 0xF;

        if self.value & 0x10 == 0x00 {
            updated_values &= self.row0;
        }
        if self.value & 0x20 == 0x00 {
            updated_values &= self.row1;
        }

        if values == 0xF && updated_values != 0xF {
            self.interrupt_flags.set_joypad(true);
        }

        self.value = (self.value & 0xF0) | updated_values;
    }

    /// Presses `button`.
    pub fn button_down(&mut self, button: JoypadButton)
        requires
            old(self).wf(),
        ensures
            final(self).wf(),
            *final(self) == old(self).with_button(button, true).updated(),
    {
        proof {
            lemma_row_bits(self.row0);
            lemma_row_bits(self.row1);
        }
        match button {
            JoypadButton::Right => self.row0 &= !(1u8 << 0u8),
            JoypadButton::Left => self.row0 &= !(1u8 << 1u8),
            JoypadButton::Up => self.row0 &= !(1u8 << 2u8),
            JoypadButton::Down => self.row0 &= !(1u8 << 3u8),
            JoypadButton::A => self.row1 &= !(1u8 << 0u8),
            JoypadButton::B => self.row1 &= !(1u8 << 1u8),
            JoypadButton::Select => self.row1 &= !(1u8 << 2u8),
            JoypadButton::Start => self.row1 &= !(1u8 << 3u8),
        }
        self.update_buttons();
    }

    /// Releases `button`.
    pub fn button_up(&mut self, button: JoypadButton)
        requires
            old(self).wf(),
        ensures
            final(self).wf(),
            *final(self) == old(self).with_button(button, false).updated(),
    {
        proof {
            lemma_row_bits(self.row0);
            lemma_row_bits(self.row1);
        }
        match button {
            JoypadButton::Right => self.row0 |= 1u8 << 0u8,
            JoypadButton::Left => self.row0 |= 1u8 << 1u8,
            JoypadButton::Up => self.row0 |= 1u8 << 2u8,
            JoypadButton::Down => self.row0 |= 1u8 << 3u8,
            JoypadButton::A => self.row1 |= 1u8 << 0u8,
            JoypadButton::B => self.row1 |= 1u8 << 1u8,
            JoypadButton::Select => self.row1 |= 1u8 << 2u8,
            JoypadButton::Start => self.row1 |= 1u8 << 3u8,
        }
        self.update_buttons();
    }
}

proof fn lemma_row_bits(row: u8)
    by (bit_vector)
    requires
        row <= 0x0F,
    ensures
        row & !(1u8 << 0u8) <= 0x0F,
        row & !(1u8 << 1u8) <= 0x0F,
        row & !(1u8 << 2u8) <= 0x0F,
        row & !(1u8 << 3u8) <= 0x0F,
        row | (1u8 << 0u8) <= 0x0F,
        row | (1u8 << 1u8) <= 0x0F,
        row | (1u8 << 2u8) <= 0x0F,
        row | (1u8 << 3u8) <= 0x0F,
{
}

/// Bringing the nibble up to date makes it agree with the rows, and leaves
/// a nibble that already agrees as it is.
proof fn lemma_updated_value(v: u8, row0: u8, row1: u8)
    by (bit_vector)
    ensures
        ((v & 0xF0) | selected_buttons(v, row0, row1)) & 0x0F == selected_buttons(v, row0, row1),
        selected_buttons((v & 0xF0) | selected_buttons(v, row0, row1), row0, row1) == selected_buttons(
            v,
            row0,
            row1,
        ),
        v & 0x0F == selected_buttons(v, row0, row1) ==> (v & 0xF0) | selected_buttons(v, row0, row1) == v,
{
}

/// Pressing a bit of a row where it is set, then releasing it, gives the
/// row back; and the fixed state a new joypad starts in agrees with its rows.
proof fn lemma_press_release_row(row: u8, b: u8)
    by (bit_vector)
    requires
        b < 4,
    ensures
        row | (1u8 << b) == row ==> (row & !(1u8 << b)) | (1u8 << b) == row,
        0xFFu8 & 0x0F == selected_buttons(0xFF, 0x0F, 0x0F),
{
}

/// Bringing the nibble up to date keeps the high nibble, and with it the
/// row selection.
proof fn lemma_updated_selection(v: u8, row0: u8, row1: u8, a: u8, b: u8)
    by (bit_vector)
    ensures
        ((v & 0xF0) | selected_buttons(v, row0, row1)) & 0xF0 == v & 0xF0,
        selected_buttons((v & 0xF0) | selected_buttons(v, row0, row1), a, b) == selected_buttons(v, a, b),
{
}

proof fn lemma_row_read(v: u8, row: u8, b: u8)
    by (bit_vector)
    requires
        b < 4,
    ensures
        ((v & 0xF0) | (0x0F & (row & !(1u8 << b)))) >> b & 1 == 0,
        ((v & 0xF0) | (0x0F & (row | (1u8 << b)))) >> b & 1 == 1,
{
}

/// A pressed button of a selected row reads as 0 in P1, a released one as
/// 1, whatever the other row holds when it is not selected.
pub proof fn lemma_pressed_button_reads_zero(pad: JoyPad, button: JoypadButton, pressed: bool)
    requires
        pad.wf(),
        in_direction_row(button) ==> pad.value & 0x10 == 0 && pad.value & 0x20 != 0,
        !in_direction_row(button) ==> pad.value & 0x20 == 0 && pad.value & 0x10 != 0,
    ensures
        ((pad.with_button(button, pressed).updated().value >> button_bit(button)) & 1 == 0) == pressed,
{
    lemma_row_read(pad.value, pad.row0, button_bit(button));
    lemma_row_read(pad.value, pad.row1, button_bit(button));
}

/// Pressing a released button and releasing it again gives P1 back as it
/// was.
pub proof fn lemma_press_then_release(pad: JoyPad, button: JoypadButton)
    requires
        pad.wf(),
        pad.with_button(button, false) == pad,
    ensures
        pad.with_button(button, true).updated().with_button(button, false).updated().value == pad.value,
{
    lemma_press_release_row(pad.row0, button_bit(button));
    lemma_press_release_row(pad.row1, button_bit(button));
    let p1 = pad.with_button(button, true).updated();
    lemma_updated_value(pad.value, p1.row0, p1.row1);
    lemma_updated_selection(pad.value, p1.row0, p1.row1, pad.row0, pad.row1);
    lemma_updated_value(p1.value, pad.row0, pad.row1);
    lemma_updated_value(pad.value, pad.row0, pad.row1);
}

/// With only the direction row selected, pressing a direction button clears
/// its bit of P1 (Right 0, Left 1, Up 2, Down 3), releasing it sets that bit,
/// and the rest of P1 stays.
proof fn lemma_row0_press(v: u8, row0: u8, row1: u8, k: u8)
    by (bit_vector)
    requires
        k < 4,
        row0 <= 0x0F,
        v & 0x30 == 0x20,
        v & 0x0F == selected_buttons(v, row0, row1),
    ensures
        v & !(1u8 << 2u8) == v & 0xFB,
        v & !(1u8 << 3u8) == v & 0xF7,
        (v & 0xF0) | selected_buttons(v, row0 & !(1u8 << k), row1) == v & !(1u8 << k),
        (v & 0xF0) | selected_buttons(v, row0 | (1u8 << k), row1) == v | (1u8 << k),
{
}

/// The same for the button row (A 0, B 1, Select 2, Start 3) when only it
/// is selected.
proof fn lemma_row1_press(v: u8, row0: u8, row1: u8, k: u8)
    by (bit_vector)
    requires
        k < 4,
        row1 <= 0x0F,
        v & 0x30 == 0x10,
        v & 0x0F == selected_buttons(v, row0, row1),
    ensures
        (v & 0xF0) | selected_buttons(v, row0, row1 & !(1u8 << k)) == v & !(1u8 << k),
        (v & 0xF0) | selected_buttons(v, row0, row1 | (1u8 << k)) == v | (1u8 << k),
{
}

/// With one row selected, pressing a button of that row clears its bit of
/// P1 and releasing it sets the bit, leaving the other bits: Right, Left,
/// Up and Down are bits 0 to 3 of the direction row (P1 bit 4 clear), A,
/// B, Select and Start bits 0 to 3 of the button row (P1 bit 5 clear).
pub proof fn lemma_button_bits(pad: JoyPad, button: JoypadButton)
    requires
        pad.wf(),
        (pad.value & 0x30 == 0x20 && in_direction_row(button)) || (pad.value & 0x30 == 0x10 && !in_direction_row(button)),
    ensures
        ({
            let k: u8 = match button {
                JoypadButton::Right | JoypadButton::A => 0,
                JoypadButton::Left | JoypadButton::B => 1,
                JoypadButton::Up | JoypadButton::Select => 2,
                JoypadButton::Down | JoypadButton::Start => 3,
            };
            &&& pad.with_button(button, true).updated().value == pad.value & !(1u8 << k)
            &&& pad.with_button(button, false).updated().value == pad.value | (1u8 << k)
        }),
        button == JoypadButton::Up && pad.value & 0x30 == 0x20 ==> pad.with_button(button, true).updated().value
            == pad.value & 0xFB,
        button == JoypadButton::Down && pad.value & 0x30 == 0x20 ==> pad.with_button(button, true).updated().value
            == pad.value & 0xF7,
{
    let v = pad.value;
    let k = button_bit(button);
    if in_direction_row(button) {
        lemma_row0_press(v, pad.row0, pad.row1, k);
    } else {
        lemma_row1_press(v, pad.row0, pad.row1, k);
    }
}

impl SystemMemoryAccess for JoyPad {
    open spec fn inv(&self) -> bool {
        self.wf()
    }

    /// P1.
    open spec fn byte_at(&self, address: u16) -> u8 {
        self.value
    }

    fn read_8(&self, address: u16) -> (r: u8) {
        self.value
    }

    /// Selects the rows (bits 4 and 5 of `value`) and brings the buttons up
    /// to date.
    fn write_8(&mut self, address: u16, value: u8)
        ensures
            *final(self) == (JoyPad { value: (old(self).value & 0xCF) | (value & 0x30), ..*old(self) }).updated(),
    {
        self.value = (self.value & 0xCF) | (value & 0x30);
        self.update_buttons();
    }
}

} // verus!
