use ironboy::dma::{Dma, VramDmaMode};
use ironboy::interrupts::{InterruptController, Interrupts};
use ironboy::joypad::{JoyPad, JoypadButton};
use ironboy::memory::SystemMemoryAccess;
use ironboy::opcode::{FlagAction, OpCode};
use ironboy::ppu::Ppu;
use ironboy::{t_cycles, GbSpeed};
use std::collections::HashMap;

#[test]
fn t_cycles_per_speed() {
    assert_eq!(t_cycles(GbSpeed::Normal), 4);
    assert_eq!(t_cycles(GbSpeed::Double), 2);
}

#[test]
fn interrupt_register_bits() {
    let mut flags = Interrupts::from_bits(0);
    flags.set_vblank(true);
    flags.set_joypad(true);
    assert_eq!(flags.into_bits(), 0x11);
    assert!(flags.vblank());
    assert!(!flags.lcd());
    flags.set_vblank(false);
    flags.set_timer(true);
    flags.set_serial(true);
    flags.set_lcd(true);
    assert_eq!(flags.into_bits(), 0x1E);
    assert!(flags.timer() && flags.serial() && flags.joypad());
    let mut controller = InterruptController::new();
    controller.interrupt_enable_mut().set_timer(true);
    assert_eq!(controller.interrupt_enable().into_bits(), 0x04);
    assert_eq!(controller.interrupt_flags().into_bits(), 0x00);
}

#[test]
fn joypad_press_and_release() {
    let mut pad = JoyPad::new(Interrupts::from_bits(0));
    assert_eq!(pad.read_8(0xFF00), 0xFF);
    // Select the direction row.
    pad.write_8(0xFF00, 0x20);
    assert_eq!(pad.read_8(0xFF00), 0xEF);
    pad.button_down(JoypadButton::Left);
    assert_eq!(pad.read_8(0xFF00), 0xED);
    assert!(pad.interrupt_flags.joypad());
    pad.button_up(JoypadButton::Left);
    assert_eq!(pad.read_8(0xFF00), 0xEF);
    // A button of the other row does not show.
    pad.button_down(JoypadButton::Start);
    assert_eq!(pad.read_8(0xFF00), 0xEF);
    pad.write_8(0xFF00, 0x10);
    assert_eq!(pad.read_8(0xFF00), 0xD7);
}

#[test]
fn dma_registers() {
    let mut dma = Dma::new(GbSpeed::Normal);
    assert_eq!(dma.read_8(0xFF46), 0xFF);
    assert_eq!(dma.read_8(0xFF55), 0xFF);
    dma.write_8(0xFF46, 0xC1);
    assert_eq!(dma.read_8(0xFF46), 0xC1);
    assert!(dma.oam_dma_pending);
    dma.write_8(0xFF51, 0x12);
    dma.write_8(0xFF52, 0x3F);
    assert_eq!(dma.vram_dma_source_address, 0x1230);
    dma.write_8(0xFF53, 0xFF);
    dma.write_8(0xFF54, 0xFF);
    assert_eq!(dma.vram_dma_destination_address, 0x1FF0);
    dma.write_8(0xFF55, 0x81);
    assert_eq!(dma.vram_dma_mode, VramDmaMode::HdmaPending);
    assert_eq!(dma.read_8(0xFF55), 0x02);
    dma.write_8(0xFF55, 0x00);
    assert_eq!(dma.vram_dma_mode, VramDmaMode::Stopped);
    assert_eq!(dma.read_8(0xFF55), 0x82);
}

#[test]
fn oam_dma_copies_into_sprite_memory() {
    let mut dma = Dma::new(GbSpeed::Normal);
    let mut ppu = Ppu::new();
    ppu.write_8(0x8000, 0x5A);
    ppu.write_8(0x8001, 0xA5);
    dma.write_8(0xFF46, 0x80);
    let cartridge = JoyPad::new(Interrupts::from_bits(0));
    let memory = JoyPad::new(Interrupts::from_bits(0));
    dma.cycle(&cartridge, &memory, &mut ppu, false);
    assert_eq!(dma.oam_dma_cycles, 640);
    assert!(!dma.oam_dma_active());
    dma.cycle(&cartridge, &memory, &mut ppu, false);
    dma.cycle(&cartridge, &memory, &mut ppu, false);
    assert!(dma.oam_dma_active());
    assert_eq!(ppu.read_8(0xFE00), 0x5A);
    assert_eq!(ppu.read_8(0xFE01), 0xA5);
    assert_eq!(dma.oam_dma_cycles, 632);
}

#[test]
fn opcode_entry() {
    let mut flags = HashMap::new();
    flags.insert(0x80u8, FlagAction::Depend);
    flags.insert(0x40u8, FlagAction::Unset);
    flags.insert(0x20u8, FlagAction::SetFlag);
    flags.insert(0x10u8, FlagAction::Ignore);
    let op = OpCode::new(0x04, String::from("INC B"), (4, 4), (1, 1), 1, flags);
    assert_eq!(op.value, 0x04);
    assert_eq!(op.name, "INC B");
    assert_eq!(op.flags_to_action.get(&0x20u8), Some(&FlagAction::SetFlag));
}
