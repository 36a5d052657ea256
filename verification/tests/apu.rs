use ironboy::apu::channel::{Channel, ChannelBase};
use ironboy::apu::Apu;
use ironboy::apu::div_apu::{DivApu, DivApuContext};
use ironboy::apu::frame_sequencer::FrameSequencer;
use ironboy::apu::length_timer::LengthTimer;
use ironboy::apu::mixer::Mixer;
use ironboy::apu::noise::NoiseChannel;
use ironboy::apu::square::SquareChannel;
use ironboy::apu::sweep::Sweep;
use ironboy::apu::volume_envelope::VolumeEnvelope;
use ironboy::apu::wave::WaveChannel;
use ironboy::memory::SystemMemoryAccess;
use ironboy::{GbMode, GbSpeed};

#[test]
fn length_timer_switches_channel_off() {
    let mut timer = LengthTimer::new();
    let mut enabled = true;
    timer.cycle(&mut enabled);
    assert!(enabled);
    timer.set_enabled(true);
    timer.set_time(2);
    timer.cycle(&mut enabled);
    assert!(enabled);
    assert_eq!(timer.time(), 1);
    timer.cycle(&mut enabled);
    assert!(!enabled);
    assert_eq!(timer.time(), 0);
    timer.reset();
    assert!(!timer.enabled());
}

#[test]
fn volume_envelope_steps_down() {
    let mut envelope = VolumeEnvelope::new();
    envelope.write(0x92);
    assert_eq!(envelope.read(), 0x92);
    envelope.reset();
    assert_eq!(envelope.volume, 9);
    assert_eq!(envelope.timer, 2);
    envelope.cycle();
    assert_eq!(envelope.volume, 9);
    envelope.cycle();
    assert_eq!(envelope.volume, 8);
    assert_eq!(envelope.timer, 2);
    assert!(!envelope.disable_dac());
    envelope.write(0x00);
    assert!(envelope.disable_dac());
}

#[test]
fn sweep_raises_period() {
    let mut sweep = Sweep::new();
    let mut enabled = true;
    sweep.write(0x11, &mut enabled);
    assert_eq!(sweep.read(), 0x91);
    sweep.trigger(0x100, &mut enabled);
    assert!(enabled);
    let mut period: u16 = 0x100;
    sweep.cycle(&mut period, &mut enabled);
    assert_eq!(period, 0x180);
    assert!(enabled);
}

#[test]
fn sweep_overflow_switches_channel_off() {
    let mut sweep = Sweep::new();
    let mut enabled = true;
    sweep.write(0x11, &mut enabled);
    sweep.trigger(0x7F0, &mut enabled);
    assert!(!enabled);
}

#[test]
fn square_channel_plays_duty_pattern() {
    let mut ch = SquareChannel::new(true);
    ch.write_8(0xFF12, 0xF0);
    ch.write_8(0xFF11, 0x80);
    ch.write_8(0xFF13, 0x00);
    ch.write_8(0xFF14, 0x87);
    assert!(ch.enabled());
    assert_eq!(ch.read_8(0xFF11), 0xBF);
    assert_eq!(ch.read_8(0xFF12), 0xF0);
    assert_eq!(ch.read_8(0xFF14), 0xBF);
    assert_eq!(ch.period_timer, 1024);
    for _ in 0..1279 {
        ch.cycle();
    }
    assert_eq!(ch.sample(), 0);
    ch.cycle();
    assert_eq!(ch.sample(), 15);
}

#[test]
fn square_channel_registers_and_dac() {
    let mut ch1 = SquareChannel::new(true);
    let mut ch2 = SquareChannel::new(false);
    ch1.write_8(0xFF10, 0x00);
    assert_eq!(ch1.read_8(0xFF10), 0x80);
    assert_eq!(ch2.read_8(0xFF10), 0xFF);
    ch2.write_8(0xFF17, 0x08);
    ch2.write_8(0xFF19, 0x80);
    assert!(ch2.enabled());
    ch2.write_8(0xFF17, 0x00);
    assert!(!ch2.enabled());
    assert_eq!(ch2.sample(), 0);
    ch1.write_8(0xFF12, 0xF0);
    ch1.write_8(0xFF14, 0xC0);
    assert_eq!(ch1.read_8(0xFF14), 0xFF);
    ch1.reset();
    assert!(!ch1.enabled());
    assert_eq!(ch1.period, 0);
}

#[test]
fn noise_channel_shifts_register() {
    let mut ch = NoiseChannel::new(GbMode::Monochrome);
    ch.write_8(0xFF21, 0xF8);
    ch.write_8(0xFF22, 0x00);
    ch.write_8(0xFF23, 0x80);
    assert!(ch.enabled);
    assert_eq!(ch.period_divider, 8);
    assert_eq!(ch.read_8(0xFF23), 0xBF);
    ch.cycle();
    assert_eq!(ch.lfsr, 0);
    ch.cycle();
    assert_eq!(ch.lfsr, 0x4000);
    assert_eq!(Channel::sample(&ch), 0);
}

#[test]
fn noise_channel_narrow_mode_and_period() {
    let mut ch = NoiseChannel::new(GbMode::Monochrome);
    ch.write_8(0xFF21, 0xF8);
    ch.write_8(0xFF22, 0x08);
    ch.write_8(0xFF23, 0x80);
    ch.cycle();
    ch.cycle();
    assert_eq!(ch.lfsr, 0x4040);
    ch.write_8(0xFF22, 0x21);
    ch.write_8(0xFF23, 0x80);
    assert_eq!(ch.period_divider, 64);
    assert_eq!(ch.read_8(0xFF22), 0x21);
    ch.reset();
    assert!(!ch.enabled);
    assert_eq!(ch.read_8(0xFF22), 0x00);
}

#[test]
fn wave_channel_ram_and_output() {
    let mut ch = WaveChannel::new(GbMode::Monochrome);
    ch.write_8(0xFF30, 0x12);
    assert_eq!(ch.read_8(0xFF30), 0x12);
    ch.write_8(0xFF1A, 0x80);
    ch.write_8(0xFF1C, 0x20);
    ch.write_8(0xFF1D, 0x00);
    ch.write_8(0xFF1E, 0x87);
    assert!(ch.enabled);
    assert_eq!(ch.wave_position, 0);
    assert_eq!(ch.period.timer, 259);
    assert_eq!(Channel::sample(&ch), 1);
    assert_eq!(ch.read_8(0xFF1A), 0xFF);
    assert_eq!(ch.read_8(0xFF1C), 0xBF);
    assert_eq!(ch.read_8(0xFF1E), 0xBF);
    // While it plays on the DMG, wave RAM reads 0xFF between fetches.
    assert_eq!(ch.read_8(0xFF30), 0xFF);
}

#[test]
fn wave_channel_length_expires() {
    let mut ch = WaveChannel::new(GbMode::Color);
    ch.write_8(0xFF1A, 0x80);
    ch.write_8(0xFF1B, 0xFF);
    ch.write_8(0xFF1E, 0xC0);
    assert!(ch.enabled);
    ch.cycle_length();
    assert!(!ch.enabled);
}

#[test]
fn mixer_sums_selected_outputs() {
    let mixer = Mixer::from_bits(0xF0);
    assert_eq!(mixer.mix([4, 8, 12, 16]), (10, 10));
    let mixer = Mixer::from_bits(0x80);
    assert_eq!(mixer.mix([8, 1, 1, 1]), (2, 2));
    let mixer = Mixer::from_bits(0x0F);
    assert_eq!(mixer.mix([8, 8, 8, 8]), (0, 0));
}

#[test]
fn channel_base_output() {
    let mut base = ChannelBase::new();
    base.sample = 7;
    assert_eq!(base.sample(), 0);
    base.enabled = true;
    base.dac_enabled = true;
    assert_eq!(base.sample(), 7);
    base.reset();
    assert_eq!(base.sample(), 0);
}

#[test]
fn frame_sequencer_counts_falling_edges() {
    let mut fs = FrameSequencer::new();
    let mut ch1 = SquareChannel::new(true);
    let mut ch2 = SquareChannel::new(false);
    let mut ch3 = WaveChannel::new(GbMode::Monochrome);
    let mut ch4 = NoiseChannel::new(GbMode::Monochrome);
    fs.cycle(&mut ch1, &mut ch2, &mut ch3, &mut ch4, 0x10, GbSpeed::Normal);
    assert_eq!(fs.step, 0);
    fs.cycle(&mut ch1, &mut ch2, &mut ch3, &mut ch4, 0x00, GbSpeed::Normal);
    assert_eq!(fs.step, 1);
    fs.cycle(&mut ch1, &mut ch2, &mut ch3, &mut ch4, 0x20, GbSpeed::Double);
    fs.cycle(&mut ch1, &mut ch2, &mut ch3, &mut ch4, 0x10, GbSpeed::Double);
    assert_eq!(fs.step, 2);
    fs.reset();
    assert_eq!(fs.step, 0);
}

#[test]
fn div_apu_clocks_length_and_shares_step() {
    let mut div_apu = DivApu::new();
    let mut ch2 = SquareChannel::new(false);
    ch2.write_8(0xFF17, 0xF0);
    ch2.write_8(0xFF16, 0x3E);
    ch2.write_8(0xFF19, 0xC0);
    assert!(ch2.enabled());
    assert_eq!(ch2.length_timer.time(), 2);
    let mut ctx = DivApuContext {
        ch1: SquareChannel::new(true),
        ch2,
        ch3: WaveChannel::new(GbMode::Monochrome),
        ch4: NoiseChannel::new(GbMode::Monochrome),
        div: 0x10,
        speed: GbSpeed::Normal,
    };
    div_apu.cycle(&mut ctx);
    ctx.div = 0x00;
    div_apu.cycle(&mut ctx);
    assert_eq!(div_apu.step, 1);
    assert_eq!(ctx.ch2.length_timer.time(), 1);
    assert_eq!(ctx.ch1.div_apu_step, 1);
    assert_eq!(ctx.ch4.div_apu_step, 1);
    div_apu.reset();
    assert_eq!(div_apu.step, 0);
}

#[test]
fn apu_power_and_registers() {
    let mut apu = Apu::new(GbMode::Monochrome);
    assert_eq!(apu.read_8(0xFF26), 0x70);
    // Writes are ignored while the unit is off, except NR52 and wave RAM.
    apu.write_8(0xFF24, 0x77);
    assert_eq!(apu.read_8(0xFF24), 0x00);
    apu.write_8(0xFF30, 0xAB);
    assert_eq!(apu.read_8(0xFF30), 0xAB);
    apu.write_8(0xFF26, 0x80);
    assert_eq!(apu.read_8(0xFF26), 0xF0);
    apu.write_8(0xFF24, 0x77);
    apu.write_8(0xFF25, 0xF3);
    assert_eq!(apu.read_8(0xFF24), 0x77);
    assert_eq!(apu.read_8(0xFF25), 0xF3);
    apu.write_8(0xFF17, 0xF0);
    apu.write_8(0xFF19, 0x80);
    assert_eq!(apu.read_8(0xFF26), 0xF2);
    assert_eq!(apu.read_8(0xFF76), 0x00);
    apu.write_8(0xFF26, 0x00);
    assert_eq!(apu.read_8(0xFF26), 0x70);
    assert_eq!(apu.read_8(0xFF24), 0x00);
    assert_eq!(apu.read_8(0xFF25), 0x00);
}

#[test]
fn apu_cycle_runs_channels() {
    let mut apu = Apu::new(GbMode::Monochrome);
    apu.write_8(0xFF26, 0x80);
    apu.write_8(0xFF12, 0xF0);
    apu.write_8(0xFF11, 0x80);
    apu.write_8(0xFF14, 0x87);
    for _ in 0..1280 {
        apu.cycle(0, GbSpeed::Normal);
    }
    assert_eq!(apu.read_8(0xFF76), 0x0F);
    apu.write_8(0xFF26, 0x00);
    apu.cycle(0x10, GbSpeed::Normal);
    assert_eq!(apu.div_apu.step, 0);
}

#[test]
fn frame_sequencer_wraps_after_eight_edges() {
    let mut fs = FrameSequencer::new();
    let mut ch1 = SquareChannel::new(true);
    let mut ch2 = SquareChannel::new(false);
    let mut ch3 = WaveChannel::new(GbMode::Monochrome);
    let mut ch4 = NoiseChannel::new(GbMode::Monochrome);
    for _ in 0..9 {
        fs.cycle(&mut ch1, &mut ch2, &mut ch3, &mut ch4, 0x10, GbSpeed::Normal);
        fs.cycle(&mut ch1, &mut ch2, &mut ch3, &mut ch4, 0x00, GbSpeed::Normal);
    }
    assert_eq!(fs.step, 1);
}
