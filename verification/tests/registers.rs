use plastic_core::apu2a03::APU2A03;
use plastic_core::dmc::Dmc;
use plastic_core::frame_sequencer::FrameEvents;
use plastic_core::length_counter::{length_table_entry, LengthCounter};
use plastic_core::registers::Register;

const TABLE: [u8; 32] = [
    10, 254, 20, 2, 40, 4, 80, 6, 160, 8, 60, 10, 14, 12, 26, 14, 12, 16, 24, 18, 48, 20, 96, 22,
    192, 24, 72, 26, 16, 28, 32, 30,
];

#[test]
fn reload_sets_the_table_value_for_every_index() {
    for i in 0..32u8 {
        let mut lc = LengthCounter::new();
        lc.reload_counter(i);
        assert_eq!(lc.counter(), TABLE[i as usize]);
        assert_eq!(length_table_entry(i), TABLE[i as usize]);
    }
}

#[test]
fn disabling_forces_the_counter_to_zero() {
    for i in 0..32u8 {
        let mut lc = LengthCounter::new();
        lc.set_enabled(true);
        lc.reload_counter(i);
        assert_ne!(lc.counter(), 0);
        lc.set_enabled(false);
        assert_eq!(lc.counter(), 0);
        assert!(!lc.enabled);
    }
}

#[test]
fn enabling_keeps_the_counter() {
    let mut lc = LengthCounter::new();
    lc.reload_counter(1);
    lc.set_enabled(true);
    assert_eq!(lc.counter(), 254);
}

#[test]
fn decrement_stops_at_zero_and_when_halted() {
    let mut lc = LengthCounter::new();
    lc.reload_counter(3);
    lc.decrement();
    assert_eq!(lc.counter(), 1);
    lc.decrement();
    assert_eq!(lc.counter(), 0);
    lc.decrement();
    assert_eq!(lc.counter(), 0);
    lc.reload_counter(0);
    lc.set_halt(true);
    lc.decrement();
    assert_eq!(lc.counter(), 10);
}

#[test]
fn pulse_control_write_splits_the_byte() {
    let mut apu = APU2A03::new();
    let events = apu.write_register(Register::Pulse1_1, 0b1011_0101);
    assert_eq!(events, FrameEvents { quarter_frame: false, half_frame: false });
    let ch = apu.square_pulse_1.channel;
    assert_eq!(ch.duty_cycle_index, 2);
    assert_eq!(ch.envelope.volume, 5);
    assert!(ch.envelope.use_constant_volume);
    assert!(ch.envelope.loop_flag);
    assert!(ch.envelope.start_flag);
    assert!(apu.square_pulse_1.length_counter.halt);
    assert_eq!(apu.square_pulse_2.channel.duty_cycle_index, 0);
    assert!(!apu.square_pulse_2.channel.envelope.start_flag);

    apu.write_register(Register::Pulse2_1, 0b0100_1111);
    let ch = apu.square_pulse_2.channel;
    assert_eq!(ch.duty_cycle_index, 1);
    assert_eq!(ch.envelope.volume, 15);
    assert!(!ch.envelope.use_constant_volume);
    assert!(!ch.envelope.loop_flag);
    assert!(ch.envelope.start_flag);
    assert!(!apu.square_pulse_2.length_counter.halt);
}

#[test]
fn sweep_write_keeps_the_byte() {
    let mut apu = APU2A03::new();
    apu.write_register(Register::Pulse1_2, 0xA7);
    apu.write_register(Register::Pulse2_2, 0x3C);
    assert_eq!(apu.square_pulse_1.channel.sweeper_data, 0xA7);
    assert_eq!(apu.square_pulse_2.channel.sweeper_data, 0x3C);
}

#[test]
fn timer_writes_replace_their_bits_only() {
    let mut apu = APU2A03::new();
    apu.write_register(Register::Pulse1_4, 0b1111_1101);
    assert_eq!(apu.square_pulse_1.channel.period, 0x500);
    apu.write_register(Register::Pulse1_3, 0xAB);
    assert_eq!(apu.square_pulse_1.channel.period, 0x5AB);
    apu.write_register(Register::Pulse1_4, 0b0000_0010);
    assert_eq!(apu.square_pulse_1.channel.period, 0x2AB);
    apu.write_register(Register::Pulse1_3, 0x01);
    assert_eq!(apu.square_pulse_1.channel.period, 0x201);

    apu.write_register(Register::Triangle3, 0x34);
    apu.write_register(Register::Triangle4, 0x07);
    assert_eq!(apu.triangle.channel.period, 0x734);
    apu.write_register(Register::Pulse2_3, 0xFF);
    apu.write_register(Register::Pulse2_4, 0x01);
    assert_eq!(apu.square_pulse_2.channel.period, 0x1FF);
}

#[test]
fn length_load_reloads_retriggers_and_resets() {
    let mut apu = APU2A03::new();
    apu.write_register(Register::Pulse1_4, 1 << 3);
    assert_eq!(apu.square_pulse_1.length_counter.counter(), 254);
    assert!(apu.square_pulse_1.channel.envelope.start_flag);
    assert!(apu.square_pulse_1.channel.phase_reset);
    apu.write_register(Register::Pulse2_4, 31 << 3);
    assert_eq!(apu.square_pulse_2.length_counter.counter(), 30);
    assert!(apu.square_pulse_2.channel.phase_reset);
    apu.write_register(Register::Triangle4, 8 << 3);
    assert_eq!(apu.triangle.length_counter.counter(), 160);
    assert!(apu.triangle.channel.linear_counter_reload_flag);
    apu.write_register(Register::Noise4, 24 << 3);
    assert_eq!(apu.noise.length_counter.counter(), 192);
}

#[test]
fn triangle_and_noise_control_writes() {
    let mut apu = APU2A03::new();
    apu.write_register(Register::Triangle1, 0xFF);
    assert_eq!(apu.triangle.channel.linear_counter_reload_value, 127);
    assert!(apu.triangle.channel.linear_counter_control_flag);
    assert!(apu.triangle.length_counter.halt);
    apu.write_register(Register::Triangle1, 0x12);
    assert_eq!(apu.triangle.channel.linear_counter_reload_value, 0x12);
    assert!(!apu.triangle.channel.linear_counter_control_flag);
    assert!(!apu.triangle.length_counter.halt);

    apu.write_register(Register::Noise1, 0b0011_1001);
    assert_eq!(apu.noise.channel.envelope.volume, 9);
    assert!(apu.noise.channel.envelope.use_constant_volume);
    assert!(apu.noise.channel.envelope.loop_flag);
    assert!(apu.noise.channel.envelope.start_flag);
    assert!(apu.noise.length_counter.halt);
    apu.write_register(Register::Noise3, 0x8C);
    assert!(apu.noise.channel.mode_flag);
    assert_eq!(apu.noise.channel.period, 12);
}

#[test]
fn unused_registers_change_nothing() {
    let mut apu = APU2A03::new();
    apu.write_register(Register::Triangle2, 0xFF);
    apu.write_register(Register::Noise2, 0xFF);
    let fresh = APU2A03::new();
    assert_eq!(apu.triangle.channel, fresh.triangle.channel);
    assert_eq!(apu.noise.channel, fresh.noise.channel);
    assert_eq!(apu.sequencer, fresh.sequencer);
    assert_eq!(apu.dmc, fresh.dmc);
}

#[test]
fn sample_channel_writes() {
    let mut apu = APU2A03::new();
    apu.write_register(Register::DMC1, 0b1100_1010);
    assert_eq!(apu.dmc.rate_index, 10);
    assert!(apu.dmc.loop_flag);
    assert!(apu.dmc.irq_enabled);
    apu.write_register(Register::DMC2, 0xFF);
    assert_eq!(apu.dmc.direct_output_level, 127);
    apu.write_register(Register::DMC3, 0x02);
    assert_eq!(apu.dmc.sample_address, 0xC080);
    apu.write_register(Register::DMC4, 0x03);
    assert_eq!(apu.dmc.sample_length, 49);
}

#[test]
fn status_write_enables_and_disables() {
    let mut apu = APU2A03::new();
    apu.write_register(Register::Pulse1_4, 0 << 3);
    apu.write_register(Register::Pulse2_4, 1 << 3);
    apu.write_register(Register::Triangle4, 2 << 3);
    apu.write_register(Register::Noise4, 3 << 3);
    apu.write_register(Register::Status, 0b0000_0101);
    assert_eq!(apu.square_pulse_1.length_counter.counter(), 10);
    assert_eq!(apu.square_pulse_2.length_counter.counter(), 0);
    assert_eq!(apu.triangle.length_counter.counter(), 20);
    assert_eq!(apu.noise.length_counter.counter(), 0);
    assert!(apu.square_pulse_1.length_counter.enabled);
    assert!(!apu.square_pulse_2.length_counter.enabled);
    assert!(apu.triangle.length_counter.enabled);
    assert!(!apu.noise.length_counter.enabled);
}

#[test]
fn status_write_starts_and_stops_the_sample() {
    let mut apu = APU2A03::new();
    apu.write_register(Register::DMC3, 0x01);
    apu.write_register(Register::DMC4, 0x01);
    apu.dmc.interrupt_flag = true;
    apu.write_register(Register::Status, 0x10);
    assert_eq!(apu.dmc.sample_remaining_bytes, 17);
    assert_eq!(apu.dmc.current_address, 0xC040);
    assert!(!apu.dmc.interrupt_flag);
    assert!(apu.dmc.irq_change_requested);
    assert_eq!(apu.request_dmc_reader_read(), Some(0xC040));

    apu.submit_buffer_byte(0x55);
    assert_eq!(apu.dmc.sample_remaining_bytes, 16);
    assert_eq!(apu.dmc.sample_buffer, Some(0x55));
    assert_eq!(apu.request_dmc_reader_read(), None);
    apu.write_register(Register::Status, 0x10);
    assert_eq!(apu.dmc.sample_remaining_bytes, 16);
    assert_eq!(apu.dmc.current_address, 0xC041);

    apu.dmc.interrupt_flag = true;
    apu.write_register(Register::Status, 0x00);
    assert_eq!(apu.dmc.sample_remaining_bytes, 0);
    assert!(apu.dmc.silence);
    assert!(!apu.dmc.interrupt_flag);
}

#[test]
fn sample_end_raises_the_interrupt_or_loops() {
    let mut dmc = Dmc::new();
    dmc.set_samples_address(0xFF);
    dmc.set_samples_length(0);
    dmc.set_irq_enabled_flag(true);
    dmc.restart_sample();
    assert_eq!(dmc.sample_remaining_bytes, 1);
    assert_eq!(dmc.current_address, 0xFFC0);
    dmc.submit_buffer_byte(1);
    assert_eq!(dmc.sample_remaining_bytes, 0);
    assert!(dmc.get_irq_pin_state());
    assert!(dmc.is_irq_change_requested());
    assert!(!dmc.sample_remaining_bytes_more_than_0());
    dmc.clear_irq_request_pin();
    assert!(!dmc.is_irq_change_requested());
    assert!(dmc.get_irq_pin_state());

    let mut looped = Dmc::new();
    looped.set_samples_length(0);
    looped.set_samples_address(3);
    looped.set_loop_flag(true);
    looped.set_irq_enabled_flag(true);
    looped.restart_sample();
    looped.submit_buffer_byte(9);
    assert_eq!(looped.sample_remaining_bytes, 1);
    assert_eq!(looped.current_address, 0xC0C0);
    assert!(!looped.get_irq_pin_state());

    let mut wrapped = Dmc::new();
    wrapped.set_samples_length(1);
    wrapped.restart_sample();
    wrapped.current_address = 0xFFFF;
    wrapped.submit_buffer_byte(0);
    assert_eq!(wrapped.current_address, 0x8000);
    assert_eq!(wrapped.sample_remaining_bytes, 16);
}

#[test]
fn status_read_shows_each_flag_in_its_bit() {
    let mut apu = APU2A03::new();
    assert_eq!(apu.read_register(Register::Status), 0);
    apu.write_register(Register::Pulse1_4, 0);
    assert_eq!(apu.read_register(Register::Status), 0b0000_0001);
    apu.write_register(Register::Pulse2_4, 0);
    assert_eq!(apu.read_register(Register::Status), 0b0000_0011);
    apu.write_register(Register::Triangle4, 0);
    assert_eq!(apu.read_register(Register::Status), 0b0000_0111);
    apu.write_register(Register::Noise4, 0);
    assert_eq!(apu.read_register(Register::Status), 0b0000_1111);
    apu.write_register(Register::Status, 0b0000_1010);
    assert_eq!(apu.read_register(Register::Status), 0b0000_1010);
    apu.write_register(Register::DMC4, 1);
    apu.write_register(Register::Status, 0x10);
    assert_eq!(apu.read_register(Register::Status), 0b0001_0000);
    apu.dmc.interrupt_flag = true;
    assert_eq!(apu.read_register(Register::Status), 0b1001_0000);
}

#[test]
fn status_read_clears_the_frame_interrupt() {
    let mut apu = APU2A03::new();
    apu.sequencer.frame_interrupt_flag = true;
    apu.write_register(Register::Noise4, 0);
    assert_eq!(apu.read_register(Register::Status), 0b0100_1000);
    assert!(!apu.sequencer.frame_interrupt_flag);
    assert!(apu.sequencer.irq_change_requested);
    assert_eq!(apu.read_register(Register::Status), 0b0000_1000);
}

#[test]
fn status_read_raises_the_change_request_even_without_interrupt() {
    let mut apu = APU2A03::new();
    assert!(!apu.is_irq_change_requested());
    apu.read_register(Register::Status);
    assert!(apu.is_irq_change_requested());
    assert!(!apu.irq_pin_state());
}

#[test]
fn other_registers_read_as_zero_without_side_effect() {
    let mut apu = APU2A03::new();
    apu.sequencer.frame_interrupt_flag = true;
    apu.write_register(Register::Pulse1_1, 0xFF);
    for register in [
        Register::Pulse1_1,
        Register::Pulse1_4,
        Register::Triangle1,
        Register::Noise3,
        Register::DMC1,
        Register::FrameCounter,
    ] {
        assert_eq!(apu.read_register(register), 0);
    }
    assert!(apu.sequencer.frame_interrupt_flag);
    assert!(!apu.sequencer.irq_change_requested);
}

#[test]
fn five_step_selection_clocks_the_length_counters_at_once() {
    let mut apu = APU2A03::new();
    apu.write_register(Register::Pulse1_4, 0);
    apu.write_register(Register::Noise4, 3 << 3);
    apu.write_register(Register::Triangle1, 0x80);
    apu.write_register(Register::Triangle4, 0);
    let events = apu.write_register(Register::FrameCounter, 0x80);
    assert_eq!(events, FrameEvents { quarter_frame: true, half_frame: true });
    assert_eq!(apu.square_pulse_1.length_counter.counter(), 9);
    assert_eq!(apu.noise.length_counter.counter(), 1);
    assert_eq!(apu.triangle.length_counter.counter(), 10);
    assert_eq!(apu.square_pulse_2.length_counter.counter(), 0);
    let events = apu.write_register(Register::FrameCounter, 0x00);
    assert_eq!(events, FrameEvents { quarter_frame: false, half_frame: false });
    assert_eq!(apu.square_pulse_1.length_counter.counter(), 9);
}

#[test]
fn half_frame_clock_decrements_all_four_counters() {
    let mut apu = APU2A03::new();
    apu.write_register(Register::Pulse1_4, 0);
    apu.write_register(Register::Pulse2_4, 1 << 3);
    apu.write_register(Register::Triangle4, 2 << 3);
    apu.write_register(Register::Noise4, 3 << 3);
    apu.sequencer.cycle = 7456;
    apu.sequencer.reset_delay = plastic_core::frame_sequencer::ResetDelay::Idle;
    apu.clock();
    assert_eq!(apu.square_pulse_1.length_counter.counter(), 9);
    assert_eq!(apu.square_pulse_2.length_counter.counter(), 253);
    assert_eq!(apu.triangle.length_counter.counter(), 19);
    assert_eq!(apu.noise.length_counter.counter(), 1);
    apu.generate_half_frame_clock();
    assert_eq!(apu.noise.length_counter.counter(), 0);
    apu.generate_half_frame_clock();
    assert_eq!(apu.noise.length_counter.counter(), 0);
}
