use plastic_core::apu2a03::APU2A03;
use plastic_core::frame_sequencer::{
    ClockOutcome, FrameEvents, FrameSequencer, ResetDelay, SequencerMode,
};
use plastic_core::registers::Register;

fn idle(mode: SequencerMode, inhibit: bool) -> FrameSequencer {
    FrameSequencer {
        cycle: 0,
        mode,
        interrupt_inhibit: inhibit,
        frame_interrupt_flag: false,
        irq_change_requested: false,
        reset_delay: ResetDelay::Idle,
    }
}

const NONE: FrameEvents = FrameEvents { quarter_frame: false, half_frame: false };
const QUARTER: FrameEvents = FrameEvents { quarter_frame: true, half_frame: false };
const BOTH: FrameEvents = FrameEvents { quarter_frame: true, half_frame: true };

#[test]
fn power_on_state_is_five_step_with_reset_due() {
    let seq = FrameSequencer::new();
    assert_eq!(seq.mode, SequencerMode::FiveStep);
    assert_eq!(seq.reset_delay, ResetDelay::Pending(0));
    assert_eq!(seq.cycle, 0);
    assert!(!seq.frame_interrupt_flag);
    assert!(!seq.interrupt_inhibit);
}

#[test]
fn four_step_raises_interrupt_at_exactly_14915_clocks() {
    let mut seq = idle(SequencerMode::FourStep, false);
    for _ in 0..14914 {
        seq.clock();
        assert!(!seq.frame_interrupt_flag);
        assert!(!seq.irq_change_requested);
    }
    assert_eq!(seq.cycle, 14914);
    let out = seq.clock();
    assert!(seq.frame_interrupt_flag);
    assert!(seq.irq_change_requested);
    assert_eq!(seq.cycle, 0);
    assert_eq!(out.on_step, BOTH);
}

#[test]
fn four_step_with_inhibit_never_raises_interrupt() {
    let mut seq = idle(SequencerMode::FourStep, true);
    for _ in 0..100_000 {
        seq.clock();
        assert!(!seq.frame_interrupt_flag);
    }
}

#[test]
fn five_step_never_raises_and_resets_at_18641() {
    let mut seq = idle(SequencerMode::FiveStep, false);
    for _ in 0..14915 {
        seq.clock();
    }
    assert_eq!(seq.cycle, 14915);
    for _ in 14915..18640 {
        seq.clock();
    }
    assert_eq!(seq.cycle, 18640);
    let out = seq.clock();
    assert_eq!(seq.cycle, 0);
    assert_eq!(out.on_step, BOTH);
    for _ in 0..60_000 {
        seq.clock();
        assert!(!seq.frame_interrupt_flag);
    }
}

#[test]
fn frame_clocks_fire_at_the_four_step_counts() {
    let mut seq = idle(SequencerMode::FourStep, false);
    let mut quarters: Vec<u32> = Vec::new();
    let mut halves: Vec<u32> = Vec::new();
    for n in 1..=14915u32 {
        let out = seq.clock();
        assert_eq!(out.on_reset, NONE);
        if out.on_step.quarter_frame {
            quarters.push(n);
        }
        if out.on_step.half_frame {
            halves.push(n);
        }
    }
    assert_eq!(quarters, vec![3729, 7457, 11186, 14915]);
    assert_eq!(halves, vec![7457, 14915]);
}

#[test]
fn frame_clocks_fire_at_the_five_step_counts() {
    let mut seq = idle(SequencerMode::FiveStep, false);
    let mut quarters: Vec<u32> = Vec::new();
    let mut halves: Vec<u32> = Vec::new();
    for n in 1..=18641u32 {
        let out = seq.clock();
        if out.on_step.quarter_frame {
            quarters.push(n);
        }
        if out.on_step.half_frame {
            halves.push(n);
        }
    }
    assert_eq!(quarters, vec![3729, 7457, 11186, 18641]);
    assert_eq!(halves, vec![7457, 18641]);
}

#[test]
fn single_quarter_clock_outcome() {
    let mut seq = idle(SequencerMode::FourStep, false);
    seq.cycle = 3728;
    let out = seq.clock();
    assert_eq!(
        out,
        ClockOutcome { on_reset: NONE, controller_tick: false, on_step: QUARTER }
    );
    assert_eq!(seq.cycle, 3729);
}

#[test]
fn four_step_selection_arms_a_reset_that_fires_on_the_third_clock() {
    let mut seq = idle(SequencerMode::FiveStep, false);
    seq.cycle = 5000;
    let events = seq.write_frame_counter(0x00);
    assert_eq!(events, NONE);
    assert_eq!(seq.mode, SequencerMode::FourStep);
    assert_eq!(seq.reset_delay, ResetDelay::Pending(2));
    seq.clock();
    assert_eq!(seq.reset_delay, ResetDelay::Pending(1));
    assert_eq!(seq.cycle, 5001);
    seq.clock();
    assert_eq!(seq.reset_delay, ResetDelay::Pending(0));
    assert_eq!(seq.cycle, 5002);
    let out = seq.clock();
    assert_eq!(out.on_reset, NONE);
    assert_eq!(seq.reset_delay, ResetDelay::Idle);
    assert_eq!(seq.cycle, 1);
}

#[test]
fn delayed_reset_goes_by_the_mode_at_the_time_it_fires() {
    let mut seq = idle(SequencerMode::FiveStep, false);
    seq.write_frame_counter(0x00);
    seq.clock();
    let immediate = seq.write_frame_counter(0x80);
    assert_eq!(immediate, BOTH);
    assert_eq!(seq.reset_delay, ResetDelay::Pending(1));
    seq.clock();
    let out = seq.clock();
    assert_eq!(out.on_reset, BOTH);
    assert_eq!(seq.cycle, 1);
    assert_eq!(seq.reset_delay, ResetDelay::Idle);
}

#[test]
fn five_step_selection_clocks_at_once_and_arms_nothing() {
    let mut seq = idle(SequencerMode::FourStep, false);
    let events = seq.write_frame_counter(0x80);
    assert_eq!(events, BOTH);
    assert_eq!(seq.mode, SequencerMode::FiveStep);
    assert_eq!(seq.reset_delay, ResetDelay::Idle);
}

#[test]
fn inhibit_write_takes_the_interrupt_back() {
    let mut seq = idle(SequencerMode::FourStep, false);
    seq.frame_interrupt_flag = true;
    seq.write_frame_counter(0x40);
    assert!(seq.interrupt_inhibit);
    assert!(!seq.frame_interrupt_flag);
    assert!(seq.irq_change_requested);
    let mut kept = idle(SequencerMode::FourStep, false);
    kept.frame_interrupt_flag = true;
    kept.write_frame_counter(0x00);
    assert!(kept.frame_interrupt_flag);
    assert!(!kept.irq_change_requested);
}

#[test]
fn controller_tick_comes_every_300_counts() {
    let mut seq = idle(SequencerMode::FiveStep, false);
    let mut ticks: Vec<u32> = Vec::new();
    for k in 0..1000u32 {
        if seq.clock().controller_tick {
            ticks.push(k);
        }
    }
    assert_eq!(ticks, vec![0, 300, 600, 900]);
}

#[test]
fn cycle_wraps_when_resets_keep_being_rearmed() {
    let mut seq = idle(SequencerMode::FourStep, false);
    seq.cycle = u16::MAX;
    seq.reset_delay = ResetDelay::Pending(2);
    seq.clock();
    assert_eq!(seq.cycle, 0);
}

#[test]
fn orchestrator_first_clock_fires_the_power_on_reset() {
    let mut apu = APU2A03::new();
    let out = apu.clock();
    assert_eq!(out.on_reset, BOTH);
    assert!(out.controller_tick);
    assert_eq!(out.on_step, NONE);
    assert_eq!(apu.sequencer.cycle, 1);
    assert_eq!(apu.sequencer.reset_delay, ResetDelay::Idle);
}

#[test]
fn orchestrator_raises_frame_interrupt_in_four_step_mode() {
    let mut apu = APU2A03::new();
    apu.write_register(Register::FrameCounter, 0x00);
    for _ in 0..3 {
        apu.clock();
    }
    assert_eq!(apu.sequencer.cycle, 1);
    assert!(!apu.irq_pin_state());
    for _ in 1..14915 {
        apu.clock();
    }
    assert!(apu.irq_pin_state());
    assert!(apu.is_irq_change_requested());
    apu.clear_irq_request_pin();
    assert!(!apu.is_irq_change_requested());
    assert!(apu.irq_pin_state());
}

#[test]
fn clock_in_two_parts_equals_one_clock() {
    let mut whole = APU2A03::new();
    let mut parts = APU2A03::new();
    whole.write_register(Register::Pulse1_4, 1 << 3);
    parts.write_register(Register::Pulse1_4, 1 << 3);
    for _ in 0..20_000 {
        let out = whole.clock();
        let on_reset = parts.clock_delay();
        let tick = parts.sequencer.controller_tick_due();
        let on_step = parts.clock_count();
        assert_eq!(out, ClockOutcome { on_reset, controller_tick: tick, on_step });
        assert_eq!(whole.sequencer, parts.sequencer);
        assert_eq!(
            whole.square_pulse_1.length_counter,
            parts.square_pulse_1.length_counter
        );
    }
    assert_eq!(whole.square_pulse_1.length_counter.counter(), 254 - 3);
}
