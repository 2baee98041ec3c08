//! Exact-value and property tests for the fixed-point DSP primitives.

use toby::blep::{
    next_blep_sample, next_integrated_blep_sample, this_blep_sample, this_integrated_blep_sample,
};
use toby::envelope::{EnvelopeEvent, EnvelopeStage, ADSR};
use toby::filter::{FilterMode, Svf};
use toby::fixed::{fx_div, fx_mul, ONE};
use toby::modulator::ModulationAlgorithm;
use toby::smoother::LinearSmoother;
use toby::tuning::{db_to_gain, midi_note_to_freq};
use toby::util::{clip16, cross_fade, interpolate_table, soft_clip, soft_limit};

const HALF: i64 = 524288;

#[test]
fn fixed_point_helpers() {
    assert_eq!(fx_mul(ONE, ONE), ONE);
    assert_eq!(fx_mul(HALF, HALF), ONE / 4);
    assert_eq!(fx_mul(-HALF, HALF), -(ONE / 4));
    assert_eq!(fx_div(ONE, 2 * ONE), HALF);
    assert_eq!(fx_div(-ONE, 2 * ONE), -HALF);
}

#[test]
fn blep_kernels_at_endpoints() {
    assert_eq!(this_blep_sample(0), 0);
    assert_eq!(this_blep_sample(ONE), HALF);
    assert_eq!(next_blep_sample(0), HALF);
    assert_eq!(next_blep_sample(ONE), 0);
    assert_eq!(next_integrated_blep_sample(0), 196608);
    assert_eq!(next_integrated_blep_sample(ONE), 0);
    assert_eq!(this_integrated_blep_sample(0), 0);
    assert_eq!(this_integrated_blep_sample(ONE), 196608);
}

#[test]
fn blep_step_cancellation_concrete() {
    // The two halves of a unit-step correction leave exactly t - 1/2.
    for t in [0, 1, 12345, HALF, 700000, ONE - 1, ONE] {
        assert_eq!(this_blep_sample(t) - next_blep_sample(t), t - HALF);
    }
}

#[test]
fn blep_mirror_symmetry_concrete() {
    for t in [0, 5000, HALF, 900000, ONE] {
        assert_eq!(this_blep_sample(t), next_blep_sample(ONE - t));
        assert_eq!(this_integrated_blep_sample(t), next_integrated_blep_sample(ONE - t));
    }
}

#[test]
fn soft_limiter_values() {
    assert_eq!(soft_limit(0), 0);
    assert_eq!(soft_limit(ONE), 815558);
    assert_eq!(soft_limit(-ONE), -815558);
    assert_eq!(soft_clip(4 * ONE), ONE);
    assert_eq!(soft_clip(-4 * ONE), -ONE);
    assert_eq!(soft_clip(3 * ONE), 1048575);
}

#[test]
fn cross_fade_values() {
    assert_eq!(cross_fade(0, ONE, HALF), HALF);
    assert_eq!(cross_fade(ONE, ONE, 123), ONE);
    assert_eq!(cross_fade(-ONE, ONE, 0), -ONE);
    assert_eq!(cross_fade(-ONE, ONE, ONE), ONE);
}

#[test]
fn interpolate_table_values() {
    let table = [0i64, ONE, 0];
    assert_eq!(interpolate_table(&table, HALF, ONE), HALF);
    assert_eq!(interpolate_table(&table, 0, ONE), 0);
    assert_eq!(interpolate_table(&table, HALF, 2 * ONE), ONE);
}

#[test]
fn clip16_values() {
    assert_eq!(clip16(-40000), -32768);
    assert_eq!(clip16(40000), 32767);
    assert_eq!(clip16(123), 123);
    assert_eq!(clip16(-32768), -32768);
    assert_eq!(clip16(32767), 32767);
}

#[test]
fn modulator_values() {
    let p = ModulationAlgorithm::XFade;
    assert_eq!(p.process(ONE, -ONE, HALF), 0);
    assert_eq!(p.process(ONE, -ONE, 0), ONE);
    assert_eq!(p.process(ONE, -ONE, ONE), -ONE);
    assert_eq!(ModulationAlgorithm::Nop.process(654321, -ONE, HALF), 654321);
    assert_eq!(ModulationAlgorithm::DigitalRingModulation.process(HALF, HALF, 0), 524288);
    assert_eq!(ModulationAlgorithm::Xor.process(ONE, HALF, ONE), 524256);
    assert_eq!(ModulationAlgorithm::Xor.process(ONE, HALF, 0), 1101004);
    assert_eq!(ModulationAlgorithm::AnalogRingModulation.process(ONE, ONE, 0), 1050874);
    assert_eq!(ModulationAlgorithm::Fold.process(ONE, ONE, ONE), 220095);
}

#[test]
fn modulators_stay_bounded() {
    let algorithms = [
        ModulationAlgorithm::XFade,
        ModulationAlgorithm::Fold,
        ModulationAlgorithm::AnalogRingModulation,
        ModulationAlgorithm::DigitalRingModulation,
        ModulationAlgorithm::Xor,
        ModulationAlgorithm::Nop,
    ];
    for alg in algorithms {
        for m in [-2 * ONE, -ONE, -1, 0, 1, HALF, ONE, 2 * ONE] {
            for c in [-2 * ONE, -HALF, 0, HALF, 2 * ONE] {
                for p in [0, HALF, ONE] {
                    let r = alg.process(m, c, p);
                    assert!(r.abs() <= 40 * ONE);
                }
            }
        }
    }
}

#[test]
fn tuning_values() {
    assert_eq!(midi_note_to_freq(69), 440 * ONE);
    assert_eq!(midi_note_to_freq(57), 220 * ONE);
    assert_eq!(midi_note_to_freq(81), 880 * ONE);
    assert_eq!(midi_note_to_freq(60), 274334280);
    assert_eq!(db_to_gain(0), ONE);
    assert_eq!(db_to_gain(-30 * ONE), 33159);
    assert_eq!(db_to_gain(-10 * ONE), 331589);
    assert_eq!(db_to_gain(-100 * ONE), 33159);
}

#[test]
fn smoother_linear_ramp() {
    let mut s = LinearSmoother::new(2, 0);
    s.set_target(1000, 1000);
    assert_eq!(s.next(), 500);
    assert_eq!(s.next(), 1000);
    assert_eq!(s.next(), 1000);
}

#[test]
fn envelope_stage_boundaries() {
    // At 44100 Hz, one sample is 24 Q20 seconds; the default 50 ms attack
    // elapses after 2185 ramp samples, and the boundary emits exactly one.
    let mut env = ADSR::default();
    assert!(!env.is_active());
    env.trigger(EnvelopeEvent::Attack);
    assert!(env.is_active());
    let mut last = 0i64;
    let mut calls = 0usize;
    loop {
        let g = env.next(44100);
        calls += 1;
        assert!((0..=ONE).contains(&g));
        assert!(g >= last || g == ONE);
        last = g;
        if env.stage == EnvelopeStage::Decay {
            // The attack boundary emits exactly full level once.
            assert_eq!(g, ONE);
            break;
        }
        assert!(calls < 3000);
    }
    assert_eq!(calls, 2186);
    // Decay hands over with exactly the sustain level.
    let mut hit_sustain = false;
    for _ in 0..100 {
        let g = env.next(44100);
        assert!((0..=ONE).contains(&g));
        if env.stage == EnvelopeStage::Sustain {
            assert_eq!(g, 838861);
            hit_sustain = true;
            break;
        }
    }
    assert!(hit_sustain);
    // Sustain holds.
    assert_eq!(env.next(44100), 838861);
    assert_eq!(env.next(44100), 838861);
    // Release decays to exactly zero and goes idle.
    env.trigger(EnvelopeEvent::Release);
    let mut calls = 0usize;
    loop {
        let g = env.next(44100);
        calls += 1;
        assert!((0..=ONE).contains(&g));
        if g == 0 && !env.is_active() {
            break;
        }
        assert!(calls < 50000);
    }
    assert_eq!(env.stage, EnvelopeStage::Idle);
    assert_eq!(env.next(44100), 0);
}

#[test]
fn envelope_reset_goes_idle() {
    let mut env = ADSR::default();
    env.trigger(EnvelopeEvent::Attack);
    assert!(env.is_active());
    env.reset();
    assert!(!env.is_active());
    assert_eq!(env.next(44100), 0);
}

#[test]
fn filter_exact_first_sample() {
    let mut f = Svf::default();
    f.mode = FilterMode::LowPass;
    // Normalized cutoff for 20 kHz at 44.1 kHz, resonance one half.
    f.set_f_q(20000 * ONE / 44100, HALF);
    assert_eq!(f.g, 7129064);
    assert_eq!(f.r, 2097152);
    assert_eq!(f.h, 17240);
    let out = f.process(ONE);
    assert_eq!(out, 796894);
    assert_eq!(f.state_1, 234422);
    assert_eq!(f.state_2, 1593788);
}

#[test]
fn filter_bounded_over_ten_thousand_samples() {
    // Unit-amplitude input at the stability-boundary settings: the output
    // never runs away.
    let mut f = Svf::default();
    f.set_f_q(521142, 10486);
    for _ in 0..10000 {
        let out = f.process(ONE);
        assert!(out.abs() <= 64 * ONE);
        assert!(f.state_1.abs() <= 1024 * ONE && f.state_2.abs() <= 1024 * ONE);
    }
    let mut f = Svf::default();
    f.set_f_q(20000 * ONE / 44100, HALF);
    let mut peak = 0i64;
    for _ in 0..10000 {
        let out = f.process(ONE);
        peak = peak.max(out.abs());
    }
    assert!(peak <= 2 * ONE);
}

#[test]
fn filter_modes_select_output() {
    let mut lp = Svf::default();
    lp.mode = FilterMode::LowPass;
    let mut bp = Svf::default();
    bp.mode = FilterMode::BandPass;
    let mut hp = Svf::default();
    hp.mode = FilterMode::HighPass;
    lp.set_f_q(100000, ONE);
    bp.set_f_q(100000, ONE);
    hp.set_f_q(100000, ONE);
    let l = lp.process(ONE);
    let b = bp.process(ONE);
    let h = hp.process(ONE);
    assert_ne!(l, h);
    assert_ne!(b, h);
}
