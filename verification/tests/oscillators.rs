//! Property tests for the oscillator variants: bounded output over long
//! runs, phase wrapping, block preparation and engine dispatch.

use toby::analog::VariableShapeOscillator;
use toby::digital::{BlendOscillator, DigitalOscillator, Shape};
use toby::engine::{OscillatorEngine, OscillatorParams, OscillatorType};
use toby::fixed::ONE;
use toby::string_synth::StringSynthOscillator;
use toby::super_square::SuperSquareOscillator;
use toby::variable_saw::VariableSawOscillator;

const HALF: i64 = 524288;
const SR: i64 = 44100;

#[test]
fn digital_sine_and_square() {
    let mut sine = DigitalOscillator::new(Shape::Sine);
    assert_eq!(sine.process(440 * ONE, SR), 0);
    let v = sine.process(440 * ONE, SR);
    assert!(v > 0 && v <= ONE);
    let mut square = DigitalOscillator::new(Shape::Square);
    assert_eq!(square.process(440 * ONE, SR), ONE);
    let mut square_late = DigitalOscillator { phase: HALF, shape: Shape::Square };
    assert_eq!(square_late.process(440 * ONE, SR), 0);
}

#[test]
fn digital_phase_wraps() {
    let mut o = DigitalOscillator::new(Shape::Sine);
    for _ in 0..100000 {
        let v = o.process(12543 * ONE, SR);
        assert!(v.abs() <= ONE);
        assert!((0..ONE).contains(&o.phase));
    }
}

#[test]
fn blend_oscillator_mixes() {
    let mut b = BlendOscillator::default();
    // An even sine/square blend starts at (0 + ONE) / 2.
    assert_eq!(b.process(440 * ONE, SR), HALF);
}

#[test]
fn variable_saw_bounded_over_one_second() {
    for (freq, pw, ws) in [
        (ONE, HALF, 0i64),
        (55 * ONE, 5243, ONE),
        (440 * ONE, 900000, HALF),
        (5000 * ONE, HALF, ONE),
        (12543 * ONE, 100000, 300000),
    ] {
        let mut o = VariableSawOscillator::default();
        o.prepare_block(pw, ws, freq, SR);
        for _ in 0..44100 {
            let v = o.process(freq, SR);
            assert!(v.abs() <= 2 * ONE, "variable saw out of range: {}", v);
        }
    }
}

#[test]
fn super_square_bounded_over_one_second() {
    for (freq, shape) in [
        (ONE, 0i64),
        (55 * ONE, 262144),
        (440 * ONE, HALF),
        (440 * ONE, 786432),
        (5000 * ONE, ONE),
    ] {
        let mut o = SuperSquareOscillator::default();
        o.prepare(shape, freq, SR);
        for _ in 0..44100 {
            let v = o.process();
            assert!(v.abs() <= 3 * ONE, "super square out of range: {}", v);
        }
    }
}

#[test]
fn super_square_slave_ratio_endpoints() {
    // With a master step of 1000 Q20 cycles per sample: at full shape the
    // slave runs seventeen times faster, at half shape in lockstep, and at
    // zero shape at just over half the master rate.
    let freq = 44100 * 1000;
    let mut fast = SuperSquareOscillator::default();
    fast.prepare(ONE, freq, SR);
    assert_eq!(fast.master_frequency.target, 1000);
    assert_eq!(fast.slave_frequency.target, 17000);
    let mut locked = SuperSquareOscillator::default();
    locked.prepare(HALF, freq, SR);
    assert_eq!(locked.slave_frequency.target, 1000);
    let mut slow = SuperSquareOscillator::default();
    slow.prepare(0, freq, SR);
    assert_eq!(slow.slave_frequency.target, 510);
}

#[test]
fn super_square_shape_changes_timbre() {
    let mut slow = SuperSquareOscillator::default();
    let mut fast = SuperSquareOscillator::default();
    slow.prepare(0, 440 * ONE, SR);
    fast.prepare(ONE, 440 * ONE, SR);
    // The slave ratios differ, so the two runs diverge.
    let mut differs = false;
    for _ in 0..1000 {
        if slow.process() != fast.process() {
            differs = true;
        }
    }
    assert!(differs);
}

#[test]
fn string_synth_bounded_and_skips_aliasing_blocks() {
    let mut o = StringSynthOscillator::default();
    o.prepare_block(2, HALF, 440 * ONE, SR);
    for _ in 0..44100 {
        let v = o.process();
        assert!(v.abs() <= 16 * ONE, "string synth out of range: {}", v);
    }
    // A fundamental so high that even an octave shift of eight cannot tame
    // it leaves the oscillator's parameters untouched.
    let before = o.frequency.target;
    o.prepare_block(2, HALF, 1000000 * ONE, 1000);
    assert_eq!(o.frequency.target, before);
}

#[test]
fn variable_shape_bounded_over_one_second() {
    for (pw, ws, mf, sf) in [
        (HALF, 0i64, 440 * ONE, 440 * ONE),
        (100000, ONE, 220 * ONE, 700 * ONE),
        (900000, 800000, 55 * ONE, 2000 * ONE),
    ] {
        let mut o = VariableShapeOscillator::default();
        o.prepare(pw, ws, mf, SR);
        for _ in 0..44100 {
            let v = o.process(mf, sf, SR);
            assert!(v.abs() <= 8 * ONE, "variable shape out of range: {}", v);
        }
    }
}

#[test]
fn engine_dispatch_touches_only_selected() {
    let mut e = OscillatorEngine::new();
    e.selected = OscillatorType::VariableSaw;
    let saw_before = e.variable_saw;
    let ss_before = e.super_square;
    let sy_before = e.string_synth;
    e.prepare_block(OscillatorParams { shape: HALF, morph: HALF }, 440 * ONE, SR);
    let _ = e.process(440 * ONE, SR);
    assert!(e.variable_saw != saw_before);
    assert!(e.super_square == ss_before);
    assert!(e.string_synth == sy_before);
}

#[test]
fn engine_variant_switch_keeps_phase() {
    let mut e = OscillatorEngine::new();
    e.selected = OscillatorType::VariableSaw;
    e.prepare_block(OscillatorParams { shape: 0, morph: 0 }, 440 * ONE, SR);
    for _ in 0..100 {
        let _ = e.process(440 * ONE, SR);
    }
    let saw_phase = e.variable_saw.phase;
    e.selected = OscillatorType::SuperSquare;
    e.prepare_block(OscillatorParams { shape: 0, morph: 0 }, 440 * ONE, SR);
    for _ in 0..100 {
        let _ = e.process(440 * ONE, SR);
    }
    // The inactive variant pauses; its phase is not reset.
    assert_eq!(e.variable_saw.phase, saw_phase);
}
