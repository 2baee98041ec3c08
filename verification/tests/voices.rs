//! Scenario tests for the voice pool: allocation, stealing, re-trigger
//! semantics and the end-to-end render of a full note.

use toby::engine::OscillatorType;
use toby::envelope::EnvelopeStage;
use toby::fixed::ONE;
use toby::voice::{Voice, VoiceParams};
use toby::{NoteEvent, NoteEventKind, Toby, VOICE_COUNT};

const HALF: i64 = 524288;
const SR: i64 = 44100;

fn params() -> VoiceParams {
    VoiceParams {
        oscillator_type: OscillatorType::VariableSaw,
        shape: HALF,
        morph: 209715,
        gain: 0,
        cutoff: 20000 * ONE,
        resonance: HALF,
    }
}

#[test]
fn voice_trigger_and_release() {
    let mut v = Voice::new();
    assert!(!v.is_active());
    v.trigger(69, ONE);
    assert!(v.is_active());
    assert_eq!(v.midi_note_id, 69);
    assert_eq!(v.midi_note_freq, 440 * ONE);
    assert_eq!(v.envelope.stage, EnvelopeStage::Attack);
    v.release();
    assert_eq!(v.envelope.stage, EnvelopeStage::Release);
    assert!(v.is_active());
}

#[test]
fn seven_note_ons_steal_the_first_voice() {
    // Six voices, seven sequential note-ons with no note-offs: the seventh
    // steals the longest-sounding voice (the first), never an idle or
    // matching one.
    let mut synth = Toby::new(SR);
    synth.prepare_block(params());
    let notes: [u8; 7] = [60, 61, 62, 63, 64, 65, 66];
    for (i, &note) in notes.iter().enumerate().take(6) {
        synth.note_on(note, ONE);
        assert_eq!(synth.voices[i].midi_note_id, note);
        for _ in 0..10 {
            let _ = synth.process_sample(params());
        }
    }
    for i in 0..VOICE_COUNT {
        assert!(synth.voices[i].is_active());
    }
    synth.note_on(notes[6], ONE);
    assert_eq!(synth.voices[0].midi_note_id, 66);
    for i in 1..VOICE_COUNT {
        assert_eq!(synth.voices[i].midi_note_id, notes[i]);
    }
}

#[test]
fn note_on_prefers_releasing_voice() {
    let mut synth = Toby::new(SR);
    synth.prepare_block(params());
    for note in [60u8, 61, 62, 63, 64, 65] {
        synth.note_on(note, ONE);
        for _ in 0..10 {
            let _ = synth.process_sample(params());
        }
    }
    synth.note_off(63);
    assert_eq!(synth.voices[3].envelope.stage, EnvelopeStage::Release);
    synth.note_on(70, ONE);
    // The releasing voice is taken before any voice is stolen.
    assert_eq!(synth.voices[3].midi_note_id, 70);
    assert_eq!(synth.voices[0].midi_note_id, 60);
}

#[test]
fn note_off_without_match_is_dropped() {
    let mut synth = Toby::new(SR);
    synth.note_on(60, ONE);
    let before: Vec<u8> = (0..VOICE_COUNT).map(|i| synth.voices[i].midi_note_id).collect();
    synth.note_off(99);
    for i in 0..VOICE_COUNT {
        assert_eq!(synth.voices[i].midi_note_id, before[i]);
    }
    assert!(synth.voices[0].is_active());
}

#[test]
fn retrigger_in_sustain_keeps_stage() {
    // A note-on for a note already sounding in sustain resets the timers
    // but leaves the stage alone: a legato re-articulation.
    let mut synth = Toby::new(SR);
    synth.prepare_block(params());
    synth.note_on(60, ONE);
    for _ in 0..3000 {
        let _ = synth.process_sample(params());
    }
    assert_eq!(synth.voices[0].envelope.stage, EnvelopeStage::Sustain);
    assert!(synth.voices[0].envelope.timer > 0);
    synth.note_on(60, ONE);
    assert_eq!(synth.voices[0].envelope.stage, EnvelopeStage::Sustain);
    assert_eq!(synth.voices[0].envelope.timer, 0);
    assert_eq!(synth.voices[0].envelope.step_timer, 0);
}

#[test]
fn retrigger_in_attack_restarts_attack() {
    let mut synth = Toby::new(SR);
    synth.prepare_block(params());
    synth.note_on(60, ONE);
    for _ in 0..10 {
        let _ = synth.process_sample(params());
    }
    assert_eq!(synth.voices[0].envelope.stage, EnvelopeStage::Attack);
    assert!(synth.voices[0].envelope.timer > 0);
    synth.note_on(60, ONE);
    assert_eq!(synth.voices[0].envelope.stage, EnvelopeStage::Attack);
    assert_eq!(synth.voices[0].envelope.timer, 0);
}

#[test]
fn reset_silences_every_voice() {
    let mut synth = Toby::new(SR);
    synth.note_on(60, ONE);
    synth.note_on(64, ONE);
    synth.reset();
    for i in 0..VOICE_COUNT {
        assert!(!synth.voices[i].is_active());
    }
}

#[test]
fn end_to_end_note_renders_and_decays_to_silence() {
    // Feed NoteOn(60) at sample 0 and NoteOff(60) at sample 44100 at a
    // 44.1 kHz rate with the default envelope: sound from the first sample,
    // full level during sustain, and exact digital silence within one
    // second of the release.
    let mut synth = Toby::new(SR);
    let events = vec![
        NoteEvent { timing: 0, kind: NoteEventKind::NoteOn { note: 60, velocity: ONE } },
        NoteEvent { timing: 44100, kind: NoteEventKind::NoteOff { note: 60 } },
    ];
    let out = synth.process(params(), &events, 90000);
    assert_eq!(out.len(), 90000);
    assert_ne!(out[0], 0);
    // Near-unity envelope by the end of the 50 ms attack: the waveform
    // reaches a healthy fraction of a unit somewhere around sample 2200.
    let peak_attack = out[2000..2500].iter().map(|s| s.abs()).max().unwrap();
    assert!(peak_attack > HALF, "attack peak too small: {}", peak_attack);
    // Sustained tone is still sounding shortly before the note-off.
    let peak_sustain = out[43000..44000].iter().map(|s| s.abs()).max().unwrap();
    assert!(peak_sustain > HALF / 2, "sustain peak too small: {}", peak_sustain);
    // The release ramp lasts one second; by sample 88200 the envelope has
    // reached exactly zero, so the voice feeds the filter silence. What is
    // left is the filter's own zero-input limit cycle, a fixed-point
    // remnant under a ten-thousandth of a unit (below -80 dB).
    for i in 88200..90000 {
        assert!(out[i].abs() <= 128, "residual signal at sample {}: {}", i, out[i]);
    }
    // And the voice has gone idle, free for stealing.
    assert!(!synth.voices[0].is_active());
}

#[test]
fn block_processing_dispatches_events_in_order() {
    let mut synth = Toby::new(SR);
    let events = vec![
        NoteEvent { timing: 5, kind: NoteEventKind::NoteOn { note: 60, velocity: ONE } },
        NoteEvent { timing: 5, kind: NoteEventKind::NoteOff { note: 60 } },
        NoteEvent { timing: 20, kind: NoteEventKind::NoteOn { note: 64, velocity: HALF } },
    ];
    let out = synth.process(params(), &events, 40);
    assert_eq!(out.len(), 40);
    // The first five samples precede any event, so every voice is idle and
    // the mix is exactly zero.
    for i in 0..5 {
        assert_eq!(out[i], 0);
    }
    // Note 60 was released in the same sample it started; note 64 holds.
    assert_eq!(synth.voices[0].envelope.stage, EnvelopeStage::Release);
    assert_eq!(synth.voices[1].midi_note_id, 64);
    assert!(synth.voices[1].is_active());
}

#[test]
fn string_synth_voice_renders() {
    let mut synth = Toby::new(SR);
    let p = VoiceParams { oscillator_type: OscillatorType::StringSynth, ..params() };
    let events = vec![
        NoteEvent { timing: 0, kind: NoteEventKind::NoteOn { note: 48, velocity: ONE } },
    ];
    let out = synth.process(p, &events, 4410);
    let peak = out.iter().map(|s| s.abs()).max().unwrap();
    assert!(peak > 0);
    assert!(peak <= 16 * ONE);
}

#[test]
fn super_square_voice_renders() {
    let mut synth = Toby::new(SR);
    let p = VoiceParams { oscillator_type: OscillatorType::SuperSquare, ..params() };
    let events = vec![
        NoteEvent { timing: 0, kind: NoteEventKind::NoteOn { note: 72, velocity: ONE } },
    ];
    let out = synth.process(p, &events, 4410);
    let peak = out.iter().map(|s| s.abs()).max().unwrap();
    assert!(peak > 0);
    assert!(peak <= 16 * ONE);
}

#[test]
fn stealing_tie_breaks_toward_first_voice() {
    // Seven note-ons with no samples between them: every timer is zero, so
    // the maximum is shared and the scan keeps the first voice.
    let mut synth = Toby::new(SR);
    for note in [60u8, 61, 62, 63, 64, 65, 66] {
        synth.note_on(note, ONE);
    }
    assert_eq!(synth.voices[0].midi_note_id, 66);
    for (i, note) in [61u8, 62, 63, 64, 65].iter().enumerate() {
        assert_eq!(synth.voices[i + 1].midi_note_id, *note);
    }
}
