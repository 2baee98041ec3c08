//! Signal-generation and voice-management core of a polyphonic subtractive
//! synthesizer, written over Q20 fixed-point integers so that every sample
//! path can be verified: band-limited oscillators, a state-variable filter,
//! an ADSR envelope, cross-modulation primitives, and a six-voice allocator
//! with deterministic note stealing.

pub mod analog;
pub mod blep;
pub mod digital;
pub mod engine;
pub mod envelope;
pub mod filter;
pub mod fixed;
pub mod modulator;
pub mod smoother;
pub mod string_synth;
pub mod super_square;
pub mod tuning;
pub mod util;
pub mod variable_saw;
pub mod voice;

use crate::envelope::{EnvelopeStage, ADSR, RATE_MAX};
use crate::fixed::{FX_LIMIT, ONE};
use crate::voice::{voice_prepared_spec, voice_process_spec, Voice, VoiceParams};
use vstd::prelude::*;

verus! {

/// The number of voices in the fixed pool.
pub const VOICE_COUNT: usize = 6;

#[derive(Clone, Copy, PartialEq, Eq, Structural, Debug)]
pub enum NoteEventKind {
    NoteOn { note: u8, velocity: i64 },
    NoteOff { note: u8 },
}

/// A timed note event within an audio block, at a sample offset.
#[derive(Clone, Copy, PartialEq, Eq, Structural, Debug)]
pub struct NoteEvent {
    pub timing: u32,
    pub kind: NoteEventKind,
}

impl NoteEvent {
    pub open spec fn wf(self) -> bool {
        match self.kind {
            NoteEventKind::NoteOn { note, velocity } => note < 128 && 0 <= velocity <= ONE,
            NoteEventKind::NoteOff { note } => note < 128,
        }
    }
}

/// The first voice at or after `i` already holding `note`, or minus one.
pub open spec fn find_same_note(vs: Seq<Voice>, note: u8, i: int) -> int
    decreases vs.len() - i,
{
    if i < 0 || i >= vs.len() {
        -1
    } else if vs[i].midi_note_id == note {
        i
    } else {
        find_same_note(vs, note, i + 1)
    }
}

/// The first inactive voice at or after `i`, or minus one.
pub open spec fn find_inactive(vs: Seq<Voice>, i: int) -> int
    decreases vs.len() - i,
{
    if i < 0 || i >= vs.len() {
        -1
    } else if !vs[i].is_active_spec() {
        i
    } else {
        find_inactive(vs, i + 1)
    }
}

/// The first voice at or after `i` in its release stage, or minus one.
pub open spec fn find_releasing(vs: Seq<Voice>, i: int) -> int
    decreases vs.len() - i,
{
    if i < 0 || i >= vs.len() {
        -1
    } else if vs[i].envelope.stage == EnvelopeStage::Release {
        i
    } else {
        find_releasing(vs, i + 1)
    }
}

/// The index of the voice with the greatest envelope timer, scanning from
/// `i` with `best` the leader so far; on ties the earlier voice keeps the
/// lead, so the first voice with the maximum wins.
pub open spec fn oldest_voice(vs: Seq<Voice>, i: int, best: int) -> int
    decreases vs.len() - i,
{
    if i < 0 || i >= vs.len() {
        best
    } else if vs[i].envelope.timer > vs[best].envelope.timer {
        oldest_voice(vs, i + 1, i)
    } else {
        oldest_voice(vs, i + 1, best)
    }
}

/// Which voice a note-on goes to, in strict priority order: a voice already
/// holding the note; else the first inactive voice; else the first
/// releasing voice; else the oldest voice (greatest envelope timer, first
/// wins on ties).
pub open spec fn note_on_target_spec(vs: Seq<Voice>, note: u8) -> int {
    let same = find_same_note(vs, note, 0);
    if same >= 0 {
        same
    } else {
        let idle = find_inactive(vs, 0);
        if idle >= 0 {
            idle
        } else {
            let rel = find_releasing(vs, 0);
            if rel >= 0 {
                rel
            } else {
                oldest_voice(vs, 1, 0)
            }
        }
    }
}

/// A voice freshly triggered on a note.
pub open spec fn triggered_voice_spec(v: Voice, note: u8, velocity: i64) -> Voice {
    Voice {
        midi_note_id: note,
        midi_note_freq: crate::tuning::midi_note_to_freq_spec(note) as i64,
        midi_velocity: velocity,
        envelope: (ADSR { stage: EnvelopeStage::Attack, step_timer: 0, timer: 0, ..v.envelope }),
        ..v
    }
}

/// A voice re-triggered on its own note: decay and sustain only restart
/// their timers (legato), any other stage restarts the attack in full; the
/// note frequency is re-derived either way.
pub open spec fn retriggered_voice_spec(v: Voice, velocity: i64) -> Voice {
    if v.envelope.stage == EnvelopeStage::Decay || v.envelope.stage == EnvelopeStage::Sustain {
        Voice {
            midi_note_freq: crate::tuning::midi_note_to_freq_spec(v.midi_note_id) as i64,
            midi_velocity: velocity,
            envelope: (ADSR { step_timer: 0, timer: 0, ..v.envelope }),
            ..v
        }
    } else {
        Voice {
            midi_note_freq: crate::tuning::midi_note_to_freq_spec(v.midi_note_id) as i64,
            midi_velocity: velocity,
            envelope: (ADSR {
                stage: EnvelopeStage::Attack,
                step_timer: 0,
                timer: 0,
                ..v.envelope
            }),
            ..v
        }
    }
}

/// The voice pool after a note-on: the target voice re-triggers if it
/// already holds the note, otherwise it is taken over for it.
pub open spec fn note_on_apply_spec(vs: Seq<Voice>, note: u8, velocity: i64) -> Seq<Voice> {
    let k = note_on_target_spec(vs, note);
    if vs[k].midi_note_id == note {
        vs.update(k, retriggered_voice_spec(vs[k], velocity))
    } else {
        vs.update(k, triggered_voice_spec(vs[k], note, velocity))
    }
}

/// The voice pool after a note-off: the first voice holding the note enters
/// its release; with no such voice the event is dropped.
pub open spec fn note_off_apply_spec(vs: Seq<Voice>, note: u8) -> Seq<Voice> {
    let k = find_same_note(vs, note, 0);
    if k >= 0 {
        vs.update(k, (Voice {
            envelope: (ADSR {
                stage: EnvelopeStage::Release,
                step_timer: 0,
                timer: 0,
                ..vs[k].envelope
            }),
            ..vs[k]
        }))
    } else {
        vs
    }
}

/// The voice pool after one event.
pub open spec fn apply_event_spec(vs: Seq<Voice>, e: NoteEvent) -> Seq<Voice> {
    match e.kind {
        NoteEventKind::NoteOn { note, velocity } => note_on_apply_spec(vs, note, velocity),
        NoteEventKind::NoteOff { note } => note_off_apply_spec(vs, note),
    }
}

/// The pool and cursor after dispatching every event due at sample `i`.
pub open spec fn events_due_spec(vs: Seq<Voice>, events: Seq<NoteEvent>, c: int, i: int)
    -> (Seq<Voice>, int)
    decreases events.len() - c,
{
    if c < 0 || c >= events.len() || events[c].timing > i {
        (vs, c)
    } else {
        events_due_spec(apply_event_spec(vs, events[c]), events, c + 1, i)
    }
}

/// The pool after every voice rendered one sample, and the summed output.
pub open spec fn voices_sample_spec(vs: Seq<Voice>, p: VoiceParams, sr: int) -> (Seq<Voice>, int) {
    let r0 = voice_process_spec(vs[0], p, sr);
    let r1 = voice_process_spec(vs[1], p, sr);
    let r2 = voice_process_spec(vs[2], p, sr);
    let r3 = voice_process_spec(vs[3], p, sr);
    let r4 = voice_process_spec(vs[4], p, sr);
    let r5 = voice_process_spec(vs[5], p, sr);
    (vs.update(0, r0.0).update(1, r1.0).update(2, r2.0).update(3, r3.0).update(4, r4.0).update(5,
        r5.0), r0.1 + r1.1 + r2.1 + r3.1 + r4.1 + r5.1)
}

/// The pool after every voice prepared for the block.
pub open spec fn voices_prepare_spec(vs: Seq<Voice>, p: VoiceParams, sr: int) -> Seq<Voice> {
    vs.update(0, voice_prepared_spec(vs[0], p, sr)).update(1, voice_prepared_spec(vs[1], p, sr))
        .update(2, voice_prepared_spec(vs[2], p, sr)).update(3, voice_prepared_spec(vs[3], p, sr))
        .update(4, voice_prepared_spec(vs[4], p, sr)).update(5, voice_prepared_spec(vs[5], p, sr))
}

/// The whole per-block loop from sample `i` on: dispatch the events due at
/// each sample, then render and sum all voices. Yields the final pool, the
/// final event cursor and the output samples.
pub open spec fn block_spec(vs: Seq<Voice>, p: VoiceParams, sr: int, events: Seq<NoteEvent>,
    c: int, i: int, n: int) -> (Seq<Voice>, int, Seq<i64>)
    decreases n - i,
{
    if i >= n {
        (vs, c, Seq::empty())
    } else {
        let due = events_due_spec(vs, events, c, i);
        let sam = voices_sample_spec(due.0, p, sr);
        let rest = block_spec(sam.0, p, sr, events, due.1, i + 1, n);
        (rest.0, rest.1, seq![sam.1 as i64] + rest.2)
    }
}

/// The synthesizer core: a fixed pool of voices and the sample rate, with
/// note-event routing, deterministic voice stealing and per-sample
/// rendering.
pub struct Toby {
    pub sample_rate: i64,
    pub voices: Vec<Voice>,
}

impl Toby {
    pub open spec fn wf(self) -> bool {
        &&& 1 <= self.sample_rate <= RATE_MAX
        &&& self.voices@.len() == VOICE_COUNT
        &&& forall|i: int| 0 <= i < VOICE_COUNT ==> #[trigger] self.voices@[i].wf()
    }

    /// A fresh pool of six idle voices at the given sample rate.
    pub fn new(sample_rate: i64) -> (r: Self)
        requires
            1 <= sample_rate <= RATE_MAX,
        ensures
            r.wf(),
            r.sample_rate == sample_rate,
            forall|i: int| 0 <= i < VOICE_COUNT ==> !(#[trigger] r.voices@[i]).is_active_spec(),
    {
        let mut voices: Vec<Voice> = Vec::new();
        voices.push(Voice::new());
        voices.push(Voice::new());
        voices.push(Voice::new());
        voices.push(Voice::new());
        voices.push(Voice::new());
        voices.push(Voice::new());
        Toby { sample_rate, voices }
    }

    /// Force every envelope back to idle, as on a transport reset.
    pub fn reset(&mut self)
        requires
            old(self).wf(),
        ensures
            final(self).wf(),
            final(self).sample_rate == old(self).sample_rate,
            forall|i: int| 0 <= i < VOICE_COUNT
                ==> !(#[trigger] final(self).voices@[i]).is_active_spec(),
    {
        let mut i: usize = 0;
        while i < VOICE_COUNT
            invariant
                0 <= i <= VOICE_COUNT,
                self.voices@.len() == VOICE_COUNT,
                self.sample_rate == old(self).sample_rate,
                1 <= self.sample_rate <= RATE_MAX,
                forall|j: int| 0 <= j < VOICE_COUNT ==> #[trigger] self.voices@[j].wf(),
                forall|j: int| 0 <= j < i ==> !(#[trigger] self.voices@[j]).is_active_spec(),
            decreases VOICE_COUNT - i,
        {
            proof {
                assert(self.voices@[i as int].wf());
            }
            let mut v = self.voices[i];
            v.envelope.reset();
            self.voices.set(i, v);
            i = i + 1;
        }
    }

    /// The note-on target under the four-step policy.
    fn find_target(&self, note: u8) -> (k: usize)
        requires
            self.wf(),
        ensures
            k < VOICE_COUNT,
            k as int == note_on_target_spec(self.voices@, note),
    {
        let ghost vs = self.voices@;
        let mut i: usize = 0;
        while i < VOICE_COUNT
            invariant
                self.wf(),
                0 <= i <= VOICE_COUNT,
                vs == self.voices@,
                find_same_note(vs, note, 0) == find_same_note(vs, note, i as int),
            decreases VOICE_COUNT - i,
        {
            if self.voices[i].midi_note_id == note {
                return i;
            }
            i = i + 1;
        }
        let mut i: usize = 0;
        while i < VOICE_COUNT
            invariant
                self.wf(),
                0 <= i <= VOICE_COUNT,
                vs == self.voices@,
                find_same_note(vs, note, 0) == -1,
                find_inactive(vs, 0) == find_inactive(vs, i as int),
            decreases VOICE_COUNT - i,
        {
            if !self.voices[i].is_active() {
                return i;
            }
            i = i + 1;
        }
        let mut i: usize = 0;
        while i < VOICE_COUNT
            invariant
                self.wf(),
                0 <= i <= VOICE_COUNT,
                vs == self.voices@,
                find_same_note(vs, note, 0) == -1,
                find_inactive(vs, 0) == -1,
                find_releasing(vs, 0) == find_releasing(vs, i as int),
            decreases VOICE_COUNT - i,
        {
            let stage = self.voices[i].envelope.stage;
            if stage == EnvelopeStage::Release {
                return i;
            }
            i = i + 1;
        }
        let mut best: usize = 0;
        let mut i: usize = 1;
        while i < VOICE_COUNT
            invariant
                self.wf(),
                1 <= i <= VOICE_COUNT,
                best < i,
                vs == self.voices@,
                find_same_note(vs, note, 0) == -1,
                find_inactive(vs, 0) == -1,
                find_releasing(vs, 0) == -1,
                oldest_voice(vs, 1, 0) == oldest_voice(vs, i as int, best as int),
            decreases VOICE_COUNT - i,
        {
            if self.voices[i].envelope.timer > self.voices[best].envelope.timer {
                best = i;
            }
            i = i + 1;
        }
        best
    }

    /// Route a note-on: re-trigger the voice already holding the note, or
    /// claim an inactive voice, a releasing voice, or steal the oldest.
    pub fn note_on(&mut self, note: u8, velocity: i64)
        requires
            old(self).wf(),
            note < 128,
            0 <= velocity <= ONE,
        ensures
            final(self).wf(),
            final(self).sample_rate == old(self).sample_rate,
            final(self).voices@ == note_on_apply_spec(old(self).voices@, note, velocity),
    {
        proof {
            lemma_note_on_target_in_range(self.voices@, note);
        }
        let k = self.find_target(note);
        let mut v = self.voices[k];
        if v.midi_note_id == note {
            v.retrigger(velocity);
        } else {
            v.trigger(note, velocity);
        }
        self.voices.set(k, v);
    }

    /// Route a note-off to the first voice holding the note; with none, the
    /// event is dropped.
    pub fn note_off(&mut self, note: u8)
        requires
            old(self).wf(),
        ensures
            final(self).wf(),
            final(self).sample_rate == old(self).sample_rate,
            final(self).voices@ == note_off_apply_spec(old(self).voices@, note),
    {
        let ghost vs = self.voices@;
        let mut i: usize = 0;
        while i < VOICE_COUNT
            invariant
                self.wf(),
                0 <= i <= VOICE_COUNT,
                vs == self.voices@,
                vs == old(self).voices@,
                self.sample_rate == old(self).sample_rate,
                find_same_note(vs, note, 0) == find_same_note(vs, note, i as int),
            decreases VOICE_COUNT - i,
        {
            if self.voices[i].midi_note_id == note {
                proof {
                    assert(self.voices@[i as int].wf());
                    assert(find_same_note(vs, note, i as int) == i as int);
                }
                let mut v = self.voices[i];
                v.release();
                self.voices.set(i, v);
                proof {
                    let k = find_same_note(vs, note, 0);
                    assert(k == i as int);
                    assert(self.voices@ =~= note_off_apply_spec(vs, note));
                }
                return;
            }
            i = i + 1;
        }
    }

    /// Prepare every voice for a block of the given parameters.
    pub fn prepare_block(&mut self, params: VoiceParams)
        requires
            old(self).wf(),
            params.wf(),
        ensures
            final(self).wf(),
            final(self).sample_rate == old(self).sample_rate,
            final(self).voices@ == voices_prepare_spec(old(self).voices@, params,
                old(self).sample_rate as int),
    {
        let sr = self.sample_rate;
        let mut v0 = self.voices[0];
        v0.prepare_block(params, sr);
        self.voices.set(0, v0);
        let mut v1 = self.voices[1];
        v1.prepare_block(params, sr);
        self.voices.set(1, v1);
        let mut v2 = self.voices[2];
        v2.prepare_block(params, sr);
        self.voices.set(2, v2);
        let mut v3 = self.voices[3];
        v3.prepare_block(params, sr);
        self.voices.set(3, v3);
        let mut v4 = self.voices[4];
        v4.prepare_block(params, sr);
        self.voices.set(4, v4);
        let mut v5 = self.voices[5];
        v5.prepare_block(params, sr);
        self.voices.set(5, v5);
    }

    /// Render one sample: every voice renders and the results are summed.
    pub fn process_sample(&mut self, params: VoiceParams) -> (r: i64)
        requires
            old(self).wf(),
            params.wf(),
        ensures
            final(self).wf(),
            final(self).sample_rate == old(self).sample_rate,
            (final(self).voices@, r as int) == voices_sample_spec(old(self).voices@, params,
                old(self).sample_rate as int),
            -6 * FX_LIMIT <= r <= 6 * FX_LIMIT,
    {
        let sr = self.sample_rate;
        let mut v0 = self.voices[0];
        let s0 = v0.process(params, sr);
        self.voices.set(0, v0);
        let mut v1 = self.voices[1];
        let s1 = v1.process(params, sr);
        self.voices.set(1, v1);
        let mut v2 = self.voices[2];
        let s2 = v2.process(params, sr);
        self.voices.set(2, v2);
        let mut v3 = self.voices[3];
        let s3 = v3.process(params, sr);
        self.voices.set(3, v3);
        let mut v4 = self.voices[4];
        let s4 = v4.process(params, sr);
        self.voices.set(4, v4);
        let mut v5 = self.voices[5];
        let s5 = v5.process(params, sr);
        self.voices.set(5, v5);
        s0 + s1 + s2 + s3 + s4 + s5
    }

    /// Dispatch every event due at sample `i`, returning the new cursor.
    fn dispatch_due(&mut self, events: &Vec<NoteEvent>, cursor: usize, i: usize) -> (c2: usize)
        requires
            old(self).wf(),
            cursor <= events@.len(),
            forall|j: int| 0 <= j < events@.len() ==> (#[trigger] events@[j]).wf(),
        ensures
            final(self).wf(),
            final(self).sample_rate == old(self).sample_rate,
            cursor <= c2 <= events@.len(),
            (final(self).voices@, c2 as int) == events_due_spec(old(self).voices@, events@,
                cursor as int, i as int),
    {
        let ghost vs_entry = self.voices@;
        let ghost c_entry = cursor as int;
        let mut cursor = cursor;
        while cursor < events.len() && events[cursor].timing as u64 <= i as u64
            invariant
                self.wf(),
                forall|j: int| 0 <= j < events@.len() ==> (#[trigger] events@[j]).wf(),
                self.sample_rate == old(self).sample_rate,
                c_entry <= cursor as int <= events@.len(),
                events_due_spec(vs_entry, events@, c_entry, i as int) == events_due_spec(
                    self.voices@, events@, cursor as int, i as int),
            decreases events@.len() - cursor,
        {
            let e = events[cursor];
            match e.kind {
                NoteEventKind::NoteOn { note, velocity } => {
                    self.note_on(note, velocity);
                }
                NoteEventKind::NoteOff { note } => {
                    self.note_off(note);
                }
            }
            cursor = cursor + 1;
        }
        cursor
    }

    /// Render one block: prepare every voice, then per sample dispatch the
    /// events that have come due and sum all voices, one output value per
    /// sample frame.
    pub fn process(&mut self, params: VoiceParams, events: &Vec<NoteEvent>, num_samples: usize)
        -> (out: Vec<i64>)
        requires
            old(self).wf(),
            params.wf(),
            forall|i: int| 0 <= i < events@.len() ==> (#[trigger] events@[i]).wf(),
        ensures
            final(self).wf(),
            final(self).sample_rate == old(self).sample_rate,
            out@.len() == num_samples,
            ({
                let prepared = voices_prepare_spec(old(self).voices@, params,
                    old(self).sample_rate as int);
                let b = block_spec(prepared, params, old(self).sample_rate as int, events@, 0, 0,
                    num_samples as int);
                final(self).voices@ == b.0 && out@ == b.2
            }),
    {
        self.prepare_block(params);
        let ghost prepared = self.voices@;
        let ghost sr = self.sample_rate as int;
        let ghost whole = block_spec(prepared, params, sr, events@, 0, 0, num_samples as int);

        let mut out: Vec<i64> = Vec::new();
        let mut cursor: usize = 0;
        let mut i: usize = 0;
        while i < num_samples
            invariant
                self.wf(),
                params.wf(),
                forall|j: int| 0 <= j < events@.len() ==> (#[trigger] events@[j]).wf(),
                self.sample_rate == old(self).sample_rate,
                self.sample_rate as int == sr,
                0 <= i <= num_samples,
                cursor <= events@.len(),
                out@.len() == i,
                whole == block_spec(prepared, params, sr, events@, 0, 0, num_samples as int),
                ({
                    let rest = block_spec(self.voices@, params, sr, events@, cursor as int,
                        i as int, num_samples as int);
                    whole == (rest.0, rest.1, out@ + rest.2)
                }),
            decreases num_samples - i,
        {
            let ghost vs_entry = self.voices@;
            let ghost c_entry = cursor as int;
            let ghost out_entry = out@;
            cursor = self.dispatch_due(events, cursor, i);
            let s = self.process_sample(params);
            out.push(s);
            proof {
                let rest_entry = block_spec(vs_entry, params, sr, events@, c_entry, i as int,
                    num_samples as int);
                let rest_next = block_spec(self.voices@, params, sr, events@, cursor as int,
                    i as int + 1, num_samples as int);
                assert(rest_entry == (rest_next.0, rest_next.1,
                    seq![s] + rest_next.2));
                assert(out@ + rest_next.2 =~= out_entry + rest_entry.2);
            }
            i = i + 1;
        }
        out
    }
}

/// The note-on target always lies inside the pool.
pub proof fn lemma_note_on_target_in_range(vs: Seq<Voice>, note: u8)
    requires
        vs.len() == VOICE_COUNT,
    ensures
        0 <= note_on_target_spec(vs, note) < VOICE_COUNT,
{
    lemma_find_in_range(vs, note, 0);
    lemma_oldest_in_range(vs, 1, 0);
}

proof fn lemma_find_in_range(vs: Seq<Voice>, note: u8, i: int)
    requires
        0 <= i <= vs.len(),
    ensures
        find_same_note(vs, note, i) == -1 || i <= find_same_note(vs, note, i) < vs.len(),
        find_inactive(vs, i) == -1 || i <= find_inactive(vs, i) < vs.len(),
        find_releasing(vs, i) == -1 || i <= find_releasing(vs, i) < vs.len(),
    decreases vs.len() - i,
{
    if i < vs.len() {
        lemma_find_in_range(vs, note, i + 1);
    }
}

proof fn lemma_oldest_in_range(vs: Seq<Voice>, i: int, best: int)
    requires
        0 <= best < vs.len(),
        0 <= i,
    ensures
        0 <= oldest_voice(vs, i, best) < vs.len(),
    decreases vs.len() - i,
{
    if i < vs.len() {
        if vs[i].envelope.timer > vs[best].envelope.timer {
            lemma_oldest_in_range(vs, i + 1, i);
        } else {
            lemma_oldest_in_range(vs, i + 1, best);
        }
    }
}

/// The oldest-voice scan keeps its running maximum: the result beats every
/// voice, and strictly beats every voice before it.
proof fn lemma_oldest_props(vs: Seq<Voice>, i: int, best: int)
    requires
        0 <= best < i <= vs.len(),
        forall|j: int| 0 <= j < i ==> #[trigger] vs[j].envelope.timer <= vs[best].envelope.timer,
        forall|j: int| 0 <= j < best ==> #[trigger] vs[j].envelope.timer < vs[best].envelope.timer,
    ensures
        ({
            let k = oldest_voice(vs, i, best);
            &&& 0 <= k < vs.len()
            &&& forall|j: int| 0 <= j < vs.len()
                ==> #[trigger] vs[j].envelope.timer <= vs[k].envelope.timer
            &&& forall|j: int| 0 <= j < k ==> #[trigger] vs[j].envelope.timer < vs[k].envelope.timer
        }),
    decreases vs.len() - i,
{
    if i < vs.len() {
        if vs[i].envelope.timer > vs[best].envelope.timer {
            lemma_oldest_props(vs, i + 1, i);
        } else {
            lemma_oldest_props(vs, i + 1, best);
        }
    }
}

proof fn lemma_find_same_none(vs: Seq<Voice>, note: u8, i: int)
    requires
        0 <= i <= vs.len(),
        forall|j: int| i <= j < vs.len() ==> (#[trigger] vs[j]).midi_note_id != note,
    ensures
        find_same_note(vs, note, i) == -1,
    decreases vs.len() - i,
{
    if i < vs.len() {
        lemma_find_same_none(vs, note, i + 1);
    }
}

proof fn lemma_find_inactive_none(vs: Seq<Voice>, i: int)
    requires
        0 <= i <= vs.len(),
        forall|j: int| i <= j < vs.len() ==> (#[trigger] vs[j]).is_active_spec(),
    ensures
        find_inactive(vs, i) == -1,
    decreases vs.len() - i,
{
    if i < vs.len() {
        lemma_find_inactive_none(vs, i + 1);
    }
}

proof fn lemma_find_releasing_none(vs: Seq<Voice>, i: int)
    requires
        0 <= i <= vs.len(),
        forall|j: int| i <= j < vs.len()
            ==> (#[trigger] vs[j]).envelope.stage != EnvelopeStage::Release,
    ensures
        find_releasing(vs, i) == -1,
    decreases vs.len() - i,
{
    if i < vs.len() {
        lemma_find_releasing_none(vs, i + 1);
    }
}

/// Law (voice stealing determinism): when every voice in the pool is
/// active, none is releasing and none already holds the incoming note, the
/// note-on target is exactly the first voice with the greatest envelope
/// timer — the longest-sounding voice — never an idle or matching voice.
pub proof fn lemma_note_on_steals_oldest(vs: Seq<Voice>, note: u8)
    requires
        vs.len() == VOICE_COUNT,
        forall|i: int| 0 <= i < vs.len() ==> (#[trigger] vs[i]).is_active_spec(),
        forall|i: int| 0 <= i < vs.len()
            ==> (#[trigger] vs[i]).envelope.stage != EnvelopeStage::Release,
        forall|i: int| 0 <= i < vs.len() ==> (#[trigger] vs[i]).midi_note_id != note,
    ensures
        ({
            let k = note_on_target_spec(vs, note);
            &&& 0 <= k < vs.len()
            &&& forall|j: int| 0 <= j < vs.len()
                ==> #[trigger] vs[j].envelope.timer <= vs[k].envelope.timer
            &&& forall|j: int| 0 <= j < k ==> #[trigger] vs[j].envelope.timer < vs[k].envelope.timer
        }),
{
    lemma_find_same_none(vs, note, 0);
    lemma_find_inactive_none(vs, 0);
    lemma_find_releasing_none(vs, 0);
    lemma_oldest_props(vs, 1, 0);
}

} // verus!
