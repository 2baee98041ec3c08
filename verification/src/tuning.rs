//! Plain-value tuning helpers: the frequency of a MIDI note and the linear
//! gain of a decibel value, both computed exactly over Q20 tables.

use crate::fixed::{clamp_spec, idiv, imul, lemma_mul_bound, lemma_tdiv_bound, tdiv, tdiv_exec,
    FX_LIMIT, ONE};
use vstd::arithmetic::div_mod::{lemma_div_is_ordered, lemma_div_pos_is_pos,
    lemma_fundamental_div_mod, lemma_mod_division_less_than_divisor};
use vstd::prelude::*;

verus! {

/// Highest frequency `midi_note_to_freq` can produce, in Q20 Hz.
pub const FREQ_MAX: i64 = 17179869184;

/// `2^(k/12)` in Q20, the equal-tempered semitone ratios.
pub open spec fn semitone_spec(i: int) -> i64 {
    if i == 0 {
        1048576
    } else
    if i == 1 {
        1110928
    } else
    if i == 2 {
        1176987
    } else
    if i == 3 {
        1246974
    } else
    if i == 4 {
        1321123
    } else
    if i == 5 {
        1399681
    } else
    if i == 6 {
        1482910
    } else
    if i == 7 {
        1571089
    } else
    if i == 8 {
        1664511
    } else
    if i == 9 {
        1763488
    } else
    if i == 10 {
        1868350
    } else {
        1979448
    }
}

fn semitone(i: i64) -> (r: i64)
    requires
        0 <= i <= 11,
    ensures
        r == semitone_spec(i as int),
{
    match i {
        0 => 1048576,
        1 => 1110928,
        2 => 1176987,
        3 => 1246974,
        4 => 1321123,
        5 => 1399681,
        6 => 1482910,
        7 => 1571089,
        8 => 1664511,
        9 => 1763488,
        10 => 1868350,
        _ => 1979448,
    }
}

/// The semitone ratios lie between one and two units.
proof fn lemma_semitone_bounds()
    ensures
        forall|i: int| 0 <= i <= 11 ==> ONE <= #[trigger] semitone_spec(i) <= 2 * ONE,
{
}

/// `2^q` as a plain integer, for the octave shifts of the note table.
pub open spec fn pow2_spec(q: int) -> i64 {
    if q <= 0 {
        1
    } else if q == 1 {
        2
    } else if q == 2 {
        4
    } else if q == 3 {
        8
    } else if q == 4 {
        16
    } else if q == 5 {
        32
    } else if q == 6 {
        64
    } else if q == 7 {
        128
    } else if q == 8 {
        256
    } else if q == 9 {
        512
    } else {
        1024
    }
}

fn pow2(q: i64) -> (r: i64)
    requires
        0 <= q <= 10,
    ensures
        r == pow2_spec(q as int),
        1 <= r <= 1024,
{
    match q {
        0 => 1,
        1 => 2,
        2 => 4,
        3 => 8,
        4 => 16,
        5 => 32,
        6 => 64,
        7 => 128,
        8 => 256,
        9 => 512,
        _ => 1024,
    }
}

/// The frequency of a MIDI note in Q20 Hz: `440 * 2^((note - 69) / 12)`,
/// decomposed into an exact semitone-table value and an octave shift
/// (`note + 3` is `12 * octave + semitone`, with a fixed downshift of six
/// octaves folded into the final division by 64).
pub open spec fn midi_note_to_freq_spec(note: u8) -> int {
    // meaningful for notes below 128

    let s = note + 3;
    let q = s as int / 12;
    let k = s as int % 12;
    tdiv(440 * semitone_spec(k) * pow2_spec(q), 64)
}

pub fn midi_note_to_freq(note: u8) -> (r: i64)
    requires
        note < 128,
    ensures
        r == midi_note_to_freq_spec(note),
        ONE <= r <= FREQ_MAX,
{
    proof {
        lemma_semitone_bounds();
    }
    let s: i64 = note as i64 + 3;
    let q = idiv(s, 12);
    proof {
        lemma_fundamental_div_mod(s as int, 12);
        lemma_mod_division_less_than_divisor(s as int, 12);
        lemma_div_pos_is_pos(s as int, 12);
        lemma_div_is_ordered(s as int, 130, 12);
    }
    let k = s - 12 * q;
    let base = imul(440, semitone(k));
    let m = imul(base, pow2(q));
    proof {
        lemma_mul_bound(base as int, pow2_spec(q as int) as int, 871157120, 1024);
        lemma_tdiv_bound(m as int, 64, FREQ_MAX as int);
        assert(440 * semitone_spec(k as int) * pow2_spec(q as int)
            == base as int * pow2_spec(q as int) as int) by (nonlinear_arith)
            requires
                base as int == 440 * semitone_spec(k as int),
        ;
        assert(m as int >= 64 * ONE) by (nonlinear_arith)
            requires
                m as int == base as int * pow2_spec(q as int) as int,
                base as int >= 440 * ONE,
                pow2_spec(q as int) >= 1,
                ONE == 1048576i64,
        ;
        lemma_div_is_ordered(64 * ONE as int, m as int, 64);
        vstd::arithmetic::div_mod::lemma_div_by_multiple(ONE as int, 64);
    }
    idiv(m, 64)
}

/// `10^(-i/20)` in Q20: linear gain at `-i` decibels, one entry per decibel.
pub open spec fn db_entry_spec(i: int) -> i64 {
    if i == 0 {
        1048576
    } else
    if i == 1 {
        934544
    } else
    if i == 2 {
        832914
    } else
    if i == 3 {
        742335
    } else
    if i == 4 {
        661607
    } else
    if i == 5 {
        589658
    } else
    if i == 6 {
        525533
    } else
    if i == 7 {
        468382
    } else
    if i == 8 {
        417446
    } else
    if i == 9 {
        372049
    } else
    if i == 10 {
        331589
    } else
    if i == 11 {
        295529
    } else
    if i == 12 {
        263390
    } else
    if i == 13 {
        234747
    } else
    if i == 14 {
        209218
    } else
    if i == 15 {
        186466
    } else
    if i == 16 {
        166188
    } else
    if i == 17 {
        148115
    } else
    if i == 18 {
        132008
    } else
    if i == 19 {
        117652
    } else
    if i == 20 {
        104858
    } else
    if i == 21 {
        93454
    } else
    if i == 22 {
        83291
    } else
    if i == 23 {
        74233
    } else
    if i == 24 {
        66161
    } else
    if i == 25 {
        58966
    } else
    if i == 26 {
        52553
    } else
    if i == 27 {
        46838
    } else
    if i == 28 {
        41745
    } else
    if i == 29 {
        37205
    } else {
        33159
    }
}

fn db_entry(i: i64) -> (r: i64)
    requires
        0 <= i <= 30,
    ensures
        r == db_entry_spec(i as int),
{
    match i {
        0 => 1048576,
        1 => 934544,
        2 => 832914,
        3 => 742335,
        4 => 661607,
        5 => 589658,
        6 => 525533,
        7 => 468382,
        8 => 417446,
        9 => 372049,
        10 => 331589,
        11 => 295529,
        12 => 263390,
        13 => 234747,
        14 => 209218,
        15 => 186466,
        16 => 166188,
        17 => 148115,
        18 => 132008,
        19 => 117652,
        20 => 104858,
        21 => 93454,
        22 => 83291,
        23 => 74233,
        24 => 66161,
        25 => 58966,
        26 => 52553,
        27 => 46838,
        28 => 41745,
        29 => 37205,
        _ => 33159,
    }
}

/// The decibel table entries shrink with the index and stay in unit range.
proof fn lemma_db_entry_bounds()
    ensures
        forall|i: int| 0 <= i <= 29 ==> #[trigger] db_entry_spec(i) >= db_entry_spec(i + 1),
        forall|i: int| 0 <= i <= 30 ==> 33159 <= #[trigger] db_entry_spec(i) <= ONE,
{
}

/// Linear gain of a decibel value in `[-30, 0]` (Q20 decibels): the decibel
/// table interpolated linearly between whole decibels.
pub open spec fn db_to_gain_spec(db: int) -> int {
    let d = clamp_spec(-db, 0, 30 * ONE as int);
    let i = d / ONE as int;
    let frac = d - i * ONE;
    if i >= 30 {
        db_entry_spec(30) as int
    } else {
        let a = db_entry_spec(i) as int;
        let b = db_entry_spec(i + 1) as int;
        a - tdiv((a - b) * frac, ONE as int)
    }
}

pub fn db_to_gain(db: i64) -> (r: i64)
    requires
        -FX_LIMIT <= db <= FX_LIMIT,
    ensures
        r == db_to_gain_spec(db as int),
        0 < r <= ONE,
{
    proof {
        lemma_db_entry_bounds();
    }
    let d = crate::fixed::clamp_i64(-db, 0, 30 * ONE);
    let i = idiv(d, ONE);
    proof {
        lemma_fundamental_div_mod(d as int, ONE as int);
        lemma_mod_division_less_than_divisor(d as int, ONE as int);
        lemma_div_pos_is_pos(d as int, ONE as int);
        lemma_div_is_ordered(d as int, 30 * ONE as int, ONE as int);
        vstd::arithmetic::div_mod::lemma_div_by_multiple(30, ONE as int);
    }
    if i >= 30 {
        return db_entry(30);
    }
    let frac = d - i * ONE;
    let a = db_entry(i);
    let b = db_entry(i + 1);
    let p = imul(a - b, frac);
    proof {
        lemma_mul_bound((a - b) as int, frac as int, (a - b) as int, ONE as int);
        lemma_tdiv_bound((a - b) as int * frac as int, ONE as int, (a - b) as int);
        assert((a - b) as int * frac as int >= 0) by (nonlinear_arith)
            requires
                a as int >= b as int,
                frac as int >= 0,
        ;
        lemma_div_pos_is_pos((a - b) as int * frac as int, ONE as int);
    }
    a - tdiv_exec(p, ONE)
}

} // verus!
