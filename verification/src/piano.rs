//! Piano keys of an 88-key grand piano (A0 to C8) in equal temperament.
use vstd::prelude::*;
use vstd::string::*;
use crate::decimal::{digits_value, int_decimal, lemma_int_decimal_reads_back, push_int_decimal};

verus! {

/// The natural (white-key) note names.
#[derive(Debug, Clone, Copy, PartialEq, Eq, Hash, PartialOrd, Ord, Structural)]
pub enum Note {
    C,
    D,
    E,
    F,
    G,
    A,
    B,
}

impl Note {
    /// Semitones from C up to this note within one octave.
    pub open spec fn semitone(self) -> int {
        match self {
            Note::C => 0,
            Note::D => 2,
            Note::E => 4,
            Note::F => 5,
            Note::G => 7,
            Note::A => 9,
            Note::B => 11,
        }
    }

    /// The letter that names this note.
    pub open spec fn letter(self) -> char {
        match self {
            Note::C => 'C',
            Note::D => 'D',
            Note::E => 'E',
            Note::F => 'F',
            Note::G => 'G',
            Note::A => 'A',
            Note::B => 'B',
        }
    }

    /// Get the semitone offset from C within an octave (0-11).
    pub fn semitone_in_octave(&self) -> (r: i32)
        ensures
            r == self.semitone(),
    {
        match self {
            Note::C => 0,
            Note::D => 2,
            Note::E => 4,
            Note::F => 5,
            Note::G => 7,
            Note::A => 9,
            Note::B => 11,
        }
    }

    /// The one-letter name of this note.
    pub fn as_str(&self) -> (r: &'static str)
        ensures
            r@ == seq![self.letter()],
    {
        match self {
            Note::C => {
                proof { reveal_strlit("C"); }
                "C"
            },
            Note::D => {
                proof { reveal_strlit("D"); }
                "D"
            },
            Note::E => {
                proof { reveal_strlit("E"); }
                "E"
            },
            Note::F => {
                proof { reveal_strlit("F"); }
                "F"
            },
            Note::G => {
                proof { reveal_strlit("G"); }
                "G"
            },
            Note::A => {
                proof { reveal_strlit("A"); }
                "A"
            },
            Note::B => {
                proof { reveal_strlit("B"); }
                "B"
            },
        }
    }
}

/// A key of the piano: a note, whether it is raised a semitone, and its octave.
#[derive(Debug, Clone, Copy, PartialEq, Eq, Hash, PartialOrd, Ord, Structural)]
pub struct PianoKey {
    pub note: Note,
    pub sharp: bool,
    pub octave: i32,
}

/// The lowest key of the piano, A0, lies this many semitones below A4 (440 Hz).
pub open spec fn lowest_key_offset() -> int {
    -48
}

/// The highest key of the piano, C8, lies this many semitones above A4.
pub open spec fn highest_key_offset() -> int {
    39
}

impl PianoKey {
    /// Semitones from C up to this key within its octave.
    pub open spec fn pitch_class(self) -> int {
        self.note.semitone() + if self.sharp { 1int } else { 0int }
    }

    /// Semitones from A4 up to this key: the exponent of equal temperament,
    /// where the frequency is 440 Hz times 2 to the power of this over 12.
    pub open spec fn offset_from_a4(self) -> int {
        (self.octave - 4) * 12 + self.pitch_class() - 9
    }

    /// Whether the key is written as a piano names it: only C, D, F, G and A
    /// have a sharp key (E sharp is F, B sharp is the next C).
    pub open spec fn is_canonical(self) -> bool {
        self.sharp ==> (self.note != Note::E && self.note != Note::B)
    }

    /// The name of the key, such as `C#4` or `A4`.
    pub open spec fn spec_name(self) -> Seq<char> {
        seq![self.note.letter()] + (if self.sharp {
            seq!['#']
        } else {
            Seq::<char>::empty()
        }) + int_decimal(self.octave as int)
    }

    /// Whether computing `offset_from_a4` step by step stays within `i32`.
    pub open spec fn offset_fits_i32(self) -> bool {
        &&& i32::MIN <= self.octave - 4
        &&& i32::MIN <= (self.octave - 4) * 12 <= i32::MAX
        &&& i32::MIN <= self.offset_from_a4() + 9 <= i32::MAX
        &&& i32::MIN <= self.offset_from_a4() <= i32::MAX
    }

    /// Create a new piano key.
    pub fn new(note: Note, sharp: bool, octave: i32) -> (r: Self)
        ensures
            r == (PianoKey { note, sharp, octave }),
    {
        PianoKey { note, sharp, octave }
    }

    /// Semitones from A4 to this key; the frequency of the key in Hz is
    /// 440 times 2 to the power of this divided by 12.
    pub fn semitones_from_a4(&self) -> (r: i32)
        requires
            self.offset_fits_i32(),
        ensures
            r == self.offset_from_a4(),
    {
        let octave_offset = (self.octave - 4) * 12;
        let note_offset = self.note.semitone_in_octave();
        let sharp_offset: i32 = if self.sharp {
            1
        } else {
            0
        };
        let semitones_from_c4 = note_offset + sharp_offset;
        octave_offset + semitones_from_c4 - 9
    }

    /// Semitones from A4 to this key, or `None` where computing them step by
    /// step in `i32` would overflow.
    pub fn checked_semitones_from_a4(&self) -> (r: Option<i32>)
        ensures
            r == (if self.offset_fits_i32() {
                Some(self.offset_from_a4() as i32)
            } else {
                None
            }),
    {
        let shifted = match self.octave.checked_sub(4) {
            Some(v) => v,
            None => return None,
        };
        let octave_offset = match shifted.checked_mul(12) {
            Some(v) => v,
            None => return None,
        };
        let sharp_offset: i32 = if self.sharp {
            1
        } else {
            0
        };
        let semitones_from_c4 = self.note.semitone_in_octave() + sharp_offset;
        let sum = match octave_offset.checked_add(semitones_from_c4) {
            Some(v) => v,
            None => return None,
        };
        match sum.checked_sub(9) {
            Some(v) => Some(v),
            None => None,
        }
    }

    /// Get the name of this note for display, such as `C#4`.
    pub fn name(&self) -> (r: String)
        ensures
            r@ == self.spec_name(),
    {
        let mut s = String::new();
        s.append(self.note.as_str());
        if self.sharp {
            proof { reveal_strlit("#"); }
            s.append("#");
        }
        push_int_decimal(&mut s, self.octave);
        assert(s@ =~= self.spec_name());
        s
    }
}

/// The octave clamped to the octaves of the piano, 0 to 8.
pub open spec fn clamp_octave(octave: int) -> int {
    if octave < 0 {
        0
    } else if octave > 8 {
        8
    } else {
        octave
    }
}

/// The note and sharp flag that name pitch class `p` (0 = C, 1 = C#, ..., 11 = B).
pub open spec fn note_of_pitch_class(p: int) -> (Note, bool) {
    if p == 0 {
        (Note::C, false)
    } else if p == 1 {
        (Note::C, true)
    } else if p == 2 {
        (Note::D, false)
    } else if p == 3 {
        (Note::D, true)
    } else if p == 4 {
        (Note::E, false)
    } else if p == 5 {
        (Note::F, false)
    } else if p == 6 {
        (Note::F, true)
    } else if p == 7 {
        (Note::G, false)
    } else if p == 8 {
        (Note::G, true)
    } else if p == 9 {
        (Note::A, false)
    } else if p == 10 {
        (Note::A, true)
    } else {
        (Note::B, false)
    }
}

/// Whether the key of pitch class `p` in octave `o` is on the piano: from A0 up to C8.
pub open spec fn on_piano(o: int, p: int) -> bool {
    !(o == 0 && p < 9) && !(o == 8 && p != 0)
}

/// The piano key at `semitone` (taken modulo 12) in `octave` (clamped to 0..=8),
/// or `None` when that key lies outside the piano.
pub open spec fn key_at(octave: int, semitone: int) -> Option<PianoKey> {
    let p = semitone % 12;
    let o = clamp_octave(octave);
    if on_piano(o, p) {
        Some(
            PianoKey {
                note: note_of_pitch_class(p).0,
                sharp: note_of_pitch_class(p).1,
                octave: o as i32,
            },
        )
    } else {
        None
    }
}

/// Get a PianoKey for a given octave and semitone position within the octave
/// (0-11), where 0=C, 1=C#, 2=D, 3=D#, 4=E, 5=F, 6=F#, 7=G, 8=G#, 9=A, 10=A#, 11=B.
/// The semitone is taken modulo 12 and the octave is clamped to 0..=8.
pub fn get_key_for_octave_and_semitone(octave: i32, semitone: i32) -> (r: Option<PianoKey>)
    ensures
        r == key_at(octave as int, semitone as int),
{
    let p: i32 = match semitone.checked_rem_euclid(12) {
        Some(v) => v,
        None => 0,
    };
    let o: i32 = if octave < 0 {
        0
    } else if octave > 8 {
        8
    } else {
        octave
    };
    let (note, sharp) = if p == 0 {
        (Note::C, false)
    } else if p == 1 {
        (Note::C, true)
    } else if p == 2 {
        (Note::D, false)
    } else if p == 3 {
        (Note::D, true)
    } else if p == 4 {
        (Note::E, false)
    } else if p == 5 {
        (Note::F, false)
    } else if p == 6 {
        (Note::F, true)
    } else if p == 7 {
        (Note::G, false)
    } else if p == 8 {
        (Note::G, true)
    } else if p == 9 {
        (Note::A, false)
    } else if p == 10 {
        (Note::A, true)
    } else {
        (Note::B, false)
    };
    // Check bounds for grand piano (A0-C8)
    if o == 0 && p < 9 {
        return None;
    }
    if o == 8 && p != 0 {
        return None;
    }
    Some(PianoKey { note, sharp, octave: o })
}

/// Every key that `key_at` gives is written canonically, lies in the clamped
/// octave and has the requested pitch class.
pub proof fn lemma_key_at_is_requested_key(octave: int, semitone: int)
    ensures
        key_at(octave, semitone) matches Some(k) ==> {
            &&& k.is_canonical()
            &&& k.octave == clamp_octave(octave)
            &&& k.pitch_class() == semitone % 12
        },
{
}

/// A key is given exactly when it lies between A0 and C8, the range of a grand piano.
pub proof fn lemma_key_at_range(octave: int, semitone: int)
    ensures
        key_at(octave, semitone) is Some <==> lowest_key_offset() <= (clamp_octave(octave) - 4) * 12
            + semitone % 12 - 9 <= highest_key_offset(),
        key_at(octave, semitone) matches Some(k) ==> lowest_key_offset() <= k.offset_from_a4()
            <= highest_key_offset(),
{
}

/// Every canonical key of the piano is found again from its octave and pitch class.
pub proof fn lemma_key_at_round_trip(k: PianoKey)
    requires
        k.is_canonical(),
        lowest_key_offset() <= k.offset_from_a4() <= highest_key_offset(),
    ensures
        key_at(k.octave as int, k.pitch_class()) == Some(k),
{
}

/// The semitone argument counts modulo 12 and the octave is clamped to the piano.
pub proof fn lemma_key_at_normalizes(octave: int, semitone: int)
    ensures
        key_at(octave, semitone + 12) == key_at(octave, semitone),
        key_at(octave, semitone) == key_at(clamp_octave(octave), semitone),
{
    assert((semitone + 12) % 12 == semitone % 12) by (nonlinear_arith);
}

/// Each key of the piano lies an octave (12 semitones) above the key of the same
/// name one octave lower: the frequency doubles from octave to octave.
pub proof fn lemma_octave_is_twelve_semitones(k: PianoKey)
    requires
        k.octave < i32::MAX,
    ensures
        (PianoKey { octave: (k.octave + 1) as i32, ..k }).offset_from_a4() == k.offset_from_a4() + 12,
{
}

/// The keys found by position are spaced one semitone apart with A4 at 0: the
/// key at semitone `p` (0 = C) of octave `o` lies `12 * o + p - 57` semitones
/// from A4, so the frequency that the offset gives rises by a twelfth root of two
/// from each key to the next.
pub proof fn lemma_offset_follows_position(o: int, p: int)
    requires
        0 <= o <= 8,
        0 <= p < 12,
    ensures
        key_at(o, p) matches Some(k) ==> k.offset_from_a4() == 12 * o + p - 57,
{
}

/// The name of a key reads back as its letter, a `#` when sharp, and its
/// octave in decimal (after a `-` when the octave is negative).
pub proof fn lemma_name_reads_back(k: PianoKey)
    ensures
        k.spec_name()[0] == k.note.letter(),
        k.sharp ==> k.spec_name()[1] == '#',
        ({
            let digits = k.spec_name().subrange(if k.sharp { 2int } else { 1int }, k.spec_name().len() as int);
            &&& k.octave >= 0 ==> digits_value(digits) == k.octave
            &&& k.octave < 0 ==> digits[0] == '-' && digits_value(digits.drop_first()) == -k.octave
        }),
{
    lemma_int_decimal_reads_back(k.octave as int);
    let prefix = seq![k.note.letter()] + (if k.sharp {
        seq!['#']
    } else {
        Seq::<char>::empty()
    });
    let start: int = if k.sharp { 2 } else { 1 };
    assert(prefix.len() == start);
    assert(k.spec_name() == prefix + int_decimal(k.octave as int));
    assert(k.spec_name().subrange(start, k.spec_name().len() as int) =~= int_decimal(k.octave as int));
}

} // verus!
