//! The waveform shapes the oscillator can produce, and how they are named.
use vstd::prelude::*;
use vstd::string::*;

verus! {

/// The shape of one period of the oscillator's output.
#[derive(Debug, Clone, Copy, PartialEq, Eq, Structural)]
pub enum WaveShape {
    Sine,
    Square,
    Triangle,
    Sawtooth,
}

/// What `str::to_lowercase` returns for a string: its full Unicode lowercase mapping.
pub uninterp spec fn lowercase(s: Seq<char>) -> Seq<char>;

/// Calls `str::to_lowercase`. Its contract claims only that the result is the
/// lowercase mapping of the argument's characters, named by `lowercase`, which
/// depends on nothing but those characters.
#[verifier::external_body]
fn to_lowercase(s: &str) -> (r: String)
    ensures
        r@ == lowercase(s@),
{
    s.to_lowercase()
}

impl WaveShape {
    /// The lowercase name of the shape.
    pub open spec fn spec_name(self) -> Seq<char> {
        match self {
            WaveShape::Sine => seq!['s', 'i', 'n', 'e'],
            WaveShape::Square => seq!['s', 'q', 'u', 'a', 'r', 'e'],
            WaveShape::Triangle => seq!['t', 'r', 'i', 'a', 'n', 'g', 'l', 'e'],
            WaveShape::Sawtooth => seq!['s', 'a', 'w', 't', 'o', 'o', 't', 'h'],
        }
    }

    /// The shape whose lowercase name is `s`, if there is one.
    pub open spec fn named(s: Seq<char>) -> Option<WaveShape> {
        if s == WaveShape::Sine.spec_name() {
            Some(WaveShape::Sine)
        } else if s == WaveShape::Square.spec_name() {
            Some(WaveShape::Square)
        } else if s == WaveShape::Triangle.spec_name() {
            Some(WaveShape::Triangle)
        } else if s == WaveShape::Sawtooth.spec_name() {
            Some(WaveShape::Sawtooth)
        } else {
            None
        }
    }

    /// The shape after this one in the order sine, square, triangle, sawtooth, sine.
    pub open spec fn spec_next(self) -> WaveShape {
        match self {
            WaveShape::Sine => WaveShape::Square,
            WaveShape::Square => WaveShape::Triangle,
            WaveShape::Triangle => WaveShape::Sawtooth,
            WaveShape::Sawtooth => WaveShape::Sine,
        }
    }

    /// The shape before this one in the same cyclic order.
    pub open spec fn spec_prev(self) -> WaveShape {
        match self {
            WaveShape::Sine => WaveShape::Sawtooth,
            WaveShape::Square => WaveShape::Sine,
            WaveShape::Triangle => WaveShape::Square,
            WaveShape::Sawtooth => WaveShape::Triangle,
        }
    }

    /// The next shape in the cycle.
    pub fn next(&self) -> (r: WaveShape)
        ensures
            r == self.spec_next(),
    {
        match self {
            WaveShape::Sine => WaveShape::Square,
            WaveShape::Square => WaveShape::Triangle,
            WaveShape::Triangle => WaveShape::Sawtooth,
            WaveShape::Sawtooth => WaveShape::Sine,
        }
    }

    /// The previous shape in the cycle.
    pub fn prev(&self) -> (r: WaveShape)
        ensures
            r == self.spec_prev(),
    {
        match self {
            WaveShape::Sine => WaveShape::Sawtooth,
            WaveShape::Square => WaveShape::Sine,
            WaveShape::Triangle => WaveShape::Square,
            WaveShape::Sawtooth => WaveShape::Triangle,
        }
    }

    /// The shape named exactly by `s`, which is expected to be lowercase already.
    pub fn from_lowercase(s: &str) -> (r: Option<Self>)
        ensures
            r == WaveShape::named(s@),
    {
        proof {
            reveal_strlit("sine");
            reveal_strlit("square");
            reveal_strlit("triangle");
            reveal_strlit("sawtooth");
            assert("sine"@ =~= WaveShape::Sine.spec_name());
            assert("square"@ =~= WaveShape::Square.spec_name());
            assert("triangle"@ =~= WaveShape::Triangle.spec_name());
            assert("sawtooth"@ =~= WaveShape::Sawtooth.spec_name());
        }
        if str_equals(s, "sine") {
            Some(WaveShape::Sine)
        } else if str_equals(s, "square") {
            Some(WaveShape::Square)
        } else if str_equals(s, "triangle") {
            Some(WaveShape::Triangle)
        } else if str_equals(s, "sawtooth") {
            Some(WaveShape::Sawtooth)
        } else {
            None
        }
    }

    /// Parse a shape name, ignoring case: `sine`, `square`, `triangle` or `sawtooth`.
    pub fn from_str(s: &str) -> (r: Option<Self>)
        ensures
            r == WaveShape::named(lowercase(s@)),
    {
        let lower = to_lowercase(s);
        WaveShape::from_lowercase(lower.as_str())
    }
}

/// Whether two strings hold the same characters.
fn str_equals(a: &str, b: &str) -> (r: bool)
    ensures
        r == (a@ == b@),
{
    let n = a.unicode_len();
    if n != b.unicode_len() {
        return false;
    }
    let mut i: usize = 0;
    while i < n
        invariant
            n == a@.len(),
            n == b@.len(),
            i <= n,
            forall|j: int| 0 <= j < i ==> a@[j] == b@[j],
        decreases n - i,
    {
        if a.get_char(i) != b.get_char(i) {
            return false;
        }
        i = i + 1;
    }
    assert(a@ =~= b@);
    true
}

/// Stepping forward and then back through the shapes returns to the start.
pub proof fn lemma_next_prev_inverse(s: WaveShape)
    ensures
        s.spec_next().spec_prev() == s,
        s.spec_prev().spec_next() == s,
{
}

/// Four steps forward go once round all the shapes.
pub proof fn lemma_next_cycles_in_four(s: WaveShape)
    ensures
        s.spec_next().spec_next().spec_next().spec_next() == s,
        s.spec_next() != s,
        s.spec_next().spec_next() != s,
        s.spec_next().spec_next().spec_next() != s,
{
}

/// Each shape is found again from its own name.
pub proof fn lemma_named_round_trip(s: WaveShape)
    ensures
        WaveShape::named(s.spec_name()) == Some(s),
{
    assert(WaveShape::Sine.spec_name() != WaveShape::Square.spec_name());
    assert(WaveShape::Sine.spec_name()[1] != WaveShape::Sawtooth.spec_name()[1]);
    assert(WaveShape::Square.spec_name()[1] != WaveShape::Sawtooth.spec_name()[1]);
    assert(WaveShape::Sine.spec_name().len() != WaveShape::Triangle.spec_name().len());
    assert(WaveShape::Square.spec_name().len() != WaveShape::Triangle.spec_name().len());
    assert(WaveShape::Triangle.spec_name()[0] != WaveShape::Sawtooth.spec_name()[0]);
}

} // verus!
