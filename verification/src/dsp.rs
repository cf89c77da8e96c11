use vstd::prelude::*;
use vstd::string::*;

verus! {

/// The carrier waveform that modulates the input signal.
#[derive(Debug, Clone, Copy, PartialEq, Eq, Structural)]
pub enum Waveform {
    Sine,
    Square,
    Saw,
    Triangle,
}

/// The name under which a waveform is shown and accepted on the command line.
pub open spec fn waveform_name(w: Waveform) -> Seq<char> {
    match w {
        Waveform::Sine => seq!['s', 'i', 'n', 'e'],
        Waveform::Square => seq!['s', 'q', 'u', 'a', 'r', 'e'],
        Waveform::Saw => seq!['s', 'a', 'w'],
        Waveform::Triangle => seq!['t', 'r', 'i', 'a', 'n', 'g', 'l', 'e'],
    }
}

/// The waveform whose name is exactly `s`, if there is one.
pub open spec fn waveform_from_name(s: Seq<char>) -> Option<Waveform> {
    if s == waveform_name(Waveform::Sine) {
        Some(Waveform::Sine)
    } else if s == waveform_name(Waveform::Square) {
        Some(Waveform::Square)
    } else if s == waveform_name(Waveform::Saw) {
        Some(Waveform::Saw)
    } else if s == waveform_name(Waveform::Triangle) {
        Some(Waveform::Triangle)
    } else {
        None
    }
}

/// Character-wise equality of two strings.
fn str_equals(s: &str, t: &str) -> (r: bool)
    ensures
        r == (s@ == t@),
{
    let n = s.unicode_len();
    if n != t.unicode_len() {
        return false;
    }
    let mut i: usize = 0;
    while i < n
        invariant
            n == s@.len(),
            n == t@.len(),
            i <= n,
            forall|j: int| 0 <= j < i ==> s@[j] == t@[j],
        decreases n - i,
    {
        if s.get_char(i) != t.get_char(i) {
            return false;
        }
        i += 1;
    }
    assert(s@ =~= t@);
    true
}

impl Waveform {
    /// The lower-case name of the waveform ("sine", "square", "saw", "triangle").
    pub fn name(&self) -> (s: &'static str)
        ensures
            s@ == waveform_name(*self),
    {
        match self {
            Waveform::Sine => {
                proof {
                    reveal_strlit("sine");
                }
                assert("sine"@ =~= waveform_name(Waveform::Sine));
                "sine"
            },
            Waveform::Square => {
                proof {
                    reveal_strlit("square");
                }
                assert("square"@ =~= waveform_name(Waveform::Square));
                "square"
            },
            Waveform::Saw => {
                proof {
                    reveal_strlit("saw");
                }
                assert("saw"@ =~= waveform_name(Waveform::Saw));
                "saw"
            },
            Waveform::Triangle => {
                proof {
                    reveal_strlit("triangle");
                }
                assert("triangle"@ =~= waveform_name(Waveform::Triangle));
                "triangle"
            },
        }
    }

    /// Reads a waveform from its name; any other text gives `None`.
    pub fn parse(s: &str) -> (r: Option<Waveform>)
        ensures
            r == waveform_from_name(s@),
    {
        if str_equals(s, Waveform::Sine.name()) {
            Some(Waveform::Sine)
        } else if str_equals(s, Waveform::Square.name()) {
            Some(Waveform::Square)
        } else if str_equals(s, Waveform::Saw.name()) {
            Some(Waveform::Saw)
        } else if str_equals(s, Waveform::Triangle.name()) {
            Some(Waveform::Triangle)
        } else {
            None
        }
    }
}

/// Reading the name of a waveform gives that waveform back.
pub proof fn lemma_parse_name(w: Waveform)
    ensures
        waveform_from_name(waveform_name(w)) == Some(w),
{
}

/// A name that is accepted is exactly the name of the waveform it gives.
pub proof fn lemma_name_parse(s: Seq<char>)
    ensures
        waveform_from_name(s) matches Some(w) ==> waveform_name(w) == s,
{
}

/// No two waveforms share a name.
pub proof fn lemma_names_distinct(a: Waveform, b: Waveform)
    ensures
        waveform_name(a) == waveform_name(b) ==> a == b,
{
    lemma_parse_name(a);
    lemma_parse_name(b);
}

} // verus!
