use vstd::prelude::*;
use vstd::string::*;

verus! {

/// How the samples of a WAV file are encoded: as IEEE floats or as integers.
#[derive(Debug, Clone, Copy, PartialEq, Eq, Structural)]
pub enum SampleFormat {
    Float,
    Int,
}

/// The two sample encodings that can be processed.
#[derive(Debug, Clone, Copy, PartialEq, Eq, Structural)]
pub enum SampleKind {
    /// 16-bit signed integer PCM.
    Pcm16,
    /// 32-bit IEEE float.
    Float32,
}

/// Which supported encoding a format and bit depth denote, if any.
pub open spec fn sample_kind(format: SampleFormat, bits: u16) -> Option<SampleKind> {
    match format {
        SampleFormat::Int => if bits == 16 { Some(SampleKind::Pcm16) } else { None },
        SampleFormat::Float => if bits == 32 { Some(SampleKind::Float32) } else { None },
    }
}

/// Only 16-bit integer PCM and 32-bit float files are supported.
pub fn classify_format(format: SampleFormat, bits: u16) -> (r: Option<SampleKind>)
    ensures
        r == sample_kind(format, bits),
{
    match format {
        SampleFormat::Int => if bits == 16 { Some(SampleKind::Pcm16) } else { None },
        SampleFormat::Float => if bits == 32 { Some(SampleKind::Float32) } else { None },
    }
}

/// The name of a sample format as it is shown ("Float", "Int").
pub open spec fn format_name(format: SampleFormat) -> Seq<char> {
    match format {
        SampleFormat::Float => seq!['F', 'l', 'o', 'a', 't'],
        SampleFormat::Int => seq!['I', 'n', 't'],
    }
}

/// The character of a decimal digit.
pub open spec fn digit_char(d: nat) -> char {
    if d == 0 { '0' }
    else if d == 1 { '1' }
    else if d == 2 { '2' }
    else if d == 3 { '3' }
    else if d == 4 { '4' }
    else if d == 5 { '5' }
    else if d == 6 { '6' }
    else if d == 7 { '7' }
    else if d == 8 { '8' }
    else { '9' }
}

/// The decimal notation of `n`, most significant digit first, without leading zeros.
pub open spec fn decimal(n: nat) -> Seq<char>
    decreases n,
{
    if n < 10 {
        seq![digit_char(n)]
    } else {
        decimal(n / 10).push(digit_char(n % 10))
    }
}

/// The label of a format and bit depth, such as "Int 16-bit".
pub open spec fn format_label_text(format: SampleFormat, bits: u16) -> Seq<char> {
    format_name(format) + seq![' '] + decimal(bits as nat) + seq!['-', 'b', 'i', 't']
}

fn digit_str(d: u16) -> (s: &'static str)
    requires
        d < 10,
    ensures
        s@ == seq![digit_char(d as nat)],
{
    if d == 0 {
        proof { reveal_strlit("0"); }
        assert("0"@ =~= seq!['0']);
        "0"
    } else if d == 1 {
        proof { reveal_strlit("1"); }
        assert("1"@ =~= seq!['1']);
        "1"
    } else if d == 2 {
        proof { reveal_strlit("2"); }
        assert("2"@ =~= seq!['2']);
        "2"
    } else if d == 3 {
        proof { reveal_strlit("3"); }
        assert("3"@ =~= seq!['3']);
        "3"
    } else if d == 4 {
        proof { reveal_strlit("4"); }
        assert("4"@ =~= seq!['4']);
        "4"
    } else if d == 5 {
        proof { reveal_strlit("5"); }
        assert("5"@ =~= seq!['5']);
        "5"
    } else if d == 6 {
        proof { reveal_strlit("6"); }
        assert("6"@ =~= seq!['6']);
        "6"
    } else if d == 7 {
        proof { reveal_strlit("7"); }
        assert("7"@ =~= seq!['7']);
        "7"
    } else if d == 8 {
        proof { reveal_strlit("8"); }
        assert("8"@ =~= seq!['8']);
        "8"
    } else {
        proof { reveal_strlit("9"); }
        assert("9"@ =~= seq!['9']);
        "9"
    }
}

/// Appends the decimal notation of `n` to `out`.
fn push_decimal(out: &mut String, n: u16)
    ensures
        final(out)@ == old(out)@ + decimal(n as nat),
    decreases n,
{
    if n >= 10 {
        push_decimal(out, n / 10);
    }
    out.append(digit_str(n % 10));
    assert(final(out)@ =~= old(out)@ + decimal(n as nat));
}

/// The label "<format> <bits>-bit" under which a file's encoding is reported.
pub fn format_label(format: SampleFormat, bits: u16) -> (s: String)
    ensures
        s@ == format_label_text(format, bits),
{
    let mut s = match format {
        SampleFormat::Float => {
            proof { reveal_strlit("Float "); }
            String::from_str("Float ")
        },
        SampleFormat::Int => {
            proof { reveal_strlit("Int "); }
            String::from_str("Int ")
        },
    };
    push_decimal(&mut s, bits);
    proof { reveal_strlit("-bit"); }
    s.append("-bit");
    assert(s@ =~= format_label_text(format, bits));
    s
}

} // verus!
