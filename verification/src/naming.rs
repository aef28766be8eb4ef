//! Deterministic artifact names within one job's output directory.
//!
//! Image files are named `frame<index>.png` from the zero-based sequence
//! index; the single audio file is named `audio.mp3`.  The two never
//! collide, so the video and audio tasks write disjoint filenames.

use vstd::prelude::*;
use vstd::string::StringExecFns;

verus! {

/// The character of one decimal digit.
pub open spec fn digit_char(d: nat) -> char {
    if d == 0 {
        '0'
    } else if d == 1 {
        '1'
    } else if d == 2 {
        '2'
    } else if d == 3 {
        '3'
    } else if d == 4 {
        '4'
    } else if d == 5 {
        '5'
    } else if d == 6 {
        '6'
    } else if d == 7 {
        '7'
    } else if d == 8 {
        '8'
    } else {
        '9'
    }
}

/// The decimal digits of `n`, most significant first, without leading
/// zeros (zero itself is the single digit `0`).
pub open spec fn decimal_digits(n: nat) -> Seq<char>
    decreases n,
{
    if n < 10 {
        seq![digit_char(n)]
    } else {
        decimal_digits(n / 10) + seq![digit_char(n % 10)]
    }
}

/// The name of the image file for sequence index `i`.
pub open spec fn spec_frame_name(i: nat) -> Seq<char> {
    "frame"@ + decimal_digits(i) + ".png"@
}

/// The name of the job's single audio file.
pub open spec fn spec_audio_name() -> Seq<char> {
    "audio.mp3"@
}

/// Appends the decimal digits of `n` to `s`.
fn push_decimal(s: &mut String, n: usize)
    ensures
        final(s)@ == old(s)@ + decimal_digits(n as nat),
    decreases n,
{
    if n >= 10 {
        push_decimal(s, n / 10);
    }
    let d: usize = n % 10;
    let digit: &str = if d == 0 {
        "0"
    } else if d == 1 {
        "1"
    } else if d == 2 {
        "2"
    } else if d == 3 {
        "3"
    } else if d == 4 {
        "4"
    } else if d == 5 {
        "5"
    } else if d == 6 {
        "6"
    } else if d == 7 {
        "7"
    } else if d == 8 {
        "8"
    } else {
        "9"
    };
    proof {
        reveal_strlit("0");
        reveal_strlit("1");
        reveal_strlit("2");
        reveal_strlit("3");
        reveal_strlit("4");
        reveal_strlit("5");
        reveal_strlit("6");
        reveal_strlit("7");
        reveal_strlit("8");
        reveal_strlit("9");
        assert(digit@ =~= seq![digit_char(d as nat)]);
    }
    s.append(digit);
    proof {
        assert(s@ =~= old(s)@ + decimal_digits(n as nat));
    }
}

/// The deterministic file name of the image with sequence index `index`.
pub fn frame_file_name(index: usize) -> (r: String)
    ensures
        r@ == spec_frame_name(index as nat),
{
    let mut s = String::from_str("frame");
    push_decimal(&mut s, index);
    s.append(".png");
    proof {
        assert(s@ =~= spec_frame_name(index as nat));
    }
    s
}

/// The fixed file name of the job's audio artifact.
pub fn audio_file_name() -> (r: String)
    ensures
        r@ == spec_audio_name(),
{
    String::from_str("audio.mp3")
}

/// The numeric value of a digit character, inverse of `digit_char`.
pub open spec fn char_digit(c: char) -> nat {
    if c == '0' {
        0
    } else if c == '1' {
        1
    } else if c == '2' {
        2
    } else if c == '3' {
        3
    } else if c == '4' {
        4
    } else if c == '5' {
        5
    } else if c == '6' {
        6
    } else if c == '7' {
        7
    } else if c == '8' {
        8
    } else {
        9
    }
}

/// The number a digit string denotes, most significant digit first.
pub open spec fn digits_value(s: Seq<char>) -> nat
    decreases s.len(),
{
    if s.len() == 0 {
        0
    } else {
        digits_value(s.drop_last()) * 10 + char_digit(s.last())
    }
}

/// `char_digit` undoes `digit_char`.
proof fn lemma_char_digit_inverse(d: nat)
    requires
        d < 10,
    ensures
        char_digit(digit_char(d)) == d,
{
}

/// Reading the decimal digits of `n` back yields `n`.
pub proof fn lemma_digits_round_trip(n: nat)
    ensures
        digits_value(decimal_digits(n)) == n,
    decreases n,
{
    lemma_char_digit_inverse(n % 10);
    if n < 10 {
        reveal_with_fuel(digits_value, 2);
        lemma_char_digit_inverse(n);
        assert(decimal_digits(n).drop_last() =~= Seq::<char>::empty());
        assert(decimal_digits(n).last() == digit_char(n));
    } else {
        lemma_digits_round_trip(n / 10);
        assert(decimal_digits(n).drop_last() =~= decimal_digits(n / 10));
        assert(decimal_digits(n).last() == digit_char(n % 10));
        vstd::arithmetic::div_mod::lemma_fundamental_div_mod(n as int, 10);
    }
}

/// Law: the decimal rendering is injective, so two distinct numbers never
/// render to the same digit string.
pub proof fn lemma_decimal_digits_injective(m: nat, n: nat)
    requires
        decimal_digits(m) == decimal_digits(n),
    ensures
        m == n,
{
    lemma_digits_round_trip(m);
    lemma_digits_round_trip(n);
}

/// Law: image file names are collision-free: two sequence indices receive
/// the same name only if they are equal, so the write plan's entries go to
/// pairwise distinct files.
pub proof fn lemma_frame_names_injective(i: nat, j: nat)
    requires
        spec_frame_name(i) == spec_frame_name(j),
    ensures
        i == j,
{
    reveal_strlit("frame");
    reveal_strlit(".png");
    let ni = spec_frame_name(i);
    let di = decimal_digits(i);
    let dj = decimal_digits(j);
    assert("frame"@.len() == 5);
    assert(".png"@.len() == 4);
    assert(ni.len() == 5 + di.len() + 4);
    assert(spec_frame_name(j).len() == 5 + dj.len() + 4);
    assert(di.len() == dj.len());
    assert(di =~= ni.subrange(5, 5 + di.len() as int));
    assert(dj =~= ni.subrange(5, 5 + di.len() as int));
    lemma_decimal_digits_injective(i, j);
}

/// Law: no image file name ever equals the audio file name, so the two
/// concurrent tasks of one job write disjoint files.
pub proof fn lemma_artifact_names_disjoint(i: nat)
    ensures
        spec_frame_name(i) != spec_audio_name(),
{
    reveal_strlit("frame");
    reveal_strlit("audio.mp3");
    assert(spec_frame_name(i)[0] == 'f');
    assert(spec_audio_name()[0] == 'a');
}

} // verus!
