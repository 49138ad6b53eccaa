//! Oscillator wave shapes and the names by which callers select them.
use vstd::prelude::*;
use vstd::utf8::{encode_utf8, encode_utf8_decode_utf8, is_ascii_chars, is_ascii_chars_encode_utf8};

verus! {

/// The shape an oscillator plays. `Unrecognized` is the state left by a name
/// that matches no shape: the oscillator keeps no shape selection.
#[derive(Clone, Copy, Debug, PartialEq, Eq, Structural)]
pub enum Waveform {
    Sine,
    Triangle,
    Square,
    Sawtooth,
    Custom,
    Unrecognized,
}

/// The shape selected by `name`: "sin", "tri", "sqr" and "saw" select the
/// four built-in shapes, and any other name is unrecognized.
pub open spec fn waveform_named(name: Seq<char>) -> Waveform {
    if name == seq!['s', 'i', 'n'] {
        Waveform::Sine
    } else if name == seq!['t', 'r', 'i'] {
        Waveform::Triangle
    } else if name == seq!['s', 'q', 'r'] {
        Waveform::Square
    } else if name == seq!['s', 'a', 'w'] {
        Waveform::Sawtooth
    } else {
        Waveform::Unrecognized
    }
}

/// A string equals a three-letter ASCII word exactly when its UTF-8 bytes
/// are the word's letters as bytes.
proof fn lemma_matches_ascii_word(name: Seq<char>, a: char, b: char, c: char)
    requires
        a <= '\u{7f}' && b <= '\u{7f}' && c <= '\u{7f}',
    ensures
        name == seq![a, b, c] <==> encode_utf8(name) == seq![a as u8, b as u8, c as u8],
{
    let word = seq![a, b, c];
    assert(is_ascii_chars(word));
    is_ascii_chars_encode_utf8(word);
    assert(encode_utf8(word) =~= seq![a as u8, b as u8, c as u8]);
    encode_utf8_decode_utf8(name);
    encode_utf8_decode_utf8(word);
}

/// Reads a wave shape name. Unknown names are not an error: they give
/// `Waveform::Unrecognized`.
pub fn parse_waveform(name: &str) -> (w: Waveform)
    ensures
        w == waveform_named(name@),
{
    let b = name.as_bytes();
    proof {
        lemma_matches_ascii_word(name@, 's', 'i', 'n');
        lemma_matches_ascii_word(name@, 't', 'r', 'i');
        lemma_matches_ascii_word(name@, 's', 'q', 'r');
        lemma_matches_ascii_word(name@, 's', 'a', 'w');
    }
    if b.len() != 3 {
        return Waveform::Unrecognized;
    }
    let (x, y, z) = (b[0], b[1], b[2]);
    proof {
        assert(b@ =~= seq![x, y, z]);
    }
    if x == 's' as u8 && y == 'i' as u8 && z == 'n' as u8 {
        Waveform::Sine
    } else if x == 't' as u8 && y == 'r' as u8 && z == 'i' as u8 {
        Waveform::Triangle
    } else if x == 's' as u8 && y == 'q' as u8 && z == 'r' as u8 {
        Waveform::Square
    } else if x == 's' as u8 && y == 'a' as u8 && z == 'w' as u8 {
        Waveform::Sawtooth
    } else {
        Waveform::Unrecognized
    }
}

} // verus!
