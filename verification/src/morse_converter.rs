//! From a message's text to its Morse code.
//!
//! The Morse table belongs to the `ripmors` crate and the script tests to
//! the `japanese` crate; both are called through wrappers. What is proved
//! here is what the text looks like when it reaches the table.

use vstd::prelude::*;
use vstd::string::StrSliceExecFns;

verus! {

/// The Morse code that `ripmors::encode_string` gives for a text: dots,
/// dashes, letter spaces, `/` between words, and line breaks kept.
pub uninterp spec fn morse_of(text: Seq<char>) -> Seq<char>;

/// The hiragana block.
pub open spec fn is_hiragana(c: char) -> bool {
    '\u{3040}' <= c <= '\u{309f}'
}

/// The katakana block without its middle dot.
pub open spec fn is_katakana(c: char) -> bool {
    '\u{30a0}' <= c <= '\u{30ff}' && c != '\u{30fb}'
}

/// Hiragana or katakana.
pub open spec fn is_kana(c: char) -> bool {
    is_hiragana(c) || is_katakana(c)
}

/// The block of the common kanji.
pub open spec fn is_kanji(c: char) -> bool {
    '\u{4e00}' <= c <= '\u{9faf}'
}

/// The katakana of a hiragana character, which stands 96 places further
/// on; any other character is kept.
pub open spec fn katakana_of(c: char) -> char {
    if is_hiragana(c) {
        (c as u32 + 0x60) as char
    } else {
        c
    }
}

/// Every character of the text is kana.
pub open spec fn all_kana(text: Seq<char>) -> bool {
    forall|i: int| 0 <= i < text.len() ==> is_kana(#[trigger] text[i])
}

/// Whether a character is kana.
///
/// Trusted: calls `japanese::charset::is_kana`, a test on the two blocks.
#[verifier::external_body]
fn kana(c: char) -> (yes: bool)
    ensures
        yes == is_kana(c),
{
    japanese::charset::is_kana(c)
}

/// Whether a character is kanji.
///
/// Trusted: calls `japanese::charset::is_kanji`, a test on one block.
#[verifier::external_body]
fn kanji(c: char) -> (yes: bool)
    ensures
        yes == is_kanji(c),
{
    japanese::charset::is_kanji(c)
}

/// The katakana of a hiragana character.
///
/// Trusted: calls `japanese::converter::convert_hiragana_to_katakana`,
/// which shifts a hiragana character by the distance between the two
/// blocks and returns any other character as it is.
#[verifier::external_body]
fn to_katakana(c: char) -> (converted: char)
    ensures
        converted == katakana_of(c),
{
    japanese::converter::convert_hiragana_to_katakana(c)
}

/// The Morse code of a text.
///
/// Trusted: calls `ripmors::encode_string`; the contract names the result
/// and says nothing of what it holds.
#[verifier::external_body]
fn encode_string(text: &str) -> (morse: String)
    ensures
        morse@ == morse_of(text@),
{
    ripmors::encode_string(text)
}

/// Whether every character of the text is kana.
pub fn is_all_kana(text: &str) -> (yes: bool)
    ensures
        yes == all_kana(text@),
{
    let length = text.unicode_len();
    let mut i: usize = 0;
    while i < length
        invariant
            i <= length,
            length == text@.len(),
            forall|j: int| 0 <= j < i ==> is_kana(#[trigger] text@[j]),
        decreases length - i,
    {
        if !kana(text.get_char(i)) {
            return false;
        }
        i += 1;
    }
    true
}

/// The text as it is handed to the Morse table.
///
/// A text that is not all kana is gone through character by character, and
/// each kanji is put through the hiragana-to-katakana conversion. That
/// conversion keeps whatever is not hiragana, and no kanji is, so the text
/// comes out as it went in.
pub fn katakana_text(text: &str) -> (converted: String)
    ensures
        converted@ == text@,
{
    let mixed = !is_all_kana(text);
    let length = text.unicode_len();
    let mut converted = String::new();
    let mut i: usize = 0;
    while i < length
        invariant
            i <= length,
            length == text@.len(),
            converted@ == text@.subrange(0, i as int),
        decreases length - i,
    {
        let c = text.get_char(i);
        if mixed && kanji(c) {
            converted.push(to_katakana(c));
        } else {
            converted.push(c);
        }
        i += 1;
    }
    converted
}

/// A text with its line breaks laid flat: every line feed becomes a space
/// and every carriage return is dropped.
pub open spec fn flattened(text: Seq<char>) -> Seq<char>
    decreases text.len(),
{
    if text.len() == 0 {
        Seq::empty()
    } else if text.last() == '\r' {
        flattened(text.drop_last())
    } else if text.last() == '\n' {
        flattened(text.drop_last()).push(' ')
    } else {
        flattened(text.drop_last()).push(text.last())
    }
}

/// Lays the line breaks of a text flat, so that its Morse code runs on
/// without a pause between the lines.
pub fn normalize_text(text: &str) -> (flat: String)
    ensures
        flat@ == flattened(text@),
{
    let length = text.unicode_len();
    let mut flat = String::new();
    let mut i: usize = 0;
    while i < length
        invariant
            i <= length,
            length == text@.len(),
            flat@ == flattened(text@.subrange(0, i as int)),
        decreases length - i,
    {
        let c = text.get_char(i);
        proof {
            let longer = text@.subrange(0, i + 1);
            assert(longer.drop_last() =~= text@.subrange(0, i as int));
            assert(longer.last() == c);
        }
        if c == '\n' {
            flat.push(' ');
        } else if c != '\r' {
            flat.push(c);
        }
        i += 1;
    }
    assert(text@.subrange(0, length as int) =~= text@);
    flat
}

/// Turns text into Morse code.
pub struct MorseConverter {}

impl MorseConverter {
    /// The Morse code of `text`.
    pub fn morse_converter(&self, text: &str) -> (morse: String)
        ensures
            morse@ == morse_of(text@),
    {
        let prepared = katakana_text(text);
        encode_string(prepared.as_str())
    }
}

} // verus!
