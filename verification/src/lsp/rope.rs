//! The text of a document, held in a rope.
//!
//! What this file says of `ropey::Rope` is taken on trust: the text that a
//! rope holds, how its methods change that text, and how they count lines,
//! characters and code units in it.

use ropey::Rope;
use vstd::prelude::*;
use vstd::utf8::encode_utf8;

verus! {

#[verifier::external_type_specification]
#[verifier::external_body]
pub struct ExRope(Rope);

/// The text that a rope holds.
pub uninterp spec fn rope_text(rope: Rope) -> Seq<char>;

/// The number of lines of a text, as `Rope::len_lines` counts them: one more
/// than the line breaks in it.
pub uninterp spec fn line_count(text: Seq<char>) -> nat;

/// The line that holds the byte at `byte_idx` of the text in UTF-8, as
/// `Rope::byte_to_line` finds it: the number of line breaks before that byte.
pub uninterp spec fn line_of_byte(text: Seq<char>, byte_idx: nat) -> nat;

/// The index of the first character of line `line_idx`, as
/// `Rope::line_to_char` finds it.
pub uninterp spec fn char_of_line(text: Seq<char>, line_idx: nat) -> nat;

/// The index of the character that the byte at `byte_idx` of the text in
/// UTF-8 belongs to, as `Rope::byte_to_char` finds it.
pub uninterp spec fn char_of_byte(text: Seq<char>, byte_idx: nat) -> nat;

/// The index of the character that the UTF-16 code unit at `utf16_cu_idx`
/// belongs to, as `Rope::utf16_cu_to_char` finds it.
pub uninterp spec fn char_of_utf16_cu(text: Seq<char>, utf16_cu_idx: nat) -> nat;

/// The number of UTF-16 code units that a text takes: two for each character
/// beyond the basic plane, one for each other.
pub open spec fn utf16_len(text: Seq<char>) -> nat
    decreases text.len(),
{
    if text.len() == 0 {
        0
    } else {
        utf16_len(text.drop_last()) + if text.last() as u32 >= 0x10000 {
            2nat
        } else {
            1nat
        }
    }
}

/// Builds a rope with `Rope::from_str`; the rope holds the text it was made
/// from.
#[verifier::external_body]
pub(crate) fn rope_from_str(text: &str) -> (rope: Rope)
    ensures
        rope_text(rope) == text@,
{
    Rope::from_str(text)
}

/// Copies the text out of a rope through its `Display` impl, which writes
/// every chunk of the rope in order.
#[verifier::external_body]
pub(crate) fn rope_to_string(rope: &Rope) -> (text: String)
    ensures
        text@ == rope_text(*rope),
{
    rope.to_string()
}

/// Calls `Rope::try_byte_to_line`, which fails where `byte_idx` is greater
/// than the number of bytes of the text.
#[verifier::external_body]
pub(crate) fn rope_byte_to_line(rope: &Rope, byte_idx: usize) -> (line: Option<usize>)
    ensures
        line is Some <==> byte_idx <= encode_utf8(rope_text(*rope)).len(),
        line matches Some(l) ==> l == line_of_byte(rope_text(*rope), byte_idx as nat),
{
    rope.try_byte_to_line(byte_idx).ok()
}

/// Calls `Rope::try_line_to_char`, which fails where `line_idx` is greater
/// than the number of lines of the text.
#[verifier::external_body]
pub(crate) fn rope_line_to_char(rope: &Rope, line_idx: usize) -> (char_idx: Option<usize>)
    ensures
        char_idx is Some <==> line_idx <= line_count(rope_text(*rope)),
        char_idx matches Some(c) ==> c == char_of_line(rope_text(*rope), line_idx as nat),
{
    rope.try_line_to_char(line_idx).ok()
}

/// Calls `Rope::try_byte_to_char`, which fails where `byte_idx` is greater
/// than the number of bytes of the text.
#[verifier::external_body]
pub(crate) fn rope_byte_to_char(rope: &Rope, byte_idx: usize) -> (char_idx: Option<usize>)
    ensures
        char_idx is Some <==> byte_idx <= encode_utf8(rope_text(*rope)).len(),
        char_idx matches Some(c) ==> c == char_of_byte(rope_text(*rope), byte_idx as nat),
{
    rope.try_byte_to_char(byte_idx).ok()
}

/// Calls `Rope::try_char_to_utf16_cu`, which fails where `char_idx` is
/// greater than the number of characters of the text, and else counts the
/// UTF-16 code units of the characters before `char_idx`.
#[verifier::external_body]
pub(crate) fn rope_char_to_utf16_cu(rope: &Rope, char_idx: usize) -> (utf16_cu_idx: Option<usize>)
    ensures
        utf16_cu_idx is Some <==> char_idx <= rope_text(*rope).len(),
        utf16_cu_idx matches Some(u) ==> u == utf16_len(rope_text(*rope).take(char_idx as int)),
{
    rope.try_char_to_utf16_cu(char_idx).ok()
}

/// Calls `Rope::try_utf16_cu_to_char`, which fails where `utf16_cu_idx` is
/// greater than the number of UTF-16 code units of the text.
#[verifier::external_body]
pub(crate) fn rope_utf16_cu_to_char(rope: &Rope, utf16_cu_idx: usize) -> (char_idx: Option<usize>)
    ensures
        char_idx is Some <==> utf16_cu_idx <= utf16_len(rope_text(*rope)),
        char_idx matches Some(c) ==> c == char_of_utf16_cu(rope_text(*rope), utf16_cu_idx as nat),
{
    rope.try_utf16_cu_to_char(utf16_cu_idx).ok()
}

/// Calls `Rope::try_remove` on the characters from `start` up to `end`. It
/// fails, and leaves the rope as it is, where `start` is greater than `end`
/// or `end` is greater than the number of characters.
#[verifier::external_body]
pub(crate) fn rope_remove(rope: &mut Rope, start: usize, end: usize) -> (removed: bool)
    ensures
        removed <==> start <= end <= rope_text(*old(rope)).len(),
        removed ==> rope_text(*final(rope)) == rope_text(*old(rope)).subrange(0, start as int)
            + rope_text(*old(rope)).subrange(end as int, rope_text(*old(rope)).len() as int),
        !removed ==> rope_text(*final(rope)) == rope_text(*old(rope)),
{
    rope.try_remove(start..end).is_ok()
}

/// Calls `Rope::try_insert`, which puts `text` before the character at
/// `char_idx`. It fails, and leaves the rope as it is, where `char_idx` is
/// greater than the number of characters.
#[verifier::external_body]
pub(crate) fn rope_insert(rope: &mut Rope, char_idx: usize, text: &str) -> (inserted: bool)
    ensures
        inserted <==> char_idx <= rope_text(*old(rope)).len(),
        inserted ==> rope_text(*final(rope)) == rope_text(*old(rope)).subrange(0, char_idx as int)
            + text@ + rope_text(*old(rope)).subrange(
            char_idx as int,
            rope_text(*old(rope)).len() as int,
        ),
        !inserted ==> rope_text(*final(rope)) == rope_text(*old(rope)),
{
    rope.try_insert(char_idx, text).is_ok()
}

} // verus!
