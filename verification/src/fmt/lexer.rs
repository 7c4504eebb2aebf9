//! Where the tokens of a source text start and end.
//!
//! A token is a word (a run of letters, digits and underscores), a string
//! literal, or any other single character. Spaces and comments stand
//! between tokens.

use vstd::prelude::*;

verus! {

/// A token: the offsets of its first character and of the character behind
/// its last, counted in characters.
#[derive(Clone, Copy, Debug, PartialEq, Eq, Structural)]
pub struct Token {
    pub start: usize,
    pub end: usize,
}

/// Whether `c` separates tokens without being one.
pub open spec fn is_space(c: char) -> bool {
    c == ' ' || c == '\t' || c == '\n' || c == '\r'
}

/// Whether `c` can start a name: a letter of the Latin alphabet or an
/// underscore.
pub open spec fn is_name_start(c: char) -> bool {
    ('a' <= c && c <= 'z') || ('A' <= c && c <= 'Z') || c == '_'
}

/// Whether `c` can stand in a word: a letter, a digit or an underscore.
pub open spec fn is_word_char(c: char) -> bool {
    is_name_start(c) || ('0' <= c && c <= '9')
}

/// The first position from `pos` on that holds a line feed; the length of the
/// text where none does.
pub open spec fn line_end(src: Seq<char>, pos: int) -> int
    decreases src.len() - pos,
{
    if pos < 0 || pos >= src.len() {
        src.len() as int
    } else if src[pos] == '\n' {
        pos
    } else {
        line_end(src, pos + 1)
    }
}

/// The position behind the first `*/` that starts at `pos` or later; the
/// length of the text where there is none.
pub open spec fn block_comment_end(src: Seq<char>, pos: int) -> int
    decreases src.len() - pos,
{
    if pos < 0 || pos + 1 >= src.len() {
        src.len() as int
    } else if src[pos] == '*' && src[pos + 1] == '/' {
        pos + 2
    } else {
        block_comment_end(src, pos + 1)
    }
}

/// The position of the first character from `pos` on that is neither a space
/// nor part of a comment; the length of the text where there is none. A
/// comment runs from `//` to the end of the line, or from `/*` to the next
/// `*/`.
pub open spec fn skip_trivia(src: Seq<char>, pos: int) -> int
    decreases src.len() - pos,
{
    if pos < 0 || pos >= src.len() {
        src.len() as int
    } else if is_space(src[pos]) {
        skip_trivia(src, pos + 1)
    } else if src[pos] == '/' && pos + 1 < src.len() && src[pos + 1] == '/' {
        let next = line_end(src, pos + 2);
        if pos < next <= src.len() {
            skip_trivia(src, next)
        } else {
            pos
        }
    } else if src[pos] == '/' && pos + 1 < src.len() && src[pos + 1] == '*' {
        let next = block_comment_end(src, pos + 2);
        if pos < next <= src.len() {
            skip_trivia(src, next)
        } else {
            pos
        }
    } else {
        pos
    }
}

/// The position behind the run of word characters that starts at `pos`.
pub open spec fn word_end(src: Seq<char>, pos: int) -> int
    decreases src.len() - pos,
{
    if pos < 0 || pos >= src.len() {
        src.len() as int
    } else if is_word_char(src[pos]) {
        word_end(src, pos + 1)
    } else {
        pos
    }
}

/// The position behind the quote that closes a string literal whose
/// characters start at `pos`; the length of the text where none does. A
/// character behind a backslash does not close the literal.
pub open spec fn string_end(src: Seq<char>, pos: int) -> int
    decreases src.len() - pos,
{
    if pos < 0 || pos >= src.len() {
        src.len() as int
    } else if src[pos] == '"' {
        pos + 1
    } else if src[pos] == '\\' && pos + 1 < src.len() {
        string_end(src, pos + 2)
    } else {
        string_end(src, pos + 1)
    }
}

/// The position behind the token that starts at `start`.
pub open spec fn token_end(src: Seq<char>, start: int) -> int {
    if is_word_char(src[start]) {
        word_end(src, start + 1)
    } else if src[start] == '"' {
        string_end(src, start + 1)
    } else {
        start + 1
    }
}

/// The first token at `pos` or later: where it starts and where it ends.
pub open spec fn next_token(src: Seq<char>, pos: int) -> Option<(int, int)> {
    let start = skip_trivia(src, pos);
    if start >= src.len() {
        None
    } else {
        Some((start, token_end(src, start)))
    }
}

/// Whether the token from `start` to `end` is the single character `c`.
pub open spec fn is_char_token(src: Seq<char>, start: int, end: int, c: char) -> bool {
    end == start + 1 && src[start] == c
}

/// Tells whether `c` separates tokens without being one.
pub fn space(c: char) -> (b: bool)
    ensures
        b == is_space(c),
{
    c == ' ' || c == '\t' || c == '\n' || c == '\r'
}

/// Tells whether `c` can start a name.
pub fn name_start(c: char) -> (b: bool)
    ensures
        b == is_name_start(c),
{
    ('a' <= c && c <= 'z') || ('A' <= c && c <= 'Z') || c == '_'
}

/// Tells whether `c` can stand in a word.
pub fn word_char(c: char) -> (b: bool)
    ensures
        b == is_word_char(c),
{
    name_start(c) || ('0' <= c && c <= '9')
}

/// Finds the end of the line that holds `pos`.
fn find_line_end(src: &Vec<char>, pos: usize) -> (end: usize)
    requires
        pos <= src.len(),
    ensures
        end == line_end(src@, pos as int),
        pos <= end <= src.len(),
{
    let mut at = pos;
    while at < src.len() && src[at] != '\n'
        invariant
            pos <= at <= src.len(),
            line_end(src@, pos as int) == line_end(src@, at as int),
        decreases src.len() - at,
    {
        at += 1;
    }
    at
}

/// Finds the end of the block comment whose text starts at `pos`.
fn find_block_comment_end(src: &Vec<char>, pos: usize) -> (end: usize)
    requires
        pos <= src.len(),
    ensures
        end == block_comment_end(src@, pos as int),
        pos <= end <= src.len(),
{
    let mut at = pos;
    while at < src.len() && at + 1 < src.len()
        invariant
            pos <= at <= src.len(),
            block_comment_end(src@, pos as int) == block_comment_end(src@, at as int),
        decreases src.len() - at,
    {
        if src[at] == '*' && src[at + 1] == '/' {
            return at + 2;
        }
        at += 1;
    }
    src.len()
}

/// Finds the first character from `pos` on that belongs to a token.
pub fn find_token_start(src: &Vec<char>, pos: usize) -> (start: usize)
    requires
        pos <= src.len(),
    ensures
        start == skip_trivia(src@, pos as int),
        pos <= start <= src.len(),
{
    let mut at = pos;
    while at < src.len()
        invariant
            pos <= at <= src.len(),
            skip_trivia(src@, pos as int) == skip_trivia(src@, at as int),
        decreases src.len() - at,
    {
        let c = src[at];
        if space(c) {
            at += 1;
        } else if c == '/' && at + 1 < src.len() && src[at + 1] == '/' {
            at = find_line_end(src, at + 2);
        } else if c == '/' && at + 1 < src.len() && src[at + 1] == '*' {
            at = find_block_comment_end(src, at + 2);
        } else {
            return at;
        }
    }
    src.len()
}

/// Finds the end of the run of word characters that starts at `pos`.
fn find_word_end(src: &Vec<char>, pos: usize) -> (end: usize)
    requires
        pos <= src.len(),
    ensures
        end == word_end(src@, pos as int),
        pos <= end <= src.len(),
{
    let mut at = pos;
    while at < src.len() && word_char(src[at])
        invariant
            pos <= at <= src.len(),
            word_end(src@, pos as int) == word_end(src@, at as int),
        decreases src.len() - at,
    {
        at += 1;
    }
    at
}

/// Finds the end of the string literal whose characters start at `pos`.
fn find_string_end(src: &Vec<char>, pos: usize) -> (end: usize)
    requires
        pos <= src.len(),
    ensures
        end == string_end(src@, pos as int),
        pos <= end <= src.len(),
{
    let mut at = pos;
    while at < src.len()
        invariant
            pos <= at <= src.len(),
            string_end(src@, pos as int) == string_end(src@, at as int),
        decreases src.len() - at,
    {
        let c = src[at];
        if c == '"' {
            return at + 1;
        } else if c == '\\' && at + 1 < src.len() {
            at += 2;
        } else {
            at += 1;
        }
    }
    src.len()
}

/// The first token at `pos` or later, if the text holds one.
pub fn token_from(src: &Vec<char>, pos: usize) -> (token: Option<Token>)
    requires
        pos <= src.len(),
    ensures
        match token {
            Some(t) => next_token(src@, pos as int) == Some((t.start as int, t.end as int))
                && pos <= t.start < t.end <= src.len(),
            None => next_token(src@, pos as int) is None,
        },
{
    let start = find_token_start(src, pos);
    if start >= src.len() {
        return None;
    }
    let c = src[start];
    let end = if word_char(c) {
        find_word_end(src, start + 1)
    } else if c == '"' {
        find_string_end(src, start + 1)
    } else {
        start + 1
    };
    Some(Token { start, end })
}

/// Tells whether `token` is the single character `c`.
pub fn token_is_char(src: &Vec<char>, token: &Token, c: char) -> (b: bool)
    requires
        token.start < token.end <= src.len(),
    ensures
        b == is_char_token(src@, token.start as int, token.end as int, c),
{
    token.end == token.start + 1 && src[token.start] == c
}

/// Tells whether `token` reads as `word` does.
pub fn token_is_word(src: &Vec<char>, token: &Token, word: &str) -> (b: bool)
    requires
        token.start <= token.end <= src.len(),
    ensures
        b == (src@.subrange(token.start as int, token.end as int) == word@),
{
    let letters = crate::fmt::text::chars_of(word);
    let ghost text = src@.subrange(token.start as int, token.end as int);
    if letters.len() != token.end - token.start {
        return false;
    }
    let mut i: usize = 0;
    while i < letters.len()
        invariant
            i <= letters.len(),
            letters.len() == token.end - token.start,
            token.end <= src.len(),
            text == src@.subrange(token.start as int, token.end as int),
            letters@ == word@,
            forall|k: int| 0 <= k < i ==> text[k] == letters@[k],
        decreases letters.len() - i,
    {
        if src[token.start + i] != letters[i] {
            proof {
                assert(text[i as int] != letters@[i as int]);
            }
            return false;
        }
        i += 1;
    }
    proof {
        assert(text =~= letters@);
    }
    true
}

} // verus!
