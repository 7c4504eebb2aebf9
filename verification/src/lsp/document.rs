//! An open document: its text, the tokens found in it, and the changes that
//! an editor makes to it.

use crate::lsp::index::{
    name_indices, spec_declared_token, spec_token_at_position, TokenIndex,
};
use crate::lsp::position::{Diagnostic, Position, Range, TextDocumentContentChangeEvent};
use crate::lsp::rope::{
    char_of_byte, char_of_line, char_of_utf16_cu, line_count, line_of_byte, rope_byte_to_char,
    rope_byte_to_line, rope_char_to_utf16_cu, rope_from_str, rope_insert, rope_line_to_char,
    rope_remove, rope_text, rope_to_string, rope_utf16_cu_to_char, utf16_len,
};
use crate::lsp::token::Token;
use ropey::Rope;
use vstd::prelude::*;
use vstd::string::StringExecFns;
use vstd::utf8::encode_utf8;

verus! {

/// Why a document is not at hand.
#[derive(Debug, PartialEq, Eq)]
pub enum DocumentError {
    FailedToParse(Vec<Diagnostic>),
    DocumentNotFound,
    DocumentAlreadyStored,
}

/// An open document.
#[derive(Debug)]
pub struct TextDocument {
    #[allow(dead_code)]
    language_id: String,
    #[allow(dead_code)]
    version: i32,
    uri: String,
    content: Rope,
    index: TokenIndex,
}

/// What a [`TextDocument`] stands for: where it is from, its text, and its
/// tokens.
pub struct TextDocumentView {
    pub uri: Seq<char>,
    pub text: Seq<char>,
    pub tokens: Seq<Token>,
}

/// The piece of a document that a change replaces, from the character at
/// `start_index` up to the one at `end_index`, and the text that takes its
/// place.
#[derive(Debug)]
pub struct EditText<'text> {
    pub start_index: usize,
    pub end_index: usize,
    pub change_text: &'text str,
}

/// `n` as a 32-bit number, the higher bits dropped.
pub open spec fn low_32_bits(n: nat) -> u32 {
    (n % 0x1_0000_0000) as u32
}

/// The place of the byte at `byte_index` of `text` in UTF-8: its line, and
/// the UTF-16 code units between the start of that line and the character
/// that the byte belongs to. `None` where the byte, its line or one of the two
/// characters lies beyond the text.
pub open spec fn spec_byte_to_position(text: Seq<char>, byte_index: usize) -> Option<Position> {
    let line_index = line_of_byte(text, byte_index as nat);
    let line_char_index = char_of_line(text, line_index);
    let char_index = char_of_byte(text, byte_index as nat);
    if byte_index <= encode_utf8(text).len() && line_index <= line_count(text) && line_char_index
        <= text.len() && char_index <= text.len() && utf16_len(text.take(line_char_index as int))
        <= utf16_len(text.take(char_index as int)) {
        Some(
            Position {
                line: low_32_bits(line_index),
                character: low_32_bits(
                    (utf16_len(text.take(char_index as int)) - utf16_len(
                        text.take(line_char_index as int),
                    )) as nat,
                ),
            },
        )
    } else {
        None
    }
}

/// The index of the character at `position` in `text`: the index of the
/// first character of its line plus the index of the character that the
/// UTF-16 code unit at its offset belongs to. `None` where the line or the
/// offset lies beyond the text, or the sum is too large to be an index.
pub open spec fn spec_position_to_index(text: Seq<char>, position: Position) -> Option<usize> {
    let row_char_index = char_of_line(text, position.line as nat);
    let column_char_index = char_of_utf16_cu(text, position.character as nat);
    if position.line <= line_count(text) && position.character <= utf16_len(text)
        && row_char_index + column_char_index <= usize::MAX {
        Some((row_char_index + column_char_index) as usize)
    } else {
        None
    }
}

/// The range that a change replaces: the one it names, or, where it names
/// none, the one from the first byte of `text` to the byte at the length of
/// the new text.
pub open spec fn spec_change_range(text: Seq<char>, range: Option<Range>, new_text: Seq<char>)
    -> Option<Range> {
    match range {
        Some(range) => Some(range),
        None => match (
            spec_byte_to_position(text, 0),
            spec_byte_to_position(text, encode_utf8(new_text).len() as usize),
        ) {
            (Some(start), Some(end)) => Some(Range { start, end }),
            _ => None,
        },
    }
}

/// The characters that a change replaces: where the range of the change
/// starts and where it ends.
pub open spec fn spec_build_edit(text: Seq<char>, range: Option<Range>, new_text: Seq<char>)
    -> Option<(usize, usize)> {
    match spec_change_range(text, range, new_text) {
        Some(range) => match (
            spec_position_to_index(text, range.start),
            spec_position_to_index(text, range.end),
        ) {
            (Some(start_index), Some(end_index)) => Some((start_index, end_index)),
            _ => None,
        },
        None => None,
    }
}

/// The text once a change has been applied: `new_text` in place of the
/// characters that the change replaces. The text as it is where the change
/// replaces no characters of it: where its range lies beyond the text or ends
/// before it starts.
pub open spec fn spec_apply_change(text: Seq<char>, range: Option<Range>, new_text: Seq<char>)
    -> Seq<char> {
    match spec_build_edit(text, range, new_text) {
        Some((start_index, end_index)) => if start_index <= end_index <= text.len() {
            text.subrange(0, start_index as int) + new_text + text.subrange(
                end_index as int,
                text.len() as int,
            )
        } else {
            text
        },
        None => text,
    }
}

/// Whether a change replaces characters of `text`.
pub open spec fn spec_change_applies(text: Seq<char>, range: Option<Range>, new_text: Seq<char>)
    -> bool {
    match spec_build_edit(text, range, new_text) {
        Some((start_index, end_index)) => start_index <= end_index <= text.len(),
        None => false,
    }
}

/// The lower 32 bits of an index.
fn truncate_to_u32(n: usize) -> (low: u32)
    ensures
        low == low_32_bits(n as nat),
{
    ((n as u64) % 0x1_0000_0000u64) as u32
}

impl View for TextDocument {
    type V = TextDocumentView;

    closed spec fn view(&self) -> TextDocumentView {
        TextDocumentView {
            uri: self.uri@,
            text: rope_text(self.content),
            tokens: self.index@,
        }
    }
}

impl TextDocument {
    /// The document at `path`, given what reading that file gave: a
    /// document with that text and without tokens, or no document where the
    /// file could not be read.
    pub fn build_from_path(path: &str, read: Option<&str>) -> (r: Result<Self, DocumentError>)
        ensures
            match read {
                Some(content) => r matches Ok(document) && document@ == (TextDocumentView {
                    uri: path@,
                    text: content@,
                    tokens: Seq::empty(),
                }),
                None => r matches Err(DocumentError::DocumentNotFound),
            },
    {
        match read {
            Some(content) => Ok(
                TextDocument {
                    language_id: String::from_str("sway"),
                    version: 1,
                    uri: String::from_str(path),
                    content: rope_from_str(content),
                    index: TokenIndex::new(),
                },
            ),
            None => Err(DocumentError::DocumentNotFound),
        }
    }

    /// The first token that starts on the line of `position` and holds its
    /// offset.
    pub fn get_token_at_position(&self, position: Position) -> (found: Option<&Token>)
        ensures
            match found {
                Some(token) => spec_token_at_position(self@.tokens, position) matches Some(i) && i
                    < self@.tokens.len() && *token == self@.tokens[i as int],
                None => spec_token_at_position(self@.tokens, position) is None,
            },
    {
        self.index.get_token_at_position(position)
    }

    /// All tokens named `name`, in the order in which they were found, or
    /// `None` where there is none.
    pub fn get_all_tokens_by_single_name(&self, name: &str) -> (found: Option<Vec<&Token>>)
        ensures
            match found {
                Some(list) => {
                    let indices = name_indices(self@.tokens, name@, self@.tokens.len());
                    &&& indices.len() > 0
                    &&& list@.len() == indices.len()
                    &&& forall|j: int|
                        0 <= j < indices.len() ==> #[trigger] indices[j] < self@.tokens.len()
                    &&& forall|j: int|
                        0 <= j < list@.len() ==> *(#[trigger] list@[j]) == self@.tokens[indices[j] as int]
                },
                None => name_indices(self@.tokens, name@, self@.tokens.len()).len() == 0,
            },
    {
        self.index.get_all_tokens_by_single_name(name)
    }

    /// The first token named `name` that declares its name.
    pub fn get_declared_token(&self, name: &str) -> (found: Option<&Token>)
        ensures
            match found {
                Some(token) => spec_declared_token(self@.tokens, name@) matches Some(i) && i
                    < self@.tokens.len() && *token == self@.tokens[i as int],
                None => spec_declared_token(self@.tokens, name@) is None,
            },
    {
        self.index.get_declared_token(name)
    }

    /// The tokens of the document.
    pub fn get_tokens(&self) -> (tokens: &Vec<Token>)
        ensures
            tokens@ == self@.tokens,
    {
        self.index.get_tokens()
    }

    /// Where the document is from.
    pub fn get_uri(&self) -> (uri: &str)
        ensures
            uri@ == self@.uri,
    {
        self.uri.as_str()
    }

    /// Takes in what parsing the text gave: the tokens found take the place
    /// of those held so far and the diagnostics are handed on; where parsing
    /// failed no token is left and the diagnostics come back as the error.
    pub fn parse(
        &mut self,
        parsed: Result<(Vec<Token>, Vec<Diagnostic>), Vec<Diagnostic>>,
    ) -> (r: Result<Vec<Diagnostic>, DocumentError>)
        ensures
            final(self)@.uri == old(self)@.uri,
            final(self)@.text == old(self)@.text,
            match parsed {
                Ok((tokens, diagnostics)) => r == Ok::<Vec<Diagnostic>, DocumentError>(diagnostics)
                    && final(self)@.tokens == tokens@,
                Err(diagnostics) => r == Err::<Vec<Diagnostic>, DocumentError>(
                    DocumentError::FailedToParse(diagnostics),
                ) && final(self)@.tokens == Seq::<Token>::empty(),
            },
    {
        match parsed {
            Ok((tokens, diagnostics)) => {
                self.index = TokenIndex::store_tokens(tokens);
                Ok(diagnostics)
            },
            Err(diagnostics) => {
                self.index = TokenIndex::new();
                Err(DocumentError::FailedToParse(diagnostics))
            },
        }
    }

    /// Applies a change to the text, where the change replaces characters of
    /// it, and tells whether it did.
    pub fn apply_change(&mut self, change: &TextDocumentContentChangeEvent) -> (applied: bool)
        ensures
            applied == spec_change_applies(old(self)@.text, change.range, change.text@),
            final(self)@.text == spec_apply_change(old(self)@.text, change.range, change.text@),
            final(self)@.uri == old(self)@.uri,
            final(self)@.tokens == old(self)@.tokens,
    {
        let edit = match self.build_edit(change) {
            Some(edit) => edit,
            None => return false,
        };
        if !rope_remove(&mut self.content, edit.start_index, edit.end_index) {
            return false;
        }
        let inserted = rope_insert(&mut self.content, edit.start_index, edit.change_text);
        proof {
            let text = old(self)@.text;
            let rest = text.subrange(0, edit.start_index as int) + text.subrange(
                edit.end_index as int,
                text.len() as int,
            );
            assert(rest.subrange(0, edit.start_index as int) =~= text.subrange(
                0,
                edit.start_index as int,
            ));
            assert(rest.subrange(edit.start_index as int, rest.len() as int) =~= text.subrange(
                edit.end_index as int,
                text.len() as int,
            ));
        }
        inserted
    }

    /// The text of the document.
    pub fn get_text(&self) -> (text: String)
        ensures
            text@ == self@.text,
    {
        rope_to_string(&self.content)
    }

    /// The characters that a change replaces and the text that takes their
    /// place.
    pub fn build_edit<'change>(&self, change: &'change TextDocumentContentChangeEvent) -> (r: Option<
        EditText<'change>,
    >)
        ensures
            match r {
                Some(edit) => spec_build_edit(self@.text, change.range, change.text@) == Some(
                    (edit.start_index, edit.end_index),
                ) && edit.change_text@ == change.text@,
                None => spec_build_edit(self@.text, change.range, change.text@) is None,
            },
    {
        let change_text = change.text.as_str();
        let text_end_byte_index = change_text.len();
        let range = match change.range {
            Some(range) => range,
            None => {
                let start = match self.byte_to_position(0) {
                    Some(start) => start,
                    None => return None,
                };
                let end = match self.byte_to_position(text_end_byte_index) {
                    Some(end) => end,
                    None => return None,
                };
                Range { start, end }
            },
        };
        let start_index = match self.position_to_index(range.start) {
            Some(start_index) => start_index,
            None => return None,
        };
        let end_index = match self.position_to_index(range.end) {
            Some(end_index) => end_index,
            None => return None,
        };
        Some(EditText { start_index, end_index, change_text })
    }

    /// The place of the byte at `byte_index` of the text.
    pub fn byte_to_position(&self, byte_index: usize) -> (position: Option<Position>)
        ensures
            position == spec_byte_to_position(self@.text, byte_index),
    {
        let line_index = match rope_byte_to_line(&self.content, byte_index) {
            Some(line_index) => line_index,
            None => return None,
        };
        let line_utf16_cu_index = {
            let char_index = match rope_line_to_char(&self.content, line_index) {
                Some(char_index) => char_index,
                None => return None,
            };
            match rope_char_to_utf16_cu(&self.content, char_index) {
                Some(utf16_cu_index) => utf16_cu_index,
                None => return None,
            }
        };
        let character_utf16_cu_index = {
            let char_index = match rope_byte_to_char(&self.content, byte_index) {
                Some(char_index) => char_index,
                None => return None,
            };
            match rope_char_to_utf16_cu(&self.content, char_index) {
                Some(utf16_cu_index) => utf16_cu_index,
                None => return None,
            }
        };
        if character_utf16_cu_index < line_utf16_cu_index {
            return None;
        }
        let character = character_utf16_cu_index - line_utf16_cu_index;
        Some(Position::new(truncate_to_u32(line_index), truncate_to_u32(character)))
    }

    /// The index of the character at `position`.
    pub fn position_to_index(&self, position: Position) -> (index: Option<usize>)
        ensures
            index == spec_position_to_index(self@.text, position),
    {
        let row_index = position.line as usize;
        let column_index = position.character as usize;
        let row_char_index = match rope_line_to_char(&self.content, row_index) {
            Some(row_char_index) => row_char_index,
            None => return None,
        };
        let column_char_index = match rope_utf16_cu_to_char(&self.content, column_index) {
            Some(column_char_index) => column_char_index,
            None => return None,
        };
        row_char_index.checked_add(column_char_index)
    }
}

} // verus!
