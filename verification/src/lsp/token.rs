//! The tokens of a document.

use crate::lsp::position::Range;
use vstd::prelude::*;

verus! {

/// What a token names.
#[derive(Clone, Copy, Debug, PartialEq, Eq, Structural)]
pub enum TokenType {
    Library,
    Variable,
    FunctionDeclaration,
    FunctionApplication,
    Reference,
    Enum,
    Trait,
    Struct,
}

/// A name in a document: where it stands and what it names.
#[derive(Clone, Debug, PartialEq, Eq)]
pub struct Token {
    pub range: Range,
    pub token_type: TokenType,
    pub name: String,
    pub line_start: u32,
    pub length: u32,
}

impl Token {
    /// Whether the offset `character` lies in the token: between the offsets
    /// at which its range starts and ends, both included.
    pub open spec fn spec_is_within_character_range(&self, character: u32) -> bool {
        self.range.start.character <= character && character <= self.range.end.character
    }

    /// Whether the token declares its name: it does unless it refers to a
    /// declaration or applies a function.
    pub open spec fn spec_is_initial_declaration(&self) -> bool {
        !(self.token_type is Reference || self.token_type is FunctionApplication)
    }

    /// Tells whether the offset `character` lies in the token.
    pub fn is_within_character_range(&self, character: u32) -> (b: bool)
        ensures
            b == self.spec_is_within_character_range(character),
    {
        let range = self.range;
        character >= range.start.character && character <= range.end.character
    }

    /// The line on which the token starts.
    pub fn get_line_start(&self) -> (line: u32)
        ensures
            line == self.line_start,
    {
        self.line_start
    }

    /// Tells whether the token declares its name.
    pub fn is_initial_declaration(&self) -> (b: bool)
        ensures
            b == self.spec_is_initial_declaration(),
    {
        match self.token_type {
            TokenType::Reference => false,
            TokenType::FunctionApplication => false,
            _ => true,
        }
    }
}

} // verus!
