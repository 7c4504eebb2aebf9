use sway_tools::lsp::document::{DocumentError, TextDocument};
use sway_tools::lsp::index::TokenIndex;
use sway_tools::lsp::position::{Diagnostic, Position, Range, TextDocumentContentChangeEvent};
use sway_tools::lsp::token::{Token, TokenType};

fn token(name: &str, token_type: TokenType, line: u32, from: u32, to: u32) -> Token {
    Token {
        range: Range::new(Position::new(line, from), Position::new(line, to)),
        token_type,
        name: name.to_string(),
        line_start: line,
        length: to - from,
    }
}

fn sample_tokens() -> Vec<Token> {
    vec![
        token("main", TokenType::FunctionDeclaration, 2, 3, 7),
        token("x", TokenType::Variable, 3, 8, 9),
        token("foo", TokenType::FunctionApplication, 3, 12, 15),
        token("x", TokenType::Reference, 3, 16, 17),
        token("foo", TokenType::FunctionDeclaration, 7, 3, 6),
        token("x", TokenType::Variable, 8, 8, 9),
        token("wide", TokenType::Reference, 3, 0, 40),
    ]
}

fn document(text: &str) -> TextDocument {
    TextDocument::build_from_path("src/main.sw", Some(text)).unwrap()
}

fn parsed(tokens: Vec<Token>) -> TextDocument {
    let mut doc = document("script;\n");
    assert_eq!(doc.parse(Ok((tokens, vec![]))), Ok(vec![]));
    doc
}

fn change(range: Option<((u32, u32), (u32, u32))>, text: &str) -> TextDocumentContentChangeEvent {
    TextDocumentContentChangeEvent {
        range: range.map(|(s, e)| Range::new(Position::new(s.0, s.1), Position::new(e.0, e.1))),
        range_length: None,
        text: text.to_string(),
    }
}

#[test]
fn token_holds_the_offsets_of_its_range() {
    let t = token("foo", TokenType::Struct, 1, 4, 7);
    assert!(!t.is_within_character_range(3));
    assert!(t.is_within_character_range(4));
    assert!(t.is_within_character_range(6));
    assert!(t.is_within_character_range(7));
    assert!(!t.is_within_character_range(8));
    assert_eq!(t.get_line_start(), 1);
}

#[test]
fn references_and_applications_declare_nothing() {
    for (token_type, declares) in [
        (TokenType::Library, true),
        (TokenType::Variable, true),
        (TokenType::FunctionDeclaration, true),
        (TokenType::FunctionApplication, false),
        (TokenType::Reference, false),
        (TokenType::Enum, true),
        (TokenType::Trait, true),
        (TokenType::Struct, true),
    ] {
        assert_eq!(token("n", token_type, 0, 0, 1).is_initial_declaration(), declares);
    }
}

#[test]
fn document_of_a_file_that_was_read() {
    let doc = TextDocument::build_from_path("a/b.sw", Some("script;\nfn main() {}\n")).unwrap();
    assert_eq!(doc.get_uri(), "a/b.sw");
    assert_eq!(doc.get_text(), "script;\nfn main() {}\n");
    assert!(doc.get_tokens().is_empty());
}

#[test]
fn document_of_a_file_that_was_not_read() {
    assert!(matches!(
        TextDocument::build_from_path("a/b.sw", None),
        Err(DocumentError::DocumentNotFound)
    ));
}

#[test]
fn parse_stores_the_tokens_and_hands_the_diagnostics_on() {
    let mut doc = document("script;\n");
    let note = Diagnostic {
        range: Range::new(Position::new(0, 0), Position::new(0, 6)),
        message: "unused".to_string(),
    };
    assert_eq!(doc.parse(Ok((sample_tokens(), vec![note.clone()]))), Ok(vec![note]));
    assert_eq!(doc.get_tokens(), &sample_tokens());
    assert_eq!(doc.get_text(), "script;\n");
    assert_eq!(doc.get_uri(), "src/main.sw");
}

#[test]
fn parse_replaces_the_tokens_of_before() {
    let mut doc = parsed(sample_tokens());
    let fresh = vec![token("y", TokenType::Variable, 0, 0, 1)];
    assert_eq!(doc.parse(Ok((fresh.clone(), vec![]))), Ok(vec![]));
    assert_eq!(doc.get_tokens(), &fresh);
    assert!(doc.get_declared_token("x").is_none());
    assert!(doc.get_token_at_position(Position::new(3, 8)).is_none());
    assert_eq!(doc.get_declared_token("y"), Some(&fresh[0]));
}

#[test]
fn failed_parse_leaves_no_token() {
    let mut doc = parsed(sample_tokens());
    let error = Diagnostic {
        range: Range::new(Position::new(1, 2), Position::new(1, 3)),
        message: "expected `;`".to_string(),
    };
    assert_eq!(
        doc.parse(Err(vec![error.clone()])),
        Err(DocumentError::FailedToParse(vec![error]))
    );
    assert!(doc.get_tokens().is_empty());
    assert!(doc.get_all_tokens_by_single_name("x").is_none());
    assert!(doc.get_token_at_position(Position::new(3, 8)).is_none());
}

#[test]
fn token_at_a_position() {
    let tokens = sample_tokens();
    let doc = parsed(sample_tokens());
    assert_eq!(doc.get_token_at_position(Position::new(2, 3)), Some(&tokens[0]));
    assert_eq!(doc.get_token_at_position(Position::new(2, 7)), Some(&tokens[0]));
    assert_eq!(doc.get_token_at_position(Position::new(2, 8)), None);
    assert_eq!(doc.get_token_at_position(Position::new(3, 13)), Some(&tokens[2]));
    assert_eq!(doc.get_token_at_position(Position::new(7, 4)), Some(&tokens[4]));
    assert_eq!(doc.get_token_at_position(Position::new(4, 4)), None);
    assert_eq!(doc.get_token_at_position(Position::new(u32::MAX, 0)), None);
}

#[test]
fn first_token_in_stored_order_wins() {
    let tokens = sample_tokens();
    let doc = parsed(sample_tokens());
    assert_eq!(doc.get_token_at_position(Position::new(3, 8)), Some(&tokens[1]));
    assert_eq!(doc.get_token_at_position(Position::new(3, 16)), Some(&tokens[3]));
    assert_eq!(doc.get_token_at_position(Position::new(3, 10)), Some(&tokens[6]));
    assert_eq!(doc.get_token_at_position(Position::new(3, 41)), None);
}

#[test]
fn tokens_of_a_name() {
    let tokens = sample_tokens();
    let doc = parsed(sample_tokens());
    assert_eq!(
        doc.get_all_tokens_by_single_name("x"),
        Some(vec![&tokens[1], &tokens[3], &tokens[5]])
    );
    assert_eq!(doc.get_all_tokens_by_single_name("foo"), Some(vec![&tokens[2], &tokens[4]]));
    assert_eq!(doc.get_all_tokens_by_single_name("main"), Some(vec![&tokens[0]]));
    assert_eq!(doc.get_all_tokens_by_single_name("bar"), None);
    assert_eq!(doc.get_all_tokens_by_single_name(""), None);
}

#[test]
fn declared_token_of_a_name() {
    let tokens = sample_tokens();
    let doc = parsed(sample_tokens());
    assert_eq!(doc.get_declared_token("x"), Some(&tokens[1]));
    assert_eq!(doc.get_declared_token("foo"), Some(&tokens[4]));
    assert_eq!(doc.get_declared_token("wide"), None);
    assert_eq!(doc.get_declared_token("bar"), None);
}

#[test]
fn index_of_no_tokens() {
    let index = TokenIndex::new();
    assert!(index.get_tokens().is_empty());
    assert!(index.get_token_at_position(Position::new(0, 0)).is_none());
    assert!(index.get_declared_token("x").is_none());
    let index = TokenIndex::store_tokens(vec![]);
    assert!(index.get_tokens().is_empty());
    assert!(index.get_all_tokens_by_single_name("x").is_none());
}

#[test]
fn index_of_many_tokens() {
    let mut tokens = vec![];
    for i in 0..200u32 {
        tokens.push(token(&format!("n{}", i % 7), TokenType::Variable, i % 13, i, i + 1));
    }
    let index = TokenIndex::store_tokens(tokens.clone());
    for line in 0..13u32 {
        for character in 0..202u32 {
            let expected = tokens
                .iter()
                .find(|t| t.line_start == line && t.is_within_character_range(character));
            assert_eq!(index.get_token_at_position(Position::new(line, character)), expected);
        }
    }
    for n in 0..8 {
        let name = format!("n{}", n);
        let expected: Vec<&Token> = tokens.iter().filter(|t| t.name == name).collect();
        let found = index.get_all_tokens_by_single_name(&name);
        if expected.is_empty() {
            assert_eq!(found, None);
        } else {
            assert_eq!(found, Some(expected));
        }
    }
}

#[test]
fn place_of_a_byte() {
    let doc = document("hello\nworld\n");
    assert_eq!(doc.byte_to_position(0), Some(Position::new(0, 0)));
    assert_eq!(doc.byte_to_position(5), Some(Position::new(0, 5)));
    assert_eq!(doc.byte_to_position(6), Some(Position::new(1, 0)));
    assert_eq!(doc.byte_to_position(7), Some(Position::new(1, 1)));
    assert_eq!(doc.byte_to_position(12), Some(Position::new(2, 0)));
    assert_eq!(doc.byte_to_position(13), None);
    assert_eq!(doc.byte_to_position(usize::MAX), None);
}

#[test]
fn place_of_a_byte_counts_utf16_code_units() {
    // two bytes, one line feed, four bytes, one byte
    let doc = document("é\n𝄞x");
    assert_eq!(doc.byte_to_position(0), Some(Position::new(0, 0)));
    assert_eq!(doc.byte_to_position(1), Some(Position::new(0, 0)));
    assert_eq!(doc.byte_to_position(2), Some(Position::new(0, 1)));
    assert_eq!(doc.byte_to_position(3), Some(Position::new(1, 0)));
    assert_eq!(doc.byte_to_position(5), Some(Position::new(1, 0)));
    assert_eq!(doc.byte_to_position(7), Some(Position::new(1, 2)));
    assert_eq!(doc.byte_to_position(8), Some(Position::new(1, 3)));
    assert_eq!(doc.byte_to_position(9), None);
}

#[test]
fn place_of_a_byte_after_a_carriage_return() {
    let doc = document("a\r\nb\rc");
    assert_eq!(doc.byte_to_position(2), Some(Position::new(0, 2)));
    assert_eq!(doc.byte_to_position(3), Some(Position::new(1, 0)));
    assert_eq!(doc.byte_to_position(5), Some(Position::new(2, 0)));
}

#[test]
fn index_of_a_place() {
    let doc = document("hello\nworld\n");
    assert_eq!(doc.position_to_index(Position::new(0, 0)), Some(0));
    assert_eq!(doc.position_to_index(Position::new(0, 5)), Some(5));
    assert_eq!(doc.position_to_index(Position::new(1, 0)), Some(6));
    assert_eq!(doc.position_to_index(Position::new(1, 2)), Some(8));
    assert_eq!(doc.position_to_index(Position::new(2, 0)), Some(12));
    assert_eq!(doc.position_to_index(Position::new(3, 0)), Some(12));
    assert_eq!(doc.position_to_index(Position::new(4, 0)), None);
    assert_eq!(doc.position_to_index(Position::new(0, 12)), Some(12));
    assert_eq!(doc.position_to_index(Position::new(0, 13)), None);
    assert_eq!(doc.position_to_index(Position::new(2, 12)), Some(24));
}

#[test]
fn index_of_a_place_counts_the_offset_from_the_start_of_the_text() {
    let doc = document("é\n𝄞x");
    // code units: é, line feed, two for 𝄞, x
    assert_eq!(doc.position_to_index(Position::new(0, 2)), Some(2));
    assert_eq!(doc.position_to_index(Position::new(0, 3)), Some(2));
    assert_eq!(doc.position_to_index(Position::new(0, 4)), Some(3));
    assert_eq!(doc.position_to_index(Position::new(1, 1)), Some(3));
    assert_eq!(doc.position_to_index(Position::new(0, 5)), Some(4));
    assert_eq!(doc.position_to_index(Position::new(0, 6)), None);
}

#[test]
fn edit_of_a_change_with_a_range() {
    let doc = document("hello\nworld\n");
    let event = change(Some(((1, 0), (1, 5))), "there");
    let edit = doc.build_edit(&event).unwrap();
    assert_eq!((edit.start_index, edit.end_index, edit.change_text), (6, 11, "there"));
    let beyond = change(Some(((0, 0), (9, 0))), "x");
    assert!(doc.build_edit(&beyond).is_none());
}

#[test]
fn edit_of_a_change_without_a_range() {
    let doc = document("hello\nworld\n");
    let event = change(None, "abc");
    let edit = doc.build_edit(&event).unwrap();
    assert_eq!((edit.start_index, edit.end_index, edit.change_text), (0, 3, "abc"));
    let over_a_line = change(None, "abcdefgh");
    let edit = doc.build_edit(&over_a_line).unwrap();
    assert_eq!((edit.start_index, edit.end_index), (0, 8));
    let long = change(None, "0123456789abc");
    assert!(doc.build_edit(&long).is_none());
}

#[test]
fn change_replaces_a_range() {
    let mut doc = parsed(sample_tokens());
    assert!(doc.apply_change(&change(Some(((0, 0), (0, 6))), "contract")));
    assert_eq!(doc.get_text(), "contract;\n");
    assert_eq!(doc.get_tokens(), &sample_tokens());
    assert_eq!(doc.get_uri(), "src/main.sw");
}

#[test]
fn change_inserts_and_deletes() {
    let mut doc = document("hello\nworld\n");
    assert!(doc.apply_change(&change(Some(((1, 0), (1, 0))), "big ")));
    assert_eq!(doc.get_text(), "hello\nbig world\n");
    assert!(doc.apply_change(&change(Some(((0, 0), (1, 0))), "")));
    assert_eq!(doc.get_text(), "big world\n");
    assert!(doc.apply_change(&change(Some(((1, 0), (1, 0))), "end")));
    assert_eq!(doc.get_text(), "big world\nend");
    assert!(doc.apply_change(&change(Some(((0, 0), (2, 0))), "")));
    assert_eq!(doc.get_text(), "");
    assert!(doc.apply_change(&change(Some(((0, 0), (0, 0))), "é𝄞")));
    assert_eq!(doc.get_text(), "é𝄞");
}

#[test]
fn change_of_text_beyond_the_basic_plane() {
    let mut doc = document("é\n𝄞x");
    // the offsets 0 and 1 are those of the characters 0 and 1 of the text
    assert!(doc.apply_change(&change(Some(((1, 0), (1, 1))), "y")));
    assert_eq!(doc.get_text(), "é\nyx");
    assert!(doc.apply_change(&change(Some(((1, 1), (1, 1))), "𝄞")));
    assert_eq!(doc.get_text(), "é\ny𝄞x");
    // the offset 5 lies behind both code units of the character 3
    assert!(doc.apply_change(&change(Some(((0, 4), (0, 5))), "")));
    assert_eq!(doc.get_text(), "é\nyx");
}

#[test]
fn change_without_a_range_replaces_as_many_bytes_as_it_brings() {
    let mut doc = document("hello\nworld\n");
    assert!(doc.apply_change(&change(None, "abc")));
    assert_eq!(doc.get_text(), "abclo\nworld\n");
    assert!(doc.apply_change(&change(None, "")));
    assert_eq!(doc.get_text(), "abclo\nworld\n");
}

#[test]
fn change_that_does_not_fit_is_not_applied() {
    let mut doc = document("hello\nworld\n");
    assert!(!doc.apply_change(&change(Some(((0, 0), (5, 0))), "x")));
    assert!(!doc.apply_change(&change(Some(((7, 0), (7, 1))), "x")));
    assert!(!doc.apply_change(&change(Some(((0, 0), (0, 13))), "x")));
    assert!(!doc.apply_change(&change(Some(((1, 0), (0, 0))), "x")));
    assert!(!doc.apply_change(&change(Some(((1, 4), (1, 9))), "x")));
    assert!(!doc.apply_change(&change(None, "more text than the document has")));
    assert_eq!(doc.get_text(), "hello\nworld\n");
}
