//! The programs that the formatter reads.
//!
//! A program is the line that names its kind and a list of items: constants,
//! structs, enums and ABIs, each with the attributes before it. Types,
//! values and function signatures are taken as they are written.

use crate::fmt::error::ParseError;
use crate::fmt::lexer::{is_char_token, is_name_start, next_token, skip_trivia};
use crate::fmt::syntax::{
    AnnotatedView, AttributeDeclView, ItemAbiView, ItemConstView, ItemEnumView, ItemKindView,
    ItemStructView, ModuleKindView, ModuleView, PunctuatedView, TypeFieldView,
};
use vstd::prelude::*;

verus! {

/// Whether `c` opens a bracket; `<` does where `angles` is set.
pub open spec fn opens_bracket(c: char, angles: bool) -> bool {
    c == '(' || c == '[' || c == '{' || (angles && c == '<')
}

/// Whether `c` closes a bracket; `>` does where `angles` is set.
pub open spec fn closes_bracket(c: char, angles: bool) -> bool {
    c == ')' || c == ']' || c == '}' || (angles && c == '>')
}

/// The position behind the character `c`, which must be the next token.
pub open spec fn expect_char(src: Seq<char>, pos: int, c: char) -> Result<int, ParseError> {
    match next_token(src, pos) {
        Some((start, end)) => if is_char_token(src, start, end, c) {
            Ok(end)
        } else {
            Err(ParseError::UnexpectedToken(start as usize))
        },
        None => Err(ParseError::UnexpectedEnd),
    }
}

/// The name that must be the next token, and the position behind it.
pub open spec fn expect_name(src: Seq<char>, pos: int) -> Result<(Seq<char>, int), ParseError> {
    match next_token(src, pos) {
        Some((start, end)) => if is_name_start(src[start]) {
            Ok((src.subrange(start, end), end))
        } else {
            Err(ParseError::UnexpectedToken(start as usize))
        },
        None => Err(ParseError::UnexpectedEnd),
    }
}

/// The bracket that closes what `c` opens.
pub open spec fn closer_of(c: char) -> char {
    if c == '(' {
        ')'
    } else if c == '[' {
        ']'
    } else if c == '{' {
        '}'
    } else {
        '>'
    }
}

/// Goes from token to token from `pos` on, inside the brackets whose closers
/// are `open`, up to the first `stop1` or `stop2` outside all brackets: the
/// end of the last token before it, or `last` where there is none, and the
/// position of the stop. A bracket must close the bracket that was opened
/// last.
pub open spec fn scan_to_stop(
    src: Seq<char>,
    pos: int,
    open: Seq<char>,
    last: int,
    angles: bool,
    stop1: char,
    stop2: char,
) -> Result<(int, int), ParseError>
    decreases src.len() - pos,
{
    match next_token(src, pos) {
        None => Err(ParseError::UnexpectedEnd),
        Some((start, end)) => {
            let c = src[start];
            let single = end == start + 1;
            if !(pos < end <= src.len()) {
                Err(ParseError::UnexpectedEnd)
            } else if single && open.len() == 0 && (c == stop1 || c == stop2) {
                Ok((last, start))
            } else if single && opens_bracket(c, angles) {
                scan_to_stop(src, end, open.push(closer_of(c)), end, angles, stop1, stop2)
            } else if single && closes_bracket(c, angles) {
                if open.len() > 0 && open.last() == c {
                    scan_to_stop(src, end, open.drop_last(), end, angles, stop1, stop2)
                } else {
                    Err(ParseError::UnexpectedToken(start as usize))
                }
            } else {
                scan_to_stop(src, end, open, end, angles, stop1, stop2)
            }
        },
    }
}

/// The text from the next token up to the last token before the first
/// `stop1` or `stop2` outside all brackets, as it is written, and the
/// position of the stop. There must be a token before the stop.
pub open spec fn verbatim(src: Seq<char>, pos: int, angles: bool, stop1: char, stop2: char)
    -> Result<(Seq<char>, int), ParseError> {
    match next_token(src, pos) {
        None => Err(ParseError::UnexpectedEnd),
        Some((start, end)) => match scan_to_stop(
            src,
            pos,
            Seq::empty(),
            start,
            angles,
            stop1,
            stop2,
        ) {
            Ok((last, stop)) => if last <= start {
                Err(ParseError::UnexpectedToken(stop as usize))
            } else {
                Ok((src.subrange(start, last), stop))
            },
            Err(e) => Err(e),
        },
    }
}

/// The arguments of an attribute from `pos`, behind the opening parenthesis
/// and the values in `pairs`, up to the closing parenthesis.
pub open spec fn parse_args(src: Seq<char>, pos: int, pairs: Seq<Seq<char>>) -> Result<
    (PunctuatedView, int),
    ParseError,
>
    decreases src.len() - pos,
{
    match next_token(src, pos) {
        None => Err(ParseError::UnexpectedEnd),
        Some((start, end)) => if is_char_token(src, start, end, ')') {
            Ok((PunctuatedView { value_separator_pairs: pairs, final_value_opt: None }, end))
        } else if is_name_start(src[start]) {
            let value = src.subrange(start, end);
            match next_token(src, end) {
                None => Err(ParseError::UnexpectedEnd),
                Some((s, e)) => if is_char_token(src, s, e, ',') {
                    if pos < e <= src.len() {
                        parse_args(src, e, pairs.push(value))
                    } else {
                        Err(ParseError::UnexpectedEnd)
                    }
                } else if is_char_token(src, s, e, ')') {
                    Ok(
                        (
                            PunctuatedView {
                                value_separator_pairs: pairs,
                                final_value_opt: Some(value),
                            },
                            e,
                        ),
                    )
                } else {
                    Err(ParseError::UnexpectedToken(s as usize))
                },
            }
        } else {
            Err(ParseError::UnexpectedToken(start as usize))
        },
    }
}

/// The attribute whose `#` is the next token: `#[name]` or `#[name(args)]`.
pub open spec fn parse_attribute(src: Seq<char>, pos: int) -> Result<
    (AttributeDeclView, int),
    ParseError,
> {
    match expect_char(src, pos, '#') {
        Err(e) => Err(e),
        Ok(first) => match expect_char(src, first, '[') {
            Err(e) => Err(e),
            Ok(second) => match expect_name(src, second) {
                Err(e) => Err(e),
                Ok((name, third)) => match next_token(src, third) {
                    None => Err(ParseError::UnexpectedEnd),
                    Some((s, e)) => if is_char_token(src, s, e, '(') {
                        match parse_args(src, e, Seq::empty()) {
                            Err(x) => Err(x),
                            Ok((args, fourth)) => match expect_char(src, fourth, ']') {
                                Err(x) => Err(x),
                                Ok(fifth) => Ok((AttributeDeclView { name, args: Some(args) }, fifth)),
                            },
                        }
                    } else if is_char_token(src, s, e, ']') {
                        Ok((AttributeDeclView { name, args: None }, e))
                    } else {
                        Err(ParseError::UnexpectedToken(s as usize))
                    },
                },
            },
        },
    }
}

/// The attributes from `pos` on, behind those in `attributes`, and the
/// position behind the last of them.
pub open spec fn parse_attributes(src: Seq<char>, pos: int, attributes: Seq<AttributeDeclView>)
    -> Result<(Seq<AttributeDeclView>, int), ParseError>
    decreases src.len() - pos,
{
    match next_token(src, pos) {
        Some((start, end)) => if is_char_token(src, start, end, '#') {
            match parse_attribute(src, pos) {
                Err(e) => Err(e),
                Ok((attribute, next)) => if pos < next <= src.len() {
                    parse_attributes(src, next, attributes.push(attribute))
                } else {
                    Err(ParseError::UnexpectedEnd)
                },
            }
        } else {
            Ok((attributes, pos))
        },
        None => Ok((attributes, pos)),
    }
}

/// The fields of a struct or the variants of an enum from `pos`, behind the
/// opening brace and the fields in `fields`, up to the closing brace. Each
/// is a name, a colon and a type; a comma stands between two and may follow
/// the last.
pub open spec fn parse_fields(src: Seq<char>, pos: int, fields: Seq<TypeFieldView>) -> Result<
    (Seq<TypeFieldView>, int),
    ParseError,
>
    decreases src.len() - pos,
{
    match next_token(src, pos) {
        None => Err(ParseError::UnexpectedEnd),
        Some((start, end)) => if is_char_token(src, start, end, '}') {
            Ok((fields, end))
        } else if is_name_start(src[start]) {
            let name = src.subrange(start, end);
            match expect_char(src, end, ':') {
                Err(e) => Err(e),
                Ok(first) => match verbatim(src, first, true, ',', '}') {
                    Err(e) => Err(e),
                    Ok((ty, stop)) => {
                        let field = TypeFieldView { name, ty };
                        if src[stop] == ',' {
                            if pos < stop + 1 <= src.len() {
                                parse_fields(src, stop + 1, fields.push(field))
                            } else {
                                Err(ParseError::UnexpectedEnd)
                            }
                        } else {
                            Ok((fields.push(field), stop + 1))
                        }
                    },
                },
            }
        } else {
            Err(ParseError::UnexpectedToken(start as usize))
        },
    }
}

/// The name and the fields of a struct or an enum from `pos`, behind its
/// keyword.
pub open spec fn parse_name_and_fields(src: Seq<char>, pos: int) -> Result<
    (Seq<char>, Seq<TypeFieldView>, int),
    ParseError,
> {
    match expect_name(src, pos) {
        Err(e) => Err(e),
        Ok((name, first)) => match expect_char(src, first, '{') {
            Err(e) => Err(e),
            Ok(second) => match parse_fields(src, second, Seq::empty()) {
                Err(e) => Err(e),
                Ok((fields, third)) => Ok((name, fields, third)),
            },
        },
    }
}

/// The signatures of an ABI from `pos`, behind the opening brace and the
/// signatures in `items`, up to the closing brace. Each starts with `fn`,
/// may have attributes before it, and ends in a semicolon.
pub open spec fn parse_abi_items(src: Seq<char>, pos: int, items: Seq<AnnotatedView<Seq<char>>>)
    -> Result<(Seq<AnnotatedView<Seq<char>>>, int), ParseError>
    decreases src.len() - pos,
{
    match next_token(src, pos) {
        None => Err(ParseError::UnexpectedEnd),
        Some((start, end)) => if is_char_token(src, start, end, '}') {
            Ok((items, end))
        } else {
            match parse_attributes(src, pos, Seq::empty()) {
                Err(e) => Err(e),
                Ok((attribute_list, first)) => match next_token(src, first) {
                    None => Err(ParseError::UnexpectedEnd),
                    Some((s, e)) => if src.subrange(s, e) != "fn"@ {
                        Err(ParseError::UnexpectedToken(s as usize))
                    } else {
                        match verbatim(src, first, false, ';', ';') {
                            Err(x) => Err(x),
                            Ok((text, stop)) => if pos < stop + 1 <= src.len() {
                                parse_abi_items(
                                    src,
                                    stop + 1,
                                    items.push(AnnotatedView { attribute_list, value: text }),
                                )
                            } else {
                                Err(ParseError::UnexpectedEnd)
                            },
                        }
                    },
                },
            }
        },
    }
}

/// The ABI from `pos`, behind its keyword.
pub open spec fn parse_abi(src: Seq<char>, pos: int) -> Result<(ItemAbiView, int), ParseError> {
    match expect_name(src, pos) {
        Err(e) => Err(e),
        Ok((name, first)) => match expect_char(src, first, '{') {
            Err(e) => Err(e),
            Ok(second) => match parse_abi_items(src, second, Seq::empty()) {
                Err(e) => Err(e),
                Ok((abi_items, third)) => Ok((ItemAbiView { name, abi_items }, third)),
            },
        },
    }
}

/// The value of a constant from `pos`, behind the equals sign, and the
/// position behind the semicolon that ends it.
pub open spec fn parse_const_value(src: Seq<char>, pos: int) -> Result<
    (Seq<char>, int),
    ParseError,
> {
    match verbatim(src, pos, false, ';', ';') {
        Err(e) => Err(e),
        Ok((expr, stop)) => Ok((expr, stop + 1)),
    }
}

/// The constant from `pos`, behind its keyword: a name, a type behind a colon
/// if it has one, an equals sign, a value and a semicolon.
pub open spec fn parse_const(src: Seq<char>, pos: int, visibility: bool) -> Result<
    (ItemConstView, int),
    ParseError,
> {
    match expect_name(src, pos) {
        Err(e) => Err(e),
        Ok((name, first)) => match next_token(src, first) {
            None => Err(ParseError::UnexpectedEnd),
            Some((s, e)) => if is_char_token(src, s, e, ':') {
                match verbatim(src, e, true, '=', ';') {
                    Err(x) => Err(x),
                    Ok((ty, stop)) => if src[stop] != '=' {
                        Err(ParseError::UnexpectedToken(stop as usize))
                    } else {
                        match parse_const_value(src, stop + 1) {
                            Err(x) => Err(x),
                            Ok((expr, next)) => Ok(
                                (ItemConstView { visibility, name, ty_opt: Some(ty), expr }, next),
                            ),
                        }
                    },
                }
            } else if is_char_token(src, s, e, '=') {
                match parse_const_value(src, e) {
                    Err(x) => Err(x),
                    Ok((expr, next)) => Ok(
                        (ItemConstView { visibility, name, ty_opt: None, expr }, next),
                    ),
                }
            } else {
                Err(ParseError::UnexpectedToken(s as usize))
            },
        },
    }
}

/// The item whose keyword starts at `start` and ends at `end`.
pub open spec fn parse_item_kind(src: Seq<char>, start: int, end: int, visibility: bool) -> Result<
    (ItemKindView, int),
    ParseError,
> {
    let keyword = src.subrange(start, end);
    if keyword == "struct"@ {
        match parse_name_and_fields(src, end) {
            Err(e) => Err(e),
            Ok((name, fields, next)) => Ok(
                (ItemKindView::Struct(ItemStructView { visibility, name, fields }), next),
            ),
        }
    } else if keyword == "enum"@ {
        match parse_name_and_fields(src, end) {
            Err(e) => Err(e),
            Ok((name, fields, next)) => Ok(
                (ItemKindView::Enum(ItemEnumView { visibility, name, fields }), next),
            ),
        }
    } else if keyword == "const"@ {
        match parse_const(src, end, visibility) {
            Err(e) => Err(e),
            Ok((item, next)) => Ok((ItemKindView::Const(item), next)),
        }
    } else if keyword == "abi"@ && !visibility {
        match parse_abi(src, end) {
            Err(e) => Err(e),
            Ok((item, next)) => Ok((ItemKindView::Abi(item), next)),
        }
    } else {
        Err(ParseError::UnexpectedToken(start as usize))
    }
}

/// The item from `pos` on: its attributes, `pub` if it is public, and the
/// item itself.
pub open spec fn parse_item(src: Seq<char>, pos: int) -> Result<
    (AnnotatedView<ItemKindView>, int),
    ParseError,
> {
    match parse_attributes(src, pos, Seq::empty()) {
        Err(e) => Err(e),
        Ok((attribute_list, first)) => match next_token(src, first) {
            None => Err(ParseError::UnexpectedEnd),
            Some((s, e)) => if src.subrange(s, e) == "pub"@ {
                match next_token(src, e) {
                    None => Err(ParseError::UnexpectedEnd),
                    Some((ks, ke)) => match parse_item_kind(src, ks, ke, true) {
                        Err(x) => Err(x),
                        Ok((value, next)) => Ok((AnnotatedView { attribute_list, value }, next)),
                    },
                }
            } else {
                match parse_item_kind(src, s, e, false) {
                    Err(x) => Err(x),
                    Ok((value, next)) => Ok((AnnotatedView { attribute_list, value }, next)),
                }
            },
        },
    }
}

/// The items from `pos` to the end of the text, behind those in `items`.
pub open spec fn parse_items(src: Seq<char>, pos: int, items: Seq<AnnotatedView<ItemKindView>>)
    -> Result<Seq<AnnotatedView<ItemKindView>>, ParseError>
    decreases src.len() - pos,
{
    if skip_trivia(src, pos) >= src.len() {
        Ok(items)
    } else {
        match parse_item(src, pos) {
            Err(e) => Err(e),
            Ok((item, next)) => if pos < next <= src.len() {
                parse_items(src, next, items.push(item))
            } else {
                Err(ParseError::UnexpectedEnd)
            },
        }
    }
}

/// The kind of program that the text names first: `contract`, `script`,
/// `predicate`, or `library` and a name.
pub open spec fn parse_module_kind(src: Seq<char>, pos: int) -> Result<
    (ModuleKindView, int),
    ParseError,
> {
    match next_token(src, pos) {
        None => Err(ParseError::UnexpectedEnd),
        Some((start, end)) => {
            let keyword = src.subrange(start, end);
            if keyword == "contract"@ {
                Ok((ModuleKindView::Contract, end))
            } else if keyword == "script"@ {
                Ok((ModuleKindView::Script, end))
            } else if keyword == "predicate"@ {
                Ok((ModuleKindView::Predicate, end))
            } else if keyword == "library"@ {
                match expect_name(src, end) {
                    Err(e) => Err(e),
                    Ok((name, next)) => Ok((ModuleKindView::Library { name }, next)),
                }
            } else {
                Err(ParseError::UnexpectedToken(start as usize))
            }
        },
    }
}

/// The program that a source text holds: the kind of program, a semicolon,
/// and items to the end of the text.
pub open spec fn spec_parse_file(src: Seq<char>) -> Result<ModuleView, ParseError> {
    match parse_module_kind(src, 0) {
        Err(e) => Err(e),
        Ok((kind, first)) => match expect_char(src, first, ';') {
            Err(e) => Err(e),
            Ok(second) => match parse_items(src, second, Seq::empty()) {
                Err(e) => Err(e),
                Ok(items) => Ok(ModuleView { kind, items }),
            },
        },
    }
}

} // verus!
