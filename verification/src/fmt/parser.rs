//! Reading a source text into the parts that the formatter tells apart.

use crate::fmt::error::ParseError;
use crate::fmt::grammar::{
    closer_of, closes_bracket, expect_char, expect_name, opens_bracket, parse_abi, parse_abi_items,
    parse_args, parse_attribute, parse_attributes, parse_const, parse_const_value, parse_fields,
    parse_item, parse_item_kind, parse_items, parse_module_kind, parse_name_and_fields,
    scan_to_stop, spec_parse_file, verbatim,
};
use crate::fmt::lexer::{
    find_token_start, name_start, next_token, token_from, token_is_char, token_is_word, Token,
};
use crate::fmt::syntax::{
    attributes_view, names_view, type_fields_view, Annotated, AnnotatedView, AttributeDecl,
    AttributeDeclView, FnSignature, ItemAbi, ItemConst, ItemEnum, ItemKind, ItemKindView,
    ItemStruct, Module, ModuleKind, Punctuated, TypeField, TypeFieldView,
};
use crate::fmt::text::slice_of;
use vstd::prelude::*;

verus! {

/// Reads the character `c`, which must be the next token.
fn read_char(src: &Vec<char>, pos: usize, c: char) -> (r: Result<usize, ParseError>)
    requires
        pos <= src.len(),
    ensures
        match r {
            Ok(end) => expect_char(src@, pos as int, c) == Ok::<int, ParseError>(end as int)
                && pos < end <= src.len(),
            Err(e) => expect_char(src@, pos as int, c) == Err::<int, ParseError>(e),
        },
{
    match token_from(src, pos) {
        Some(token) => {
            if token_is_char(src, &token, c) {
                Ok(token.end)
            } else {
                Err(ParseError::UnexpectedToken(token.start))
            }
        },
        None => Err(ParseError::UnexpectedEnd),
    }
}

/// Reads a name, which must be the next token.
fn read_name(src: &Vec<char>, pos: usize) -> (r: Result<(Vec<char>, usize), ParseError>)
    requires
        pos <= src.len(),
    ensures
        match r {
            Ok((name, end)) => expect_name(src@, pos as int) == Ok::<(Seq<char>, int), ParseError>(
                (name@, end as int),
            ) && pos < end <= src.len(),
            Err(e) => expect_name(src@, pos as int) == Err::<(Seq<char>, int), ParseError>(e),
        },
{
    match token_from(src, pos) {
        Some(token) => {
            if name_start(src[token.start]) {
                Ok((slice_of(src, token.start, token.end), token.end))
            } else {
                Err(ParseError::UnexpectedToken(token.start))
            }
        },
        None => Err(ParseError::UnexpectedEnd),
    }
}

/// Tells whether `c` opens a bracket.
fn opens(c: char, angles: bool) -> (b: bool)
    ensures
        b == opens_bracket(c, angles),
{
    c == '(' || c == '[' || c == '{' || (angles && c == '<')
}

/// Tells whether `c` closes a bracket.
fn closes(c: char, angles: bool) -> (b: bool)
    ensures
        b == closes_bracket(c, angles),
{
    c == ')' || c == ']' || c == '}' || (angles && c == '>')
}

/// The bracket that closes what `c` opens.
fn closer(c: char) -> (closing: char)
    ensures
        closing == closer_of(c),
{
    if c == '(' {
        ')'
    } else if c == '[' {
        ']'
    } else if c == '{' {
        '}'
    } else {
        '>'
    }
}

/// Reads the text up to the first `stop1` or `stop2` outside all brackets,
/// as it is written.
fn read_verbatim(src: &Vec<char>, pos: usize, angles: bool, stop1: char, stop2: char) -> (r: Result<
    (Vec<char>, usize),
    ParseError,
>)
    requires
        pos <= src.len(),
    ensures
        match r {
            Ok((text, stop)) => verbatim(src@, pos as int, angles, stop1, stop2) == Ok::<
                (Seq<char>, int),
                ParseError,
            >((text@, stop as int)) && pos <= stop < src.len() && (src@[stop as int] == stop1
                || src@[stop as int] == stop2),
            Err(e) => verbatim(src@, pos as int, angles, stop1, stop2) == Err::<
                (Seq<char>, int),
                ParseError,
            >(e),
        },
{
    let first = match token_from(src, pos) {
        Some(token) => token,
        None => return Err(ParseError::UnexpectedEnd),
    };
    let mut at: usize = pos;
    let mut open: Vec<char> = Vec::new();
    let mut last: usize = first.start;
    loop
        invariant
            pos <= at <= src.len(),
            last <= src.len(),
            next_token(src@, pos as int) == Some((first.start as int, first.end as int)),
            scan_to_stop(
                src@,
                pos as int,
                Seq::empty(),
                first.start as int,
                angles,
                stop1,
                stop2,
            ) == scan_to_stop(src@, at as int, open@, last as int, angles, stop1, stop2),
        decreases src.len() - at,
    {
        match token_from(src, at) {
            None => {
                return Err(ParseError::UnexpectedEnd);
            },
            Some(token) => {
                let c = src[token.start];
                let single = token.end == token.start + 1;
                if single && open.len() == 0 && (c == stop1 || c == stop2) {
                    if last <= first.start {
                        return Err(ParseError::UnexpectedToken(token.start));
                    }
                    return Ok((slice_of(src, first.start, last), token.start));
                } else if single && opens(c, angles) {
                    open.push(closer(c));
                } else if single && closes(c, angles) {
                    if open.len() > 0 && open[open.len() - 1] == c {
                        open.pop();
                    } else {
                        return Err(ParseError::UnexpectedToken(token.start));
                    }
                }
                last = token.end;
                at = token.end;
            },
        }
    }
}

/// Reads the arguments of an attribute, behind the opening parenthesis.
fn read_args(src: &Vec<char>, pos: usize) -> (r: Result<(Punctuated, usize), ParseError>)
    requires
        pos <= src.len(),
    ensures
        match r {
            Ok((args, end)) => parse_args(src@, pos as int, Seq::empty()) == Ok::<
                (crate::fmt::syntax::PunctuatedView, int),
                ParseError,
            >((args@, end as int)) && pos < end <= src.len(),
            Err(e) => parse_args(src@, pos as int, Seq::empty()) == Err::<
                (crate::fmt::syntax::PunctuatedView, int),
                ParseError,
            >(e),
        },
{
    let mut pairs: Vec<Vec<char>> = Vec::new();
    let mut at: usize = pos;
    proof {
        assert(names_view(pairs@) =~= Seq::<Seq<char>>::empty());
    }
    loop
        invariant
            pos <= at <= src.len(),
            parse_args(src@, pos as int, Seq::empty()) == parse_args(
                src@,
                at as int,
                names_view(pairs@),
            ),
        decreases src.len() - at,
    {
        let token = match token_from(src, at) {
            Some(token) => token,
            None => return Err(ParseError::UnexpectedEnd),
        };
        if token_is_char(src, &token, ')') {
            return Ok((Punctuated { value_separator_pairs: pairs, final_value_opt: None }, token.end));
        }
        if !name_start(src[token.start]) {
            return Err(ParseError::UnexpectedToken(token.start));
        }
        let value = slice_of(src, token.start, token.end);
        let separator = match token_from(src, token.end) {
            Some(separator) => separator,
            None => return Err(ParseError::UnexpectedEnd),
        };
        if token_is_char(src, &separator, ',') {
            let ghost before = names_view(pairs@);
            pairs.push(value);
            proof {
                assert(names_view(pairs@) =~= before.push(value@));
            }
            at = separator.end;
        } else if token_is_char(src, &separator, ')') {
            return Ok(
                (
                    Punctuated { value_separator_pairs: pairs, final_value_opt: Some(value) },
                    separator.end,
                ),
            );
        } else {
            return Err(ParseError::UnexpectedToken(separator.start));
        }
    }
}

/// Reads the attribute whose `#` is the next token.
fn read_attribute(src: &Vec<char>, pos: usize) -> (r: Result<(AttributeDecl, usize), ParseError>)
    requires
        pos <= src.len(),
    ensures
        match r {
            Ok((attribute, end)) => parse_attribute(src@, pos as int) == Ok::<
                (AttributeDeclView, int),
                ParseError,
            >((attribute@, end as int)) && pos < end <= src.len(),
            Err(e) => parse_attribute(src@, pos as int) == Err::<
                (AttributeDeclView, int),
                ParseError,
            >(e),
        },
{
    let first = match read_char(src, pos, '#') {
        Ok(first) => first,
        Err(e) => return Err(e),
    };
    let second = match read_char(src, first, '[') {
        Ok(second) => second,
        Err(e) => return Err(e),
    };
    let (name, third) = match read_name(src, second) {
        Ok(found) => found,
        Err(e) => return Err(e),
    };
    let token = match token_from(src, third) {
        Some(token) => token,
        None => return Err(ParseError::UnexpectedEnd),
    };
    if token_is_char(src, &token, '(') {
        let (args, fourth) = match read_args(src, token.end) {
            Ok(found) => found,
            Err(e) => return Err(e),
        };
        let fifth = match read_char(src, fourth, ']') {
            Ok(fifth) => fifth,
            Err(e) => return Err(e),
        };
        Ok((AttributeDecl { name, args: Some(args) }, fifth))
    } else if token_is_char(src, &token, ']') {
        Ok((AttributeDecl { name, args: None }, token.end))
    } else {
        Err(ParseError::UnexpectedToken(token.start))
    }
}

/// Reads the attributes from `pos` on.
fn read_attributes(src: &Vec<char>, pos: usize) -> (r: Result<
    (Vec<AttributeDecl>, usize),
    ParseError,
>)
    requires
        pos <= src.len(),
    ensures
        match r {
            Ok((attributes, end)) => parse_attributes(src@, pos as int, Seq::empty()) == Ok::<
                (Seq<AttributeDeclView>, int),
                ParseError,
            >((attributes_view(attributes@), end as int)) && pos <= end <= src.len(),
            Err(e) => parse_attributes(src@, pos as int, Seq::empty()) == Err::<
                (Seq<AttributeDeclView>, int),
                ParseError,
            >(e),
        },
{
    let mut attributes: Vec<AttributeDecl> = Vec::new();
    let mut at: usize = pos;
    proof {
        assert(attributes_view(attributes@) =~= Seq::<AttributeDeclView>::empty());
    }
    loop
        invariant
            pos <= at <= src.len(),
            parse_attributes(src@, pos as int, Seq::empty()) == parse_attributes(
                src@,
                at as int,
                attributes_view(attributes@),
            ),
        decreases src.len() - at,
    {
        let is_attribute = match token_from(src, at) {
            Some(token) => token_is_char(src, &token, '#'),
            None => false,
        };
        if !is_attribute {
            return Ok((attributes, at));
        }
        let (attribute, next) = match read_attribute(src, at) {
            Ok(found) => found,
            Err(e) => return Err(e),
        };
        let ghost before = attributes_view(attributes@);
        let ghost added = attribute@;
        attributes.push(attribute);
        proof {
            assert(attributes_view(attributes@) =~= before.push(added));
        }
        at = next;
    }
}

/// Reads the fields of a struct or the variants of an enum, behind the
/// opening brace.
fn read_fields(src: &Vec<char>, pos: usize) -> (r: Result<(Vec<TypeField>, usize), ParseError>)
    requires
        pos <= src.len(),
    ensures
        match r {
            Ok((fields, end)) => parse_fields(src@, pos as int, Seq::empty()) == Ok::<
                (Seq<TypeFieldView>, int),
                ParseError,
            >((type_fields_view(fields@), end as int)) && pos < end <= src.len(),
            Err(e) => parse_fields(src@, pos as int, Seq::empty()) == Err::<
                (Seq<TypeFieldView>, int),
                ParseError,
            >(e),
        },
{
    let mut fields: Vec<TypeField> = Vec::new();
    let mut at: usize = pos;
    proof {
        assert(type_fields_view(fields@) =~= Seq::<TypeFieldView>::empty());
    }
    loop
        invariant
            pos <= at <= src.len(),
            parse_fields(src@, pos as int, Seq::empty()) == parse_fields(
                src@,
                at as int,
                type_fields_view(fields@),
            ),
        decreases src.len() - at,
    {
        let token = match token_from(src, at) {
            Some(token) => token,
            None => return Err(ParseError::UnexpectedEnd),
        };
        if token_is_char(src, &token, '}') {
            return Ok((fields, token.end));
        }
        if !name_start(src[token.start]) {
            return Err(ParseError::UnexpectedToken(token.start));
        }
        let name = slice_of(src, token.start, token.end);
        let first = match read_char(src, token.end, ':') {
            Ok(first) => first,
            Err(e) => return Err(e),
        };
        let (ty, stop) = match read_verbatim(src, first, true, ',', '}') {
            Ok(found) => found,
            Err(e) => return Err(e),
        };
        let ghost before = type_fields_view(fields@);
        let ghost added = TypeFieldView { name: name@, ty: ty@ };
        fields.push(TypeField { name, ty });
        proof {
            assert(type_fields_view(fields@) =~= before.push(added));
        }
        if src[stop] == ',' {
            at = stop + 1;
        } else {
            return Ok((fields, stop + 1));
        }
    }
}

/// Reads the name and the fields of a struct or an enum, behind its keyword.
fn read_name_and_fields(src: &Vec<char>, pos: usize) -> (r: Result<
    (Vec<char>, Vec<TypeField>, usize),
    ParseError,
>)
    requires
        pos <= src.len(),
    ensures
        match r {
            Ok((name, fields, end)) => parse_name_and_fields(src@, pos as int) == Ok::<
                (Seq<char>, Seq<TypeFieldView>, int),
                ParseError,
            >((name@, type_fields_view(fields@), end as int)) && pos < end <= src.len(),
            Err(e) => parse_name_and_fields(src@, pos as int) == Err::<
                (Seq<char>, Seq<TypeFieldView>, int),
                ParseError,
            >(e),
        },
{
    let (name, first) = match read_name(src, pos) {
        Ok(found) => found,
        Err(e) => return Err(e),
    };
    let second = match read_char(src, first, '{') {
        Ok(second) => second,
        Err(e) => return Err(e),
    };
    let (fields, third) = match read_fields(src, second) {
        Ok(found) => found,
        Err(e) => return Err(e),
    };
    Ok((name, fields, third))
}

/// What a list of signatures stands for.
pub open spec fn signatures_view(items: Seq<Annotated<FnSignature>>) -> Seq<
    AnnotatedView<Seq<char>>,
> {
    items.map_values(|item: Annotated<FnSignature>| item@)
}

/// Reads the signatures of an ABI, behind the opening brace.
fn read_abi_items(src: &Vec<char>, pos: usize) -> (r: Result<
    (Vec<Annotated<FnSignature>>, usize),
    ParseError,
>)
    requires
        pos <= src.len(),
    ensures
        match r {
            Ok((items, end)) => parse_abi_items(src@, pos as int, Seq::empty()) == Ok::<
                (Seq<AnnotatedView<Seq<char>>>, int),
                ParseError,
            >((signatures_view(items@), end as int)) && pos < end <= src.len(),
            Err(e) => parse_abi_items(src@, pos as int, Seq::empty()) == Err::<
                (Seq<AnnotatedView<Seq<char>>>, int),
                ParseError,
            >(e),
        },
{
    let mut items: Vec<Annotated<FnSignature>> = Vec::new();
    let mut at: usize = pos;
    proof {
        assert(signatures_view(items@) =~= Seq::<AnnotatedView<Seq<char>>>::empty());
    }
    loop
        invariant
            pos <= at <= src.len(),
            parse_abi_items(src@, pos as int, Seq::empty()) == parse_abi_items(
                src@,
                at as int,
                signatures_view(items@),
            ),
        decreases src.len() - at,
    {
        let token = match token_from(src, at) {
            Some(token) => token,
            None => return Err(ParseError::UnexpectedEnd),
        };
        if token_is_char(src, &token, '}') {
            return Ok((items, token.end));
        }
        let (attribute_list, first) = match read_attributes(src, at) {
            Ok(found) => found,
            Err(e) => return Err(e),
        };
        let keyword = match token_from(src, first) {
            Some(keyword) => keyword,
            None => return Err(ParseError::UnexpectedEnd),
        };
        if !token_is_word(src, &keyword, "fn") {
            return Err(ParseError::UnexpectedToken(keyword.start));
        }
        let (text, stop) = match read_verbatim(src, first, false, ';', ';') {
            Ok(found) => found,
            Err(e) => return Err(e),
        };
        let ghost before = signatures_view(items@);
        let item = Annotated { attribute_list, value: FnSignature { text } };
        let ghost added = item@;
        items.push(item);
        proof {
            assert(signatures_view(items@) =~= before.push(added));
        }
        at = stop + 1;
    }
}

/// Reads an ABI, behind its keyword.
fn read_abi(src: &Vec<char>, pos: usize) -> (r: Result<(ItemAbi, usize), ParseError>)
    requires
        pos <= src.len(),
    ensures
        match r {
            Ok((item, end)) => parse_abi(src@, pos as int) == Ok::<
                (crate::fmt::syntax::ItemAbiView, int),
                ParseError,
            >((item@, end as int)) && pos < end <= src.len(),
            Err(e) => parse_abi(src@, pos as int) == Err::<
                (crate::fmt::syntax::ItemAbiView, int),
                ParseError,
            >(e),
        },
{
    let (name, first) = match read_name(src, pos) {
        Ok(found) => found,
        Err(e) => return Err(e),
    };
    let second = match read_char(src, first, '{') {
        Ok(second) => second,
        Err(e) => return Err(e),
    };
    let (abi_items, third) = match read_abi_items(src, second) {
        Ok(found) => found,
        Err(e) => return Err(e),
    };
    Ok((ItemAbi { name, abi_items }, third))
}

/// Reads the value of a constant and the semicolon behind it.
fn read_const_value(src: &Vec<char>, pos: usize) -> (r: Result<(Vec<char>, usize), ParseError>)
    requires
        pos <= src.len(),
    ensures
        match r {
            Ok((expr, end)) => parse_const_value(src@, pos as int) == Ok::<
                (Seq<char>, int),
                ParseError,
            >((expr@, end as int)) && pos < end <= src.len(),
            Err(e) => parse_const_value(src@, pos as int) == Err::<(Seq<char>, int), ParseError>(
                e,
            ),
        },
{
    match read_verbatim(src, pos, false, ';', ';') {
        Ok((expr, stop)) => Ok((expr, stop + 1)),
        Err(e) => Err(e),
    }
}

/// Reads a constant, behind its keyword.
fn read_const(src: &Vec<char>, pos: usize, visibility: bool) -> (r: Result<
    (ItemConst, usize),
    ParseError,
>)
    requires
        pos <= src.len(),
    ensures
        match r {
            Ok((item, end)) => parse_const(src@, pos as int, visibility) == Ok::<
                (crate::fmt::syntax::ItemConstView, int),
                ParseError,
            >((item@, end as int)) && pos < end <= src.len(),
            Err(e) => parse_const(src@, pos as int, visibility) == Err::<
                (crate::fmt::syntax::ItemConstView, int),
                ParseError,
            >(e),
        },
{
    let (name, first) = match read_name(src, pos) {
        Ok(found) => found,
        Err(e) => return Err(e),
    };
    let token = match token_from(src, first) {
        Some(token) => token,
        None => return Err(ParseError::UnexpectedEnd),
    };
    if token_is_char(src, &token, ':') {
        let (ty, stop) = match read_verbatim(src, token.end, true, '=', ';') {
            Ok(found) => found,
            Err(e) => return Err(e),
        };
        if src[stop] != '=' {
            return Err(ParseError::UnexpectedToken(stop));
        }
        let (expr, next) = match read_const_value(src, stop + 1) {
            Ok(found) => found,
            Err(e) => return Err(e),
        };
        Ok((ItemConst { visibility, name, ty_opt: Some(ty), expr }, next))
    } else if token_is_char(src, &token, '=') {
        let (expr, next) = match read_const_value(src, token.end) {
            Ok(found) => found,
            Err(e) => return Err(e),
        };
        Ok((ItemConst { visibility, name, ty_opt: None, expr }, next))
    } else {
        Err(ParseError::UnexpectedToken(token.start))
    }
}

/// Reads the item whose keyword is `keyword`.
fn read_item_kind(src: &Vec<char>, keyword: &Token, visibility: bool) -> (r: Result<
    (ItemKind, usize),
    ParseError,
>)
    requires
        keyword.start < keyword.end <= src.len(),
    ensures
        match r {
            Ok((item, end)) => parse_item_kind(
                src@,
                keyword.start as int,
                keyword.end as int,
                visibility,
            ) == Ok::<(ItemKindView, int), ParseError>((item@, end as int)) && keyword.end < end
                <= src.len(),
            Err(e) => parse_item_kind(src@, keyword.start as int, keyword.end as int, visibility)
                == Err::<(ItemKindView, int), ParseError>(e),
        },
{
    if token_is_word(src, keyword, "struct") {
        match read_name_and_fields(src, keyword.end) {
            Ok((name, fields, next)) => Ok(
                (ItemKind::Struct(ItemStruct { visibility, name, fields }), next),
            ),
            Err(e) => Err(e),
        }
    } else if token_is_word(src, keyword, "enum") {
        match read_name_and_fields(src, keyword.end) {
            Ok((name, fields, next)) => Ok(
                (ItemKind::Enum(ItemEnum { visibility, name, fields }), next),
            ),
            Err(e) => Err(e),
        }
    } else if token_is_word(src, keyword, "const") {
        match read_const(src, keyword.end, visibility) {
            Ok((item, next)) => Ok((ItemKind::Const(item), next)),
            Err(e) => Err(e),
        }
    } else if token_is_word(src, keyword, "abi") && !visibility {
        match read_abi(src, keyword.end) {
            Ok((item, next)) => Ok((ItemKind::Abi(item), next)),
            Err(e) => Err(e),
        }
    } else {
        Err(ParseError::UnexpectedToken(keyword.start))
    }
}

/// Reads the item from `pos` on.
fn read_item(src: &Vec<char>, pos: usize) -> (r: Result<(Annotated<ItemKind>, usize), ParseError>)
    requires
        pos <= src.len(),
    ensures
        match r {
            Ok((item, end)) => parse_item(src@, pos as int) == Ok::<
                (AnnotatedView<ItemKindView>, int),
                ParseError,
            >((item@, end as int)) && pos < end <= src.len(),
            Err(e) => parse_item(src@, pos as int) == Err::<
                (AnnotatedView<ItemKindView>, int),
                ParseError,
            >(e),
        },
{
    let (attribute_list, first) = match read_attributes(src, pos) {
        Ok(found) => found,
        Err(e) => return Err(e),
    };
    let token = match token_from(src, first) {
        Some(token) => token,
        None => return Err(ParseError::UnexpectedEnd),
    };
    if token_is_word(src, &token, "pub") {
        let keyword = match token_from(src, token.end) {
            Some(keyword) => keyword,
            None => return Err(ParseError::UnexpectedEnd),
        };
        match read_item_kind(src, &keyword, true) {
            Ok((value, next)) => Ok((Annotated { attribute_list, value }, next)),
            Err(e) => Err(e),
        }
    } else {
        match read_item_kind(src, &token, false) {
            Ok((value, next)) => Ok((Annotated { attribute_list, value }, next)),
            Err(e) => Err(e),
        }
    }
}

/// What a list of items stands for.
pub open spec fn items_view(items: Seq<Annotated<ItemKind>>) -> Seq<AnnotatedView<ItemKindView>> {
    items.map_values(|item: Annotated<ItemKind>| item@)
}

/// Reads the items from `pos` to the end of the text.
fn read_items(src: &Vec<char>, pos: usize) -> (r: Result<Vec<Annotated<ItemKind>>, ParseError>)
    requires
        pos <= src.len(),
    ensures
        match r {
            Ok(items) => parse_items(src@, pos as int, Seq::empty()) == Ok::<
                Seq<AnnotatedView<ItemKindView>>,
                ParseError,
            >(items_view(items@)),
            Err(e) => parse_items(src@, pos as int, Seq::empty()) == Err::<
                Seq<AnnotatedView<ItemKindView>>,
                ParseError,
            >(e),
        },
{
    let mut items: Vec<Annotated<ItemKind>> = Vec::new();
    let mut at: usize = pos;
    proof {
        assert(items_view(items@) =~= Seq::<AnnotatedView<ItemKindView>>::empty());
    }
    loop
        invariant
            pos <= at <= src.len(),
            parse_items(src@, pos as int, Seq::empty()) == parse_items(
                src@,
                at as int,
                items_view(items@),
            ),
        decreases src.len() - at,
    {
        if find_token_start(src, at) >= src.len() {
            return Ok(items);
        }
        let (item, next) = match read_item(src, at) {
            Ok(found) => found,
            Err(e) => return Err(e),
        };
        let ghost before = items_view(items@);
        let ghost added = item@;
        items.push(item);
        proof {
            assert(items_view(items@) =~= before.push(added));
        }
        at = next;
    }
}

/// Reads the kind of program that the text names first.
fn read_module_kind(src: &Vec<char>, pos: usize) -> (r: Result<(ModuleKind, usize), ParseError>)
    requires
        pos <= src.len(),
    ensures
        match r {
            Ok((kind, end)) => parse_module_kind(src@, pos as int) == Ok::<
                (crate::fmt::syntax::ModuleKindView, int),
                ParseError,
            >((kind@, end as int)) && pos < end <= src.len(),
            Err(e) => parse_module_kind(src@, pos as int) == Err::<
                (crate::fmt::syntax::ModuleKindView, int),
                ParseError,
            >(e),
        },
{
    let token = match token_from(src, pos) {
        Some(token) => token,
        None => return Err(ParseError::UnexpectedEnd),
    };
    if token_is_word(src, &token, "contract") {
        Ok((ModuleKind::Contract, token.end))
    } else if token_is_word(src, &token, "script") {
        Ok((ModuleKind::Script, token.end))
    } else if token_is_word(src, &token, "predicate") {
        Ok((ModuleKind::Predicate, token.end))
    } else if token_is_word(src, &token, "library") {
        match read_name(src, token.end) {
            Ok((name, next)) => Ok((ModuleKind::Library { name }, next)),
            Err(e) => Err(e),
        }
    } else {
        Err(ParseError::UnexpectedToken(token.start))
    }
}

/// Reads a program.
pub fn parse_file(src: &Vec<char>) -> (r: Result<Module, ParseError>)
    ensures
        match r {
            Ok(module) => spec_parse_file(src@) == Ok::<crate::fmt::syntax::ModuleView, ParseError>(
                module@,
            ),
            Err(e) => spec_parse_file(src@) == Err::<crate::fmt::syntax::ModuleView, ParseError>(e),
        },
{
    let (kind, first) = match read_module_kind(src, 0) {
        Ok(found) => found,
        Err(e) => return Err(e),
    };
    let second = match read_char(src, first, ';') {
        Ok(second) => second,
        Err(e) => return Err(e),
    };
    let items = match read_items(src, second) {
        Ok(items) => items,
        Err(e) => return Err(e),
    };
    Ok(Module { kind, items })
}

} // verus!
