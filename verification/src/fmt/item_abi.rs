//! ABIs.

use crate::fmt::attribute::{attribute_line, FormatDecl};
use crate::fmt::bracket::{
    close_curly_brace, inside_braces, open_brace_text, open_curly_brace, outside_braces,
};
use crate::fmt::error::FormatterError;
use crate::fmt::formatter::{Format, FormattedCode, Formatter};
use crate::fmt::syntax::{
    Annotated, AnnotatedView, AttributeDeclView, FnSignature, ItemAbi, ItemAbiView,
};
use crate::fmt::text::push_chars;
use vstd::prelude::*;
use vstd::string::StringExecFns;

verus! {

/// The lines of the first `n` of `attributes`, each behind `indent`.
pub open spec fn indented_attribute_lines(
    attributes: Seq<AttributeDeclView>,
    indent: Seq<char>,
    n: nat,
) -> Seq<char>
    decreases n,
{
    if n == 0 || n > attributes.len() {
        Seq::empty()
    } else {
        indented_attribute_lines(attributes, indent, (n - 1) as nat) + indent + attribute_line(
            attributes[n - 1],
        )
    }
}

/// One signature of an ABI: its attributes, each on a line of its own, then
/// the signature with a semicolon, all behind `indent`.
pub open spec fn abi_item_text(item: AnnotatedView<Seq<char>>, indent: Seq<char>) -> Seq<char> {
    indented_attribute_lines(item.attribute_list, indent, item.attribute_list.len()) + indent
        + item.value + ";\n"@
}

/// The first `n` of the signatures of an ABI, an empty line between two.
pub open spec fn abi_items_text(items: Seq<AnnotatedView<Seq<char>>>, indent: Seq<char>, n: nat)
    -> Seq<char>
    decreases n,
{
    if n == 0 || n > items.len() {
        Seq::empty()
    } else if n == items.len() {
        abi_items_text(items, indent, (n - 1) as nat) + abi_item_text(items[n - 1], indent)
    } else {
        abi_items_text(items, indent, (n - 1) as nat) + abi_item_text(items[n - 1], indent)
            + "\n"@
    }
}

/// An ABI: the header and the opening brace on one line, the signatures one
/// block further in, and the closing brace.
pub open spec fn abi_text(item: ItemAbiView, formatter: Formatter) -> Seq<char> {
    "abi "@ + item.name + open_brace_text(formatter.config) + "\n"@ + abi_items_text(
        item.abi_items,
        inside_braces(formatter).shape.indent.spec_text(formatter.config),
        item.abi_items.len(),
    ) + "}"@
}

/// Writes one signature of an ABI with its attributes.
fn write_abi_item(
    item: &Annotated<FnSignature>,
    formatted_code: &mut FormattedCode,
    formatter: &mut Formatter,
)
    ensures
        final(formatted_code)@ == old(formatted_code)@ + abi_item_text(
            item@,
            old(formatter).shape.indent.spec_text(old(formatter).config),
        ),
        *final(formatter) == *old(formatter),
{
    let attribute_list = &item.attribute_list;
    let ghost indent = formatter.shape.indent.spec_text(formatter.config);
    let ghost views = item@.attribute_list;
    // add indent + format attribute if it exists
    let mut k: usize = 0;
    while k < attribute_list.len()
        invariant
            k <= attribute_list.len(),
            *formatter == *old(formatter),
            indent == formatter.shape.indent.spec_text(formatter.config),
            views == item@.attribute_list,
            attribute_list == &item.attribute_list,
            formatted_code@ == old(formatted_code)@ + indented_attribute_lines(
                views,
                indent,
                k as nat,
            ),
        decreases attribute_list.len() - k,
    {
        formatter.shape.indent.write(formatted_code, &formatter.config);
        let _ = attribute_list[k].format(formatted_code, formatter);
        k += 1;
        proof {
            assert(views[k - 1] == attribute_list@[k - 1]@);
            assert(formatted_code@ =~= old(formatted_code)@ + indented_attribute_lines(
                views,
                indent,
                k as nat,
            ));
        }
    }
    // add indent + format item
    formatter.shape.indent.write(formatted_code, &formatter.config);
    push_chars(formatted_code, &item.value.text);
    formatted_code.append(";\n");
    proof {
        assert(formatted_code@ =~= old(formatted_code)@ + abi_item_text(item@, indent));
    }
}

impl Format for ItemAbi {
    open spec fn spec_text(&self, formatter: Formatter) -> Seq<char> {
        abi_text(self@, formatter)
    }

    open spec fn spec_after(&self, formatter: Formatter) -> Formatter {
        outside_braces(inside_braces(formatter))
    }

    fn format(&self, formatted_code: &mut FormattedCode, formatter: &mut Formatter) -> (r: Result<
        (),
        FormatterError,
    >) {
        // Add abi token
        formatted_code.append("abi ");
        // Add name of the abi
        push_chars(formatted_code, &self.name);
        open_curly_brace(formatted_code, formatter);
        formatted_code.append("\n");
        // Add item fields
        let abi_items = &self.abi_items;
        let ghost head = formatted_code@;
        let ghost indent = formatter.shape.indent.spec_text(formatter.config);
        let ghost views = self@.abi_items;
        let mut i: usize = 0;
        while i < abi_items.len()
            invariant
                i <= abi_items.len(),
                *formatter == inside_braces(*old(formatter)),
                indent == formatter.shape.indent.spec_text(formatter.config),
                views == self@.abi_items,
                abi_items == &self.abi_items,
                formatted_code@ == head + abi_items_text(views, indent, i as nat),
            decreases abi_items.len() - i,
        {
            write_abi_item(&abi_items[i], formatted_code, formatter);
            if i != abi_items.len() - 1 {
                formatted_code.append("\n");
            }
            i += 1;
            proof {
                assert(views[i - 1] == abi_items@[i - 1]@);
                assert(formatted_code@ =~= head + abi_items_text(views, indent, i as nat));
            }
        }
        close_curly_brace(formatted_code, formatter);
        proof {
            assert(formatted_code@ =~= old(formatted_code)@ + self.spec_text(*old(formatter)));
        }
        Ok(())
    }
}

} // verus!
