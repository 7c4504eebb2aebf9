//! Enums.

use crate::fmt::bracket::{
    close_curly_brace, inside_braces, open_brace_text, open_curly_brace, outside_braces,
};
use crate::fmt::error::FormatterError;
use crate::fmt::fields::{aligned_name, max_valid_length, widest_below, write_aligned_name};
use crate::fmt::formatter::{Format, FormattedCode, Formatter};
use crate::fmt::item_const::{visibility_text, write_visibility};
use crate::fmt::syntax::{ItemEnum, ItemEnumView, TypeFieldView};
use crate::fmt::text::push_chars;
use vstd::prelude::*;
use vstd::string::StringExecFns;

verus! {

/// The line of one variant: the indentation, the name, aligned, ` : `, the
/// type and a comma.
pub open spec fn variant_line(variant: TypeFieldView, indent: Seq<char>, widest: nat) -> Seq<char> {
    indent + aligned_name(variant.name, widest) + " : "@ + variant.ty + ",\n"@
}

/// The lines of the first `n` of `variants`.
pub open spec fn variant_lines(variants: Seq<TypeFieldView>, indent: Seq<char>, widest: nat, n: nat)
    -> Seq<char>
    decreases n,
{
    if n == 0 || n > variants.len() {
        Seq::empty()
    } else {
        variant_lines(variants, indent, widest, (n - 1) as nat) + variant_line(
            variants[n - 1],
            indent,
            widest,
        )
    }
}

/// An enum: the header and the opening brace on one line, each variant on a
/// line of its own, one block further in, and the closing brace.
pub open spec fn enum_text(item: ItemEnumView, formatter: Formatter) -> Seq<char> {
    visibility_text(item.visibility) + "enum "@ + item.name + open_brace_text(formatter.config)
        + "\n"@ + variant_lines(
        item.fields,
        inside_braces(formatter).shape.indent.spec_text(formatter.config),
        widest_below(item.fields, formatter.config.structures.enum_variant_align_threshold as nat),
        item.fields.len(),
    ) + "}"@
}

impl Format for ItemEnum {
    open spec fn spec_text(&self, formatter: Formatter) -> Seq<char> {
        enum_text(self@, formatter)
    }

    open spec fn spec_after(&self, formatter: Formatter) -> Formatter {
        outside_braces(inside_braces(formatter))
    }

    fn format(&self, formatted_code: &mut FormattedCode, formatter: &mut Formatter) -> (r: Result<
        (),
        FormatterError,
    >) {
        let enum_variant_align_threshold = formatter.config.structures.enum_variant_align_threshold;
        write_visibility(formatted_code, self.visibility);
        // Add enum token
        formatted_code.append("enum ");
        // Add name of the enum.
        push_chars(formatted_code, &self.name);
        open_curly_brace(formatted_code, formatter);
        formatted_code.append("\n");
        let type_fields = &self.fields;
        // Find the maximum length that is still smaller than the threshold.
        let max_valid_variant_length = max_valid_length(type_fields, enum_variant_align_threshold);
        let ghost head = formatted_code@;
        let ghost indent = formatter.shape.indent.spec_text(formatter.config);
        let ghost views = self@.fields;
        let mut i: usize = 0;
        while i < type_fields.len()
            invariant
                i <= type_fields.len(),
                *formatter == inside_braces(*old(formatter)),
                indent == formatter.shape.indent.spec_text(formatter.config),
                views == self@.fields,
                type_fields == &self.fields,
                formatted_code@ == head + variant_lines(
                    views,
                    indent,
                    max_valid_variant_length as nat,
                    i as nat,
                ),
            decreases type_fields.len() - i,
        {
            let type_field = &type_fields[i];
            // Indent
            formatter.shape.indent.write(formatted_code, &formatter.config);
            // Add name
            write_aligned_name(formatted_code, &type_field.name, max_valid_variant_length);
            formatted_code.append(" : ");
            push_chars(formatted_code, &type_field.ty);
            formatted_code.append(",\n");
            i += 1;
            proof {
                assert(views[i - 1] == type_field@);
                assert(formatted_code@ =~= head + variant_lines(
                    views,
                    indent,
                    max_valid_variant_length as nat,
                    i as nat,
                ));
            }
        }
        close_curly_brace(formatted_code, formatter);
        proof {
            assert(formatted_code@ =~= old(formatted_code)@ + self.spec_text(*old(formatter)));
        }
        Ok(())
    }
}

} // verus!
