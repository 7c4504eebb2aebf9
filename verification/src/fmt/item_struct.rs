//! Structs.

use crate::fmt::bracket::{
    close_curly_brace, inside_braces, open_brace_text, open_curly_brace, outside_braces,
};
use crate::fmt::config::spec_struct_lit_width;
use crate::fmt::error::FormatterError;
use crate::fmt::fields::{aligned_name, max_valid_length, widest_below, write_aligned_name};
use crate::fmt::formatter::{Format, FormattedCode, Formatter};
use crate::fmt::item_const::{visibility_text, write_visibility};
use crate::fmt::syntax::{ItemStruct, ItemStructView, TypeFieldView};
use crate::fmt::text::push_chars;
use vstd::prelude::*;
use vstd::string::{StrSliceExecFns, StringExecFns};

verus! {

/// A field: the name, aligned, a colon and the type.
pub open spec fn field_text(field: TypeFieldView, widest: nat) -> Seq<char> {
    aligned_name(field.name, widest) + ": "@ + field.ty
}

/// The first `n` of `fields` on one line, a comma and a space between two.
pub open spec fn fields_on_one_line(fields: Seq<TypeFieldView>, widest: nat, n: nat) -> Seq<char>
    decreases n,
{
    if n == 0 || n > fields.len() {
        Seq::empty()
    } else if n == fields.len() {
        fields_on_one_line(fields, widest, (n - 1) as nat) + field_text(fields[n - 1], widest)
    } else {
        fields_on_one_line(fields, widest, (n - 1) as nat) + field_text(fields[n - 1], widest)
            + ", "@
    }
}

/// The first `n` of `fields`, each on a line of its own behind `indent` and
/// with a comma at its end.
pub open spec fn fields_on_lines(fields: Seq<TypeFieldView>, indent: Seq<char>, widest: nat, n: nat)
    -> Seq<char>
    decreases n,
{
    if n == 0 || n > fields.len() {
        Seq::empty()
    } else {
        fields_on_lines(fields, indent, widest, (n - 1) as nat) + indent + field_text(
            fields[n - 1],
            widest,
        ) + ",\n"@
    }
}

/// The length to which the names of the fields of a struct are aligned.
pub open spec fn struct_widest(item: ItemStructView, formatter: Formatter) -> nat {
    widest_below(item.fields, formatter.config.structures.struct_field_align_threshold as nat)
}

/// A struct on one line: `struct Foo { bar: u64, baz: bool }`.
pub open spec fn struct_single_line(item: ItemStructView, formatter: Formatter) -> Seq<char> {
    visibility_text(item.visibility) + "struct "@ + item.name + " { "@ + fields_on_one_line(
        item.fields,
        struct_widest(item, formatter),
        item.fields.len(),
    ) + " }"@
}

/// A struct with each field on a line of its own, one block further in.
pub open spec fn struct_multiline(item: ItemStructView, formatter: Formatter) -> Seq<char> {
    visibility_text(item.visibility) + "struct "@ + item.name + open_brace_text(formatter.config)
        + "\n"@ + fields_on_lines(
        item.fields,
        inside_braces(formatter).shape.indent.spec_text(formatter.config),
        struct_widest(item, formatter),
        item.fields.len(),
    ) + "}"@
}

/// Whether a struct goes on one line: where the settings allow it and the
/// line is no wider than they allow a struct to be.
pub open spec fn struct_fits_one_line(item: ItemStructView, formatter: Formatter) -> bool {
    formatter.config.structures.struct_lit_single_line && struct_single_line(
        item,
        formatter,
    ).len() <= spec_struct_lit_width(formatter.config)
}

/// A struct: on one line where that fits, else with each field on a line of
/// its own.
pub open spec fn struct_text(item: ItemStructView, formatter: Formatter) -> Seq<char> {
    if struct_fits_one_line(item, formatter) {
        struct_single_line(item, formatter)
    } else {
        struct_multiline(item, formatter)
    }
}

/// The formatter once a struct has been written.
pub open spec fn struct_after(item: ItemStructView, formatter: Formatter) -> Formatter {
    if struct_fits_one_line(item, formatter) {
        formatter
    } else {
        outside_braces(inside_braces(formatter))
    }
}

impl ItemStruct {
    /// Writes the struct on one line.
    fn write_single_line(&self, formatted_code: &mut FormattedCode, formatter: &Formatter)
        ensures
            final(formatted_code)@ == old(formatted_code)@ + struct_single_line(self@, *formatter),
    {
        let threshold = formatter.config.structures.struct_field_align_threshold;
        write_visibility(formatted_code, self.visibility);
        // Add struct token
        formatted_code.append("struct ");
        // Add struct name
        push_chars(formatted_code, &self.name);
        // A single whitespace before and after `{`
        formatted_code.append(" { ");
        let items = &self.fields;
        let max_valid_variant_length = max_valid_length(items, threshold);
        let ghost head = formatted_code@;
        let ghost views = self@.fields;
        let mut i: usize = 0;
        while i < items.len()
            invariant
                i <= items.len(),
                views == self@.fields,
                items == &self.fields,
                formatted_code@ == head + fields_on_one_line(
                    views,
                    max_valid_variant_length as nat,
                    i as nat,
                ),
            decreases items.len() - i,
        {
            let type_field = &items[i];
            write_aligned_name(formatted_code, &type_field.name, max_valid_variant_length);
            // Add `:`, ty & `,`
            formatted_code.append(": ");
            push_chars(formatted_code, &type_field.ty);
            if i != items.len() - 1 {
                formatted_code.append(", ");
            }
            i += 1;
            proof {
                assert(views[i - 1] == type_field@);
                assert(formatted_code@ =~= head + fields_on_one_line(
                    views,
                    max_valid_variant_length as nat,
                    i as nat,
                ));
            }
        }
        formatted_code.append(" }");
        proof {
            assert(formatted_code@ =~= old(formatted_code)@ + struct_single_line(
                self@,
                *formatter,
            ));
        }
    }

    /// Writes the struct with each field on a line of its own.
    fn write_multiline(&self, formatted_code: &mut FormattedCode, formatter: &mut Formatter)
        ensures
            final(formatted_code)@ == old(formatted_code)@ + struct_multiline(
                self@,
                *old(formatter),
            ),
            *final(formatter) == outside_braces(inside_braces(*old(formatter))),
    {
        let threshold = formatter.config.structures.struct_field_align_threshold;
        write_visibility(formatted_code, self.visibility);
        // Add struct token
        formatted_code.append("struct ");
        // Add struct name
        push_chars(formatted_code, &self.name);
        // Handle opening brace
        open_curly_brace(formatted_code, formatter);
        formatted_code.append("\n");
        let items = &self.fields;
        let max_valid_variant_length = max_valid_length(items, threshold);
        let ghost head = formatted_code@;
        let ghost indent = formatter.shape.indent.spec_text(formatter.config);
        let ghost views = self@.fields;
        let mut i: usize = 0;
        while i < items.len()
            invariant
                i <= items.len(),
                *formatter == inside_braces(*old(formatter)),
                indent == formatter.shape.indent.spec_text(formatter.config),
                views == self@.fields,
                items == &self.fields,
                formatted_code@ == head + fields_on_lines(
                    views,
                    indent,
                    max_valid_variant_length as nat,
                    i as nat,
                ),
            decreases items.len() - i,
        {
            let type_field = &items[i];
            formatter.shape.indent.write(formatted_code, &formatter.config);
            write_aligned_name(formatted_code, &type_field.name, max_valid_variant_length);
            // Add `:`, ty & `,`
            formatted_code.append(": ");
            push_chars(formatted_code, &type_field.ty);
            formatted_code.append(",\n");
            i += 1;
            proof {
                assert(views[i - 1] == type_field@);
                assert(formatted_code@ =~= head + fields_on_lines(
                    views,
                    indent,
                    max_valid_variant_length as nat,
                    i as nat,
                ));
            }
        }
        // Handle closing brace
        close_curly_brace(formatted_code, formatter);
        proof {
            assert(formatted_code@ =~= old(formatted_code)@ + struct_multiline(
                self@,
                *old(formatter),
            ));
        }
    }
}

impl Format for ItemStruct {
    open spec fn spec_text(&self, formatter: Formatter) -> Seq<char> {
        struct_text(self@, formatter)
    }

    open spec fn spec_after(&self, formatter: Formatter) -> Formatter {
        struct_after(self@, formatter)
    }

    fn format(&self, formatted_code: &mut FormattedCode, formatter: &mut Formatter) -> (r: Result<
        (),
        FormatterError,
    >) {
        // Get the width limit of a struct to be formatted into single line
        // if struct_lit_single_line is true.
        if formatter.config.structures.struct_lit_single_line {
            let struct_lit_width = formatter.config.struct_lit_width();
            let mut line = String::new();
            self.write_single_line(&mut line, formatter);
            proof {
                assert(line@ =~= struct_single_line(self@, *formatter));
            }
            if line.as_str().unicode_len() <= struct_lit_width {
                formatted_code.append(line.as_str());
                return Ok(());
            }
        }
        self.write_multiline(formatted_code, formatter);
        Ok(())
    }
}

} // verus!
