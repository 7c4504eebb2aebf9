//! The braces around the body of an item.

use crate::fmt::config::{Config, ItemBraceStyle};
use crate::fmt::formatter::Formatter;
use vstd::prelude::*;
use vstd::string::StringExecFns;

verus! {

/// The brace that opens the body of an item, with what stands before it: a
/// line break where braces go on a line of their own, else a space.
pub open spec fn open_brace_text(config: Config) -> Seq<char> {
    match config.items.item_brace_style {
        ItemBraceStyle::AlwaysNextLine => "\n{"@,
        _ => " {"@,
    }
}

/// The formatter inside the braces of an item: one tab width further in.
pub open spec fn inside_braces(formatter: Formatter) -> Formatter {
    Formatter {
        shape: formatter.shape.spec_block_indent(formatter.config.whitespace.tab_spaces),
        config: formatter.config,
    }
}

/// The formatter behind the closing brace of an item: one tab width further
/// out.
pub open spec fn outside_braces(formatter: Formatter) -> Formatter {
    Formatter {
        shape: formatter.shape.spec_block_unindent(formatter.config.whitespace.tab_spaces),
        config: formatter.config,
    }
}

/// Writes the opening brace of an item and indents what follows.
pub fn open_curly_brace(line: &mut String, formatter: &mut Formatter)
    ensures
        final(line)@ == old(line)@ + open_brace_text(old(formatter).config),
        *final(formatter) == inside_braces(*old(formatter)),
{
    let brace_style = formatter.config.items.item_brace_style;
    let extra_width = formatter.config.whitespace.tab_spaces;
    match brace_style {
        ItemBraceStyle::AlwaysNextLine => {
            // Add opening brace to the next line.
            line.append("\n{");
        },
        _ => {
            // Add opening brace to the same line
            line.append(" {");
        },
    }
    formatter.shape = formatter.shape.block_indent(extra_width);
}

/// Writes the closing brace of an item and takes the indentation back.
pub fn close_curly_brace(line: &mut String, formatter: &mut Formatter)
    ensures
        final(line)@ == old(line)@ + "}"@,
        *final(formatter) == outside_braces(*old(formatter)),
{
    line.append("}");
    // If the shape would leave the left margin, go back to the default shape
    formatter.shape = formatter.shape.block_unindent(formatter.config.whitespace.tab_spaces);
}

} // verus!
