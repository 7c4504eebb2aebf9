//! How far the text that is being written is indented.

use crate::fmt::config::Config;
use crate::fmt::text::{push_repeated, repeated};
use vstd::prelude::*;

verus! {

/// An indentation: whole blocks, then single columns of alignment.
#[derive(Clone, Copy, Debug, PartialEq, Eq, Structural)]
pub struct Indent {
    /// Width of the block indent, in characters. Must be a multiple of
    /// the tab width where hard tabs are used.
    pub block_indent: usize,
    /// Alignment in characters.
    pub alignment: usize,
}

/// The room that the text being written has.
#[derive(Clone, Copy, Debug, PartialEq, Eq, Structural)]
pub struct Shape {
    pub width: usize,
    /// The current indentation of code.
    pub indent: Indent,
    /// Indentation + any already emitted text on the first line of the
    /// current statement.
    pub offset: usize,
}

/// The sum, or the largest `usize` where the sum is larger.
pub open spec fn saturating_sum(a: usize, b: usize) -> usize {
    if a + b <= usize::MAX {
        (a + b) as usize
    } else {
        usize::MAX
    }
}

impl Indent {
    /// The characters of the indentation: with hard tabs one tab for each
    /// whole tab width of the block indent and one space for each column of
    /// alignment, else one space for each column of both.
    pub open spec fn spec_text(&self, config: Config) -> Seq<char> {
        if config.whitespace.hard_tabs {
            let tabs = if config.whitespace.tab_spaces == 0 {
                0
            } else {
                self.block_indent as nat / config.whitespace.tab_spaces as nat
            };
            repeated('\t', tabs) + repeated(' ', self.alignment as nat)
        } else {
            repeated(' ', saturating_sum(self.block_indent, self.alignment) as nat)
        }
    }

    /// Writes the indentation.
    pub fn write(&self, out: &mut String, config: &Config)
        ensures
            final(out)@ == old(out)@ + self.spec_text(*config),
    {
        if config.whitespace.hard_tabs {
            let tabs = if config.whitespace.tab_spaces == 0 {
                0
            } else {
                self.block_indent / config.whitespace.tab_spaces
            };
            push_repeated(out, '\t', tabs);
            push_repeated(out, ' ', self.alignment);
            proof {
                assert(out@ =~= old(out)@ + self.spec_text(*config));
            }
        } else {
            push_repeated(out, ' ', self.block_indent.saturating_add(self.alignment));
        }
    }
}

impl Shape {
    /// The shape one block of `extra_width` columns further in.
    pub open spec fn spec_block_indent(&self, extra_width: usize) -> Shape {
        Shape {
            width: self.width,
            indent: Indent {
                block_indent: saturating_sum(self.indent.block_indent, extra_width),
                alignment: self.indent.alignment,
            },
            offset: self.offset,
        }
    }

    /// The shape one block of `width` columns further out, or the default
    /// shape where the block indent is less than that.
    pub open spec fn spec_block_unindent(&self, width: usize) -> Shape {
        if self.indent.block_indent >= width {
            Shape {
                width: self.width,
                indent: Indent {
                    block_indent: (self.indent.block_indent - width) as usize,
                    alignment: self.indent.alignment,
                },
                offset: self.offset,
            }
        } else {
            default_shape()
        }
    }

    /// Moves one block of `extra_width` columns further in.
    pub fn block_indent(&self, extra_width: usize) -> (shape: Shape)
        ensures
            shape == self.spec_block_indent(extra_width),
    {
        Shape {
            width: self.width,
            indent: Indent {
                block_indent: self.indent.block_indent.saturating_add(extra_width),
                alignment: self.indent.alignment,
            },
            offset: self.offset,
        }
    }

    /// Moves one block of `width` columns further out.
    pub fn block_unindent(&self, width: usize) -> (shape: Shape)
        ensures
            shape == self.spec_block_unindent(width),
    {
        if self.indent.block_indent >= width {
            Shape {
                width: self.width,
                indent: Indent {
                    block_indent: self.indent.block_indent - width,
                    alignment: self.indent.alignment,
                },
                offset: self.offset,
            }
        } else {
            Shape::default()
        }
    }
}

/// The shape at the start of a text: no indentation.
pub open spec fn default_shape() -> Shape {
    Shape { width: 0, indent: Indent { block_indent: 0, alignment: 0 }, offset: 0 }
}

impl Default for Indent {
    fn default() -> (indent: Self)
        ensures
            indent == default_shape().indent,
    {
        Indent { block_indent: 0, alignment: 0 }
    }
}

impl Default for Shape {
    fn default() -> (shape: Self)
        ensures
            shape == default_shape(),
    {
        Shape { width: 0, indent: Indent::default(), offset: 0 }
    }
}

} // verus!
