//! The formatter and what it carries from item to item.

use crate::fmt::config::{default_config, Config, ConfigError};
use crate::fmt::error::FormatterError;
use crate::fmt::grammar::spec_parse_file;
use crate::fmt::item::{formatter_after_items, module_text};
use crate::fmt::newline_style::{apply_newline_style, with_newline_style};
use crate::fmt::parser::parse_file;
use crate::fmt::shape::{default_shape, Shape};
use crate::fmt::syntax::{AnnotatedView, ItemKindView, Module};
use crate::fmt::text::chars_of;
use vstd::prelude::*;

verus! {

/// Formats Sway source text under a set of settings.
#[derive(Clone, Copy, Debug, PartialEq, Eq, Structural)]
pub struct Formatter {
    pub shape: Shape,
    pub config: Config,
}

/// The text that formatting produces.
pub type FormattedCode = String;

/// What can be written as formatted code.
pub trait Format {
    /// The text that stands for `self` under the formatter `formatter`.
    spec fn spec_text(&self, formatter: Formatter) -> Seq<char>;

    /// The formatter once `self` has been written.
    spec fn spec_after(&self, formatter: Formatter) -> Formatter;

    /// Appends the text that stands for `self`.
    fn format(&self, formatted_code: &mut FormattedCode, formatter: &mut Formatter) -> (r: Result<
        (),
        FormatterError,
    >)
        ensures
            r is Ok,
            final(formatted_code)@ == old(formatted_code)@ + self.spec_text(*old(formatter)),
            *final(formatter) == self.spec_after(*old(formatter)),
    ;
}

/// The formatted text of the program that `src` holds: the text of the
/// program as the formatter writes it, with the line endings that the
/// settings ask for. Where `src` holds no program that the formatter knows,
/// the reason.
pub open spec fn spec_format(src: Seq<char>, formatter: Formatter) -> Result<
    Seq<char>,
    FormatterError,
> {
    match spec_parse_file(src) {
        Ok(module) => {
            let raw = module_text(module, formatter);
            Ok(with_newline_style(formatter.config.whitespace.newline_style, raw, raw))
        },
        Err(e) => Err(FormatterError::ParseFileError(e)),
    }
}

/// The formatter once the program that `src` holds has been formatted.
pub open spec fn spec_formatter_after(src: Seq<char>, formatter: Formatter) -> Formatter {
    match spec_parse_file(src) {
        Ok(module) => formatter_after_items(module.items, formatter, module.items.len()),
        Err(_) => formatter,
    }
}

impl Default for Formatter {
    fn default() -> (formatter: Self)
        ensures
            formatter.shape == default_shape(),
            formatter.config == default_config(),
    {
        Formatter { shape: Shape::default(), config: Config::default() }
    }
}

impl Formatter {
    /// The formatter for the outcome of looking up the settings of a
    /// directory: with the settings that were found, with the default
    /// settings where no settings file was found, and none where the lookup
    /// failed in another way.
    pub fn from_dir(loaded: Result<Config, ConfigError>) -> (r: Result<Self, ConfigError>)
        ensures
            match loaded {
                Ok(config) => r == Ok::<Self, ConfigError>(
                    Formatter { shape: default_shape(), config },
                ),
                Err(ConfigError::NotFound) => r == Ok::<Self, ConfigError>(
                    Formatter { shape: default_shape(), config: default_config() },
                ),
                Err(e) => r == Err::<Self, ConfigError>(e),
            },
    {
        let config = match loaded {
            Ok(config) => config,
            Err(ConfigError::NotFound) => Config::default(),
            Err(e) => return Err(e),
        };
        let shape = Shape::default();
        Ok(Formatter { config, shape })
    }

    /// Writes a program and gives its lines the endings that the settings
    /// ask for.
    fn format_module(&mut self, module: &Module) -> (formatted_code: FormattedCode)
        ensures
            formatted_code@ == with_newline_style(
                old(self).config.whitespace.newline_style,
                module_text(module@, *old(self)),
                module_text(module@, *old(self)),
            ),
            *final(self) == formatter_after_items(module@.items, *old(self), module@.items.len()),
    {
        // Formatted code will be pushed here with raw newline style.
        // Which means newlines are not converted into system-specific
        // versions until the newline style is applied.
        let mut raw_formatted_code = String::new();
        // Insert the program type and the parsed & formatted items into the
        // formatted code.
        let _ = module.format(&mut raw_formatted_code, self);
        proof {
            assert(raw_formatted_code@ =~= module_text(module@, *old(self)));
            assert(self.config == old(self).config) by {
                lemma_items_keep_config(module@.items, *old(self), module@.items.len());
            }
        }
        let mut formatted_code = raw_formatted_code.clone();
        apply_newline_style(
            // The user's setting for `NewlineStyle`
            self.config.whitespace.newline_style,
            &mut formatted_code,
            raw_formatted_code.as_str(),
        );
        formatted_code
    }

    /// Formats the program that `src` holds.
    pub fn format(&mut self, src: &str) -> (r: Result<FormattedCode, FormatterError>)
        ensures
            match r {
                Ok(formatted_code) => spec_format(src@, *old(self)) == Ok::<
                    Seq<char>,
                    FormatterError,
                >(formatted_code@),
                Err(e) => spec_format(src@, *old(self)) == Err::<Seq<char>, FormatterError>(e),
            },
            *final(self) == spec_formatter_after(src@, *old(self)),
    {
        let text = chars_of(src);
        match parse_file(&text) {
            Ok(module) => Ok(self.format_module(&module)),
            Err(e) => Err(FormatterError::ParseFileError(e)),
        }
    }
}

/// Writing items changes the shape of a formatter and leaves its settings
/// as they are.
pub proof fn lemma_items_keep_config(
    items: Seq<AnnotatedView<ItemKindView>>,
    formatter: Formatter,
    n: nat,
)
    ensures
        formatter_after_items(items, formatter, n).config == formatter.config,
    decreases n,
{
    if n > 0 && n <= items.len() {
        lemma_items_keep_config(items, formatter, (n - 1) as nat);
    }
}

} // verus!
