//! The settings of the formatter.

use vstd::prelude::*;

verus! {

/// The width of a line, where no other is set.
pub const DEFAULT_MAX_LINE_WIDTH: usize = 100;

/// The number of spaces that count as one tab, where no other is set.
pub const DEFAULT_TAB_SPACES: usize = 4;

/// The width up to which a struct is kept on one line, for a line of the
/// default width.
pub const DEFAULT_STRUCT_LIT_WIDTH: usize = 18;

/// How lines end in the formatted text.
#[derive(Clone, Copy, Debug, PartialEq, Eq, Structural)]
pub enum NewlineStyle {
    /// As the text itself does: like its first line.
    Auto,
    /// `\r\n`
    Windows,
    /// `\n`
    Unix,
}

/// Where the brace that opens an item stands.
#[derive(Clone, Copy, Debug, PartialEq, Eq, Structural)]
pub enum ItemBraceStyle {
    /// On a line of its own.
    AlwaysNextLine,
    /// On the line of the item's header.
    PreferSameLine,
    /// On the line of the item's header, unless a `where` clause comes first.
    SameLineWhere,
}

/// How the widths that decide over line breaks follow from the line width.
#[derive(Clone, Copy, Debug, PartialEq, Eq, Structural)]
pub enum HeuristicsPreferences {
    /// No width counts: nothing is put on one line for being short.
    Off,
    /// Every width is the line width.
    Max,
    /// Every width grows with the line width.
    Scaled,
}

/// Lines and indentation.
#[derive(Clone, Copy, Debug, PartialEq, Eq, Structural)]
pub struct Whitespace {
    pub max_width: usize,
    pub hard_tabs: bool,
    pub tab_spaces: usize,
    pub newline_style: NewlineStyle,
}

/// Structs and enums.
#[derive(Clone, Copy, Debug, PartialEq, Eq, Structural)]
pub struct Structures {
    /// Names of enum variants shorter than this are padded to the longest
    /// such name.
    pub enum_variant_align_threshold: usize,
    /// Names of struct fields shorter than this are padded to the longest
    /// such name.
    pub struct_field_align_threshold: usize,
    /// Whether a struct that is short enough is put on one line.
    pub struct_lit_single_line: bool,
}

/// Widths that decide over line breaks.
#[derive(Clone, Copy, Debug, PartialEq, Eq, Structural)]
pub struct Heuristics {
    pub heuristics_pref: HeuristicsPreferences,
}

/// Items.
#[derive(Clone, Copy, Debug, PartialEq, Eq, Structural)]
pub struct Items {
    pub item_brace_style: ItemBraceStyle,
}

/// The settings of the formatter.
#[derive(Clone, Copy, Debug, PartialEq, Eq, Structural)]
pub struct Config {
    pub whitespace: Whitespace,
    pub items: Items,
    pub heuristics: Heuristics,
    pub structures: Structures,
}

/// Why no settings could be loaded.
#[derive(Clone, Debug, PartialEq, Eq)]
pub enum ConfigError {
    /// The settings file does not hold what it should.
    Deserialize { err: String },
    /// The settings file could not be read.
    ReadConfig { path: String, err: String },
    /// There is no settings file in the directory or above it.
    NotFound,
}

/// The settings where nothing is set.
pub open spec fn default_config() -> Config {
    Config {
        whitespace: Whitespace {
            max_width: DEFAULT_MAX_LINE_WIDTH,
            hard_tabs: false,
            tab_spaces: DEFAULT_TAB_SPACES,
            newline_style: NewlineStyle::Auto,
        },
        items: Items { item_brace_style: ItemBraceStyle::SameLineWhere },
        heuristics: Heuristics { heuristics_pref: HeuristicsPreferences::Scaled },
        structures: Structures {
            enum_variant_align_threshold: 0,
            struct_field_align_threshold: 0,
            struct_lit_single_line: true,
        },
    }
}

impl Default for Whitespace {
    fn default() -> (whitespace: Self)
        ensures
            whitespace == default_config().whitespace,
    {
        Whitespace {
            max_width: DEFAULT_MAX_LINE_WIDTH,
            hard_tabs: false,
            tab_spaces: DEFAULT_TAB_SPACES,
            newline_style: NewlineStyle::Auto,
        }
    }
}

impl Default for Items {
    fn default() -> (items: Self)
        ensures
            items == default_config().items,
    {
        Items { item_brace_style: ItemBraceStyle::SameLineWhere }
    }
}

impl Default for Heuristics {
    fn default() -> (heuristics: Self)
        ensures
            heuristics == default_config().heuristics,
    {
        Heuristics { heuristics_pref: HeuristicsPreferences::Scaled }
    }
}

impl Default for Structures {
    fn default() -> (structures: Self)
        ensures
            structures == default_config().structures,
    {
        Structures {
            enum_variant_align_threshold: 0,
            struct_field_align_threshold: 0,
            struct_lit_single_line: true,
        }
    }
}

impl Default for Config {
    fn default() -> (config: Self)
        ensures
            config == default_config(),
    {
        Config {
            whitespace: Whitespace::default(),
            items: Items::default(),
            heuristics: Heuristics::default(),
            structures: Structures::default(),
        }
    }
}

/// The width up to which a struct is kept on one line.
///
/// With scaled widths it is the default width for lines of the default width
/// or less; for wider lines it grows with the ratio of the line width to the
/// default line width, the ratio taken to the nearest tenth and the product to
/// the nearest whole.
pub open spec fn spec_struct_lit_width(config: Config) -> usize {
    let max_width = config.whitespace.max_width as nat;
    match config.heuristics.heuristics_pref {
        HeuristicsPreferences::Off => usize::MAX,
        HeuristicsPreferences::Max => config.whitespace.max_width,
        HeuristicsPreferences::Scaled => if max_width > DEFAULT_MAX_LINE_WIDTH {
            let tenths = (max_width + 5) / 10;
            ((DEFAULT_STRUCT_LIT_WIDTH * tenths + 5) / 10) as usize
        } else {
            DEFAULT_STRUCT_LIT_WIDTH
        },
    }
}

impl Config {
    /// The width up to which a struct is kept on one line.
    pub fn struct_lit_width(&self) -> (width: usize)
        ensures
            width == spec_struct_lit_width(*self),
    {
        let max_width = self.whitespace.max_width;
        match self.heuristics.heuristics_pref {
            HeuristicsPreferences::Off => usize::MAX,
            HeuristicsPreferences::Max => max_width,
            HeuristicsPreferences::Scaled => {
                if max_width > DEFAULT_MAX_LINE_WIDTH {
                    let tenths = if max_width % 10 >= 5 {
                        max_width / 10 + 1
                    } else {
                        max_width / 10
                    };
                    // 18 tenths are one whole and 8 tenths
                    tenths + (8 * tenths + 5) / 10
                } else {
                    DEFAULT_STRUCT_LIT_WIDTH
                }
            },
        }
    }
}

} // verus!
