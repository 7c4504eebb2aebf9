//! Formatting of Sway source text.

pub mod attribute;
pub mod bracket;
pub mod config;
pub mod error;
pub mod fields;
pub mod formatter;
pub mod grammar;
pub mod item;
pub mod item_abi;
pub mod item_const;
pub mod item_enum;
pub mod item_struct;
pub mod lexer;
pub mod newline_style;
pub mod parser;
pub mod shape;
pub mod syntax;
pub mod text;
