//! Tools for Sway programs: the storage slots that hold the constants of a
//! contract's storage section at deployment, a formatter of source text, and
//! the documents that a language server keeps open.

pub mod bytes;
pub mod fault;
pub mod fmt;
pub mod ir;
pub mod lsp;
pub mod slot_key;
pub mod state;
pub mod storage;
pub mod words;

pub use fault::StorageFault;
pub use fmt::attribute::FormatDecl;
pub use fmt::config::{Config, ConfigError};
pub use fmt::error::FormatterError;
pub use fmt::formatter::{Format, FormattedCode, Formatter};
pub use fmt::shape::Shape;
pub use ir::{
    ir_type_size_in_bytes, Aggregate, AggregateContent, Constant, ConstantValue, Context, Type,
};
pub use lsp::document::{DocumentError, TextDocument};
pub use slot_key::{add_to_b256, get_storage_key};
pub use state::StateIndex;
pub use storage::{serialize_to_storage_initializers, JsonStorageInitializers, StorageInitializer};
pub use words::serialize_to_words;
