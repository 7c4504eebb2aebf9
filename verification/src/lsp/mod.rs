//! The text of an open document and the tokens found in it.

pub mod document;
pub mod index;
pub mod position;
pub mod rope;
pub mod token;
