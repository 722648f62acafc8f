//! Keyword parsing and module resolution for a structured shell language.
//!
//! Source text arrives already split into spans. The keyword parsers in this
//! crate turn a span list into a statement of the syntax tree and record what
//! the statement declares in a [`working_set::WorkingSet`]: a scoped symbol
//! table of declarations, blocks, overlays, variables, aliases and files.
//!
//! Lexing, expression parsing, file access and plugin transport are not part of
//! the crate. A keyword parser that needs one of them stops and hands back a
//! state that says what it waits for; the caller does the work and resumes the
//! parser with the answer.

pub mod alias;
pub mod ast;
pub mod binding;
pub mod bytes;
pub mod decl;
pub mod def;
pub mod dispatch;
pub mod env;
pub mod error;
pub mod export;
pub mod filters;
pub mod import;
pub mod laws;
pub mod model;
pub mod module;
pub mod module_block;
pub mod order;
pub mod overlay;
pub mod register;
pub mod request;
pub mod source;
pub mod span;
pub mod table;
pub mod value;
pub mod working_set;
