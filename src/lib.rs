//! Finds the module dependencies of ECMAScript source: the calls of
//! `require(...)`, or of another configured identifier, in a syntax tree.
pub mod deps;
mod detective;
pub mod find;
pub mod lemmas;
pub mod options;
pub mod rename;
pub mod syntax;

pub use find::{detective, find, find_in_program, may_contain_target};
pub use options::{Found, Options};
