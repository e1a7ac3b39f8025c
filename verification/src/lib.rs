//! Natspec documentation linting for Solidity sources.
pub mod text;
pub mod comments;
pub mod model;
pub mod violation;
pub mod items;
pub mod rules;
pub mod ruleset;
pub mod lines;
pub mod directives;
pub mod linter;
pub mod source;

pub mod solang;
pub mod parser;
pub mod visitor;
pub mod laws;
