//! The source language: its syntax tree, the backtracking cursor and its
//! combinators, and the grammar built on them.

pub mod parse_error;
pub mod ast;
pub mod view;
pub mod lexical;
pub mod input;
pub mod combinators;
pub mod misc;
pub mod types;
pub mod grammar;
pub mod statement;
pub mod top_level;
pub mod parse;
pub mod laws;
