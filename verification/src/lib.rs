//! Front end and Lua back end of a small source-to-source compiler.
//!
//! [`parsing`] turns program text into a syntax tree with a backtracking
//! recursive-descent parser; [`gen`] renders a Lua-shaped syntax tree as
//! Lua source text. The executable functions are verified against
//! mathematical descriptions of their results; the one exception is
//! `text::push_char`, a wrapper of `String::push` whose contract is
//! believed.

pub mod text;
pub mod gen;
pub mod parsing;
pub mod util;
