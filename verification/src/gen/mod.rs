//! The Lua target: its syntax tree and the renderer that turns it into text.

pub mod lua_ast;
pub mod lua_gen;
pub mod lines;
