//! The parsing and dispatch core of a small interactive command interpreter:
//! a lexer with shell quoting rules, a splitter for standard-output
//! redirection, the search-path resolver's decisions, and the builtin table.

pub mod builtins;
pub mod dispatch;
pub mod lexer;
pub mod redirect;
pub mod resolver;
pub mod text;
