//! Lexical front end of a small interpreted language: a streaming scanner
//! that turns source text into tokens, one request at a time.

pub mod laws;
pub mod lexer;
pub mod token;
