//! A small ahead-of-time compiler for 64-bit Linux.
//!
//! Data flows one way: characters are tokenized ([`lexer`]), the tokens are
//! parsed into a syntax tree ([`parser`], [`ast`]), the tree is lowered to a
//! linear stack-machine program ([`lower`], [`ir`]), and the program is
//! rendered as a NASM listing ([`ir`]). [`pipeline`] runs the stages in
//! order, [`machine`] says what a program means when it runs, and [`error`]
//! holds what each stage can reject.

pub mod ast;
pub mod error;
pub mod ir;
pub mod lexer;
pub mod lower;
pub mod machine;
pub mod parser;
pub mod pipeline;
pub mod text;
