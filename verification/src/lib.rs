//! Front end and evaluator of a small expression language: a scanner that
//! turns source text into tokens, a recursive-descent parser that builds an
//! expression tree, and a tree-walking evaluator.
//!
//! Each stage is stated over a mathematical model and proved against it:
//!
//! - [`lexicon`] states the lexical grammar, [`scanner`] implements it, and
//!   [`lexemes`] says what the tokens keep of the source;
//! - [`grammar`] states the grammar of expressions, [`parser`] implements
//!   it;
//! - [`semantics`] states what expressions evaluate to, [`interpreter`]
//!   implements it.
//!
//! Numbers are doubles, held by their encoding ([`number`]). The library
//! compares and negates them; it does not read numerals or do arithmetic.
//! For those it asks its host, as [`protocol`] describes, and [`numerals`]
//! shows that what it asks the host to read is always a numeral.
//!
//! [`kestrl`] runs the front end in one step.

pub mod expressions;
pub mod grammar;
pub mod interpreter;
pub mod kestrl;
pub mod lexemes;
pub mod lexicon;
pub mod number;
pub mod numerals;
pub mod parser;
pub mod protocol;
pub mod scanner;
pub mod semantics;
pub mod text;
pub mod token_types;
