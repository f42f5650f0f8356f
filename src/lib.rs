//! A small interpreter for the eight-instruction tape language.
//!
//! The pipeline has three stages: [`lexer::lexer`] classifies each character,
//! [`parser::parser`] drops comments and pairs loop brackets, and
//! [`interpreter::Interpreter`] runs the resulting instruction stream on a tape
//! that grows in both directions.
pub mod lexer;
pub mod parser;
pub mod machine;
pub mod state;
pub mod interpreter;
pub mod run;
