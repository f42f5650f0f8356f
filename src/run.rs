//! # Run
//!
//! The whole pipeline: lex, parse, then execute on a fresh tape.
use vstd::prelude::*;

use crate::interpreter::{Halt, Interpreter, run_spec, start};
use crate::lexer::{lexer, lex_spec, is_instruction_char, token_of, Token};
use crate::parser::{
    parser, balanced, closes_early, code_of, depth, is_code, lemma_resolved_unique, parse_spec,
    resolved_stream, Instruction, ParseError,
};

verus! {

/// What a completed run leaves behind.
#[derive(Clone, Debug)]
pub struct Outcome {
    /// Why the run stopped
    pub halt: Halt,
    /// The final tape, leftmost cell first
    pub tape: Vec<u8>,
    /// The bytes written by output instructions, in order
    pub output: Vec<u8>,
}

/// Lexes, parses and executes `prog` on a one-cell zero tape, reading
/// `input` and taking at most `max_steps` steps.
///
/// A program whose brackets do not pair is rejected before anything runs.
pub fn run(prog: &str, input: &Vec<u8>, max_steps: u64) -> (r: Result<Outcome, ParseError>)
    ensures
        ({
            let ts = lex_spec(prog@);
            let s = code_of(ts);
            match r {
                Ok(o) => balanced(s) && ({
                    let (h, c) = run_spec(
                        parse_spec(ts),
                        input@,
                        start(seq![0u8], 0, seq![]),
                        max_steps as nat,
                    );
                    &&& o.halt == h
                    &&& o.tape@ == c.tape
                    &&& o.output@ == c.out
                }),
                Err(ParseError::UnmatchedClose) => closes_early(s),
                Err(ParseError::UnmatchedOpen) => !closes_early(s) && depth(s, s.len() as int)
                    != 0,
            }
        }),
{
    let tokens = lexer(prog);
    let instrs = match parser(tokens) {
        Ok(p) => p,
        Err(e) => {
            return Err(e);
        },
    };
    let mut machine = Interpreter::new();
    let mut output: Vec<u8> = Vec::new();
    let halt = machine.execute(&instrs, input, max_steps, &mut output);
    let tape = machine.get_tape();
    Ok(Outcome { halt, tape, output })
}

/// A sequence of tokens none of which is code keeps nothing once comments
/// are dropped.
proof fn lemma_code_of_comments(ts: Seq<(usize, Token)>)
    requires
        forall|i: int| 0 <= i < ts.len() ==> !is_code(#[trigger] ts[i]),
    ensures
        code_of(ts) == Seq::<(usize, Token)>::empty(),
    decreases ts.len(),
{
    reveal(Seq::filter);
    if ts.len() > 0 {
        lemma_code_of_comments(ts.drop_last());
    }
}

/// A program made only of comment characters parses to no instructions and
/// runs to completion at once: no output, and the tape is the single zero
/// cell it started with.
pub proof fn lemma_comments_only(text: Seq<char>, input: Seq<u8>, fuel: nat)
    requires
        forall|i: int| 0 <= i < text.len() ==> !is_instruction_char(#[trigger] text[i]),
    ensures
        code_of(lex_spec(text)) == Seq::<(usize, Token)>::empty(),
        balanced(code_of(lex_spec(text))),
        parse_spec(lex_spec(text)) == Seq::<Instruction>::empty(),
        run_spec(parse_spec(lex_spec(text)), input, start(seq![0u8], 0, seq![]), fuel) == (
            Halt::Finished,
            start(seq![0u8], 0, seq![]),
        ),
{
    let ts = lex_spec(text);
    assert forall|i: int| 0 <= i < ts.len() implies !is_code(#[trigger] ts[i]) by {
        assert(!is_instruction_char(text[i]));
        assert(token_of(text[i]) == Token::Comment);
    }
    lemma_code_of_comments(ts);
    let s = code_of(ts);
    assert(!closes_early(s)) by {
        assert forall|k: int| 0 <= k <= s.len() implies #[trigger] depth(s, k) >= 0 by {}
    }
    assert(resolved_stream(s, Seq::<Instruction>::empty()));
    lemma_resolved_unique(s, parse_spec(ts), Seq::<Instruction>::empty());
}

} // verus!
