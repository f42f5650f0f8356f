//! # Lexer
use vstd::prelude::*;

verus! {

/// One classified character of a program.
#[derive(PartialEq, Eq, Structural, Clone, Copy, Debug)]
pub enum Token {
    /// '+'
    Increase,
    /// '-'
    Decrease,
    /// '<'
    MoveLeft,
    /// '>'
    MoveRight,
    /// '[' with the index of its partner, once resolved
    LoopBegin(Option<usize>),
    /// ']' with the index of its partner, once resolved
    LoopEnd(Option<usize>),
    /// ','
    Input,
    /// '.'
    Output,
    /// anything else
    Comment,
}

/// Tokens paired with the character offset they came from.
pub type TokenStream = Vec<(usize, Token)>;

/// The token that a single character classifies to.
pub open spec fn token_of(c: char) -> Token {
    if c == '+' {
        Token::Increase
    } else if c == '-' {
        Token::Decrease
    } else if c == '<' {
        Token::MoveLeft
    } else if c == '>' {
        Token::MoveRight
    } else if c == ',' {
        Token::Input
    } else if c == '.' {
        Token::Output
    } else if c == '[' {
        Token::LoopBegin(None)
    } else if c == ']' {
        Token::LoopEnd(None)
    } else {
        Token::Comment
    }
}

/// The instruction character a token stands for; comments have none.
pub open spec fn char_of(t: Token) -> Option<char> {
    match t {
        Token::Increase => Some('+'),
        Token::Decrease => Some('-'),
        Token::MoveLeft => Some('<'),
        Token::MoveRight => Some('>'),
        Token::Input => Some(','),
        Token::Output => Some('.'),
        Token::LoopBegin(_) => Some('['),
        Token::LoopEnd(_) => Some(']'),
        Token::Comment => None,
    }
}

/// Whether a character is one of the eight instruction characters.
pub open spec fn is_instruction_char(c: char) -> bool {
    c == '+' || c == '-' || c == '<' || c == '>' || c == ',' || c == '.' || c == '[' || c == ']'
}

/// The token stream of a program text: one token per character, in order.
pub open spec fn lex_spec(s: Seq<char>) -> Seq<(usize, Token)> {
    Seq::new(s.len(), |i: int| (i as usize, token_of(s[i])))
}

/// Classifies one character.
pub fn classify(c: char) -> (t: Token)
    ensures
        t == token_of(c),
{
    match c {
        '+' => Token::Increase,
        '-' => Token::Decrease,
        '<' => Token::MoveLeft,
        '>' => Token::MoveRight,
        ',' => Token::Input,
        '.' => Token::Output,
        '[' => Token::LoopBegin(None),
        ']' => Token::LoopEnd(None),
        _ => Token::Comment,
    }
}

/// Turns a program text into a stream of tokens, one per character.
pub fn lexer(prog: &str) -> (r: TokenStream)
    ensures
        r@ == lex_spec(prog@),
{
    let mut r: TokenStream = Vec::new();
    let mut i: usize = 0;
    for c in it: prog.chars()
        invariant
            it.seq() == prog@,
            i == it.index(),
            r@ == lex_spec(prog@.take(i as int)),
    {
        r.push((i, classify(c)));
        proof {
            assert(prog@.take(i + 1) == prog@.take(i as int).push(c));
        }
        i = r.len();
    }
    r
}

/// Lexing keeps one token per character, at its offset, and each token maps
/// back to its character when that is an instruction character.
pub proof fn lemma_lex_round_trip(s: Seq<char>)
    ensures
        lex_spec(s).len() == s.len(),
        forall|i: int|
            0 <= i < s.len() ==> {
                &&& (#[trigger] lex_spec(s)[i]).0 == i as usize
                &&& char_of(lex_spec(s)[i].1) == if is_instruction_char(s[i]) {
                    Some(s[i])
                } else {
                    None::<char>
                }
            },
{
}

} // verus!
