//! # Parser
use vstd::prelude::*;

use crate::lexer::{Token, TokenStream};

verus! {

/// Describes a single instruction.
#[derive(Clone, Copy, Debug)]
pub struct Instruction {
    /// Position of the instruction's character within the program text
    pub position: usize,
    /// Kind of instruction; loop instructions carry their partner's index
    pub token: Token,
    /// How often the instruction is applied
    pub multiplier: u8,
}

/// The instruction stream that the interpreter runs.
pub type InstructionStream = Vec<Instruction>;

/// Why a program was rejected.
#[derive(PartialEq, Eq, Structural, Clone, Copy, Debug)]
pub enum ParseError {
    /// A '[' has no matching ']'.
    UnmatchedOpen,
    /// A ']' has no matching '['.
    UnmatchedClose,
}

impl Instruction {
    /// Constructor
    pub fn new(position: usize, token: Token, multiplier: u8) -> (r: Self)
        ensures
            r == (Instruction { position, token, multiplier }),
    {
        Instruction { position, token, multiplier }
    }
}

/// Whether a token is not a comment.
pub open spec fn is_code(p: (usize, Token)) -> bool {
    p.1 != Token::Comment
}

/// The tokens that are instructions, in their order.
pub open spec fn code_of(s: Seq<(usize, Token)>) -> Seq<(usize, Token)> {
    s.filter(|p: (usize, Token)| is_code(p))
}

/// What a token adds to the bracket depth.
pub open spec fn depth_step(t: Token) -> int {
    match t {
        Token::LoopBegin(_) => 1,
        Token::LoopEnd(_) => -1,
        _ => 0,
    }
}

/// Number of '[' minus number of ']' among the first `k` tokens.
pub open spec fn depth(s: Seq<(usize, Token)>, k: int) -> int
    decreases k,
{
    if k <= 0 || k > s.len() {
        0
    } else {
        depth(s, k - 1) + depth_step(s[k - 1].1)
    }
}

/// Some prefix holds more ']' than '['.
pub open spec fn closes_early(s: Seq<(usize, Token)>) -> bool {
    exists|k: int| 0 <= k <= s.len() && #[trigger] depth(s, k) < 0
}

/// The ']' at `j` is the partner of the '[' at `i`: it is the first point
/// after `i` where the depth falls back to its level before `i`.
pub open spec fn matched(s: Seq<(usize, Token)>, i: int, j: int) -> bool {
    &&& 0 <= i < j < s.len()
    &&& s[i].1 is LoopBegin
    &&& s[j].1 is LoopEnd
    &&& depth(s, j + 1) == depth(s, i)
    &&& forall|m: int| i < m <= j ==> #[trigger] depth(s, m) > depth(s, i)
}

/// The resolved form of the token at index `m` of the instruction tokens `s`.
pub open spec fn resolves(s: Seq<(usize, Token)>, m: int, t: Token) -> bool {
    match s[m].1 {
        Token::LoopBegin(_) => match t {
            Token::LoopBegin(Some(j)) => matched(s, m, j as int),
            _ => false,
        },
        Token::LoopEnd(_) => match t {
            Token::LoopEnd(Some(i)) => matched(s, i as int, m),
            _ => false,
        },
        _ => t == s[m].1,
    }
}

/// `r` is the instruction stream of the instruction tokens `s`.
pub open spec fn resolved_stream(s: Seq<(usize, Token)>, r: Seq<Instruction>) -> bool {
    &&& r.len() == s.len()
    &&& forall|m: int|
        0 <= m < s.len() ==> {
            &&& (#[trigger] r[m]).position == s[m].0
            &&& r[m].multiplier == 1
            &&& resolves(s, m, r[m].token)
        }
}

/// Every loop instruction names its partner: a '[' at `i` points to a ']'
/// after it that points back to `i`, and the other way round.
pub open spec fn loops_paired(p: Seq<Instruction>) -> bool {
    forall|i: int|
        0 <= i < p.len() ==> match #[trigger] p[i].token {
            Token::LoopBegin(Some(j)) => i < j < p.len() && p[j as int].token == Token::LoopEnd(
                Some(i as usize),
            ),
            Token::LoopEnd(Some(j)) => j < i && p[j as int].token == Token::LoopBegin(
                Some(i as usize),
            ),
            Token::LoopBegin(None) => false,
            Token::LoopEnd(None) => false,
            _ => true,
        }
}

/// A ']' has at most one partner.
proof fn lemma_matched_unique_open(s: Seq<(usize, Token)>, i1: int, i2: int, j: int)
    requires
        matched(s, i1, j),
        matched(s, i2, j),
    ensures
        i1 == i2,
{
    if i1 < i2 {
        assert(depth(s, i2) > depth(s, i1));
    } else if i2 < i1 {
        assert(depth(s, i1) > depth(s, i2));
    }
}

/// A '[' has at most one partner.
proof fn lemma_matched_unique_close(s: Seq<(usize, Token)>, i: int, j1: int, j2: int)
    requires
        matched(s, i, j1),
        matched(s, i, j2),
    ensures
        j1 == j2,
{
    if j1 < j2 {
        assert(depth(s, j1 + 1) > depth(s, i));
    } else if j2 < j1 {
        assert(depth(s, j2 + 1) > depth(s, i));
    }
}

/// In a parsed program every '[' at `i` points to a ']' at some `j > i`
/// that points back to `i`, and every ']' to an earlier '[' that points back.
pub proof fn lemma_resolved_paired(s: Seq<(usize, Token)>, r: Seq<Instruction>)
    requires
        resolved_stream(s, r),
    ensures
        loops_paired(r),
{
    assert forall|i: int| 0 <= i < r.len() implies match #[trigger] r[i].token {
        Token::LoopBegin(Some(j)) => i < j < r.len() && r[j as int].token == Token::LoopEnd(
            Some(i as usize),
        ),
        Token::LoopEnd(Some(j)) => j < i && r[j as int].token == Token::LoopBegin(
            Some(i as usize),
        ),
        Token::LoopBegin(None) => false,
        Token::LoopEnd(None) => false,
        _ => true,
    } by {
        assert(resolves(s, i, r[i].token));
        match r[i].token {
            Token::LoopBegin(Some(j)) => {
                assert(resolves(s, j as int, r[j as int].token));
                if let Token::LoopEnd(Some(i2)) = r[j as int].token {
                    lemma_matched_unique_open(s, i, i2 as int, j as int);
                }
            },
            Token::LoopEnd(Some(j)) => {
                assert(resolves(s, j as int, r[j as int].token));
                if let Token::LoopBegin(Some(j2)) = r[j as int].token {
                    lemma_matched_unique_close(s, j as int, i, j2 as int);
                }
            },
            _ => {},
        }
    }
}

/// The instruction tokens of a program resolve to one instruction stream only.
pub proof fn lemma_resolved_unique(s: Seq<(usize, Token)>, r1: Seq<Instruction>, r2: Seq<Instruction>)
    requires
        resolved_stream(s, r1),
        resolved_stream(s, r2),
    ensures
        r1 == r2,
{
    assert forall|m: int| 0 <= m < r1.len() implies #[trigger] r1[m] == r2[m] by {
        assert(resolves(s, m, r1[m].token));
        assert(resolves(s, m, r2[m].token));
        match (r1[m].token, r2[m].token) {
            (Token::LoopBegin(Some(j1)), Token::LoopBegin(Some(j2))) => {
                lemma_matched_unique_close(s, m, j1 as int, j2 as int);
            },
            (Token::LoopEnd(Some(i1)), Token::LoopEnd(Some(i2))) => {
                lemma_matched_unique_open(s, i1 as int, i2 as int, m);
            },
            _ => {},
        }
    }
    assert(r1 =~= r2);
}

/// The program's bracket structure is sound: no ']' closes too early and
/// every '[' is closed.
pub open spec fn balanced(s: Seq<(usize, Token)>) -> bool {
    !closes_early(s) && depth(s, s.len() as int) == 0
}

/// The instruction stream that parsing the token stream `ts` yields, when it
/// is balanced.
pub open spec fn parse_spec(ts: Seq<(usize, Token)>) -> Seq<Instruction> {
    choose|r: Seq<Instruction>| resolved_stream(code_of(ts), r)
}

/// Keeps the tokens that are not comments.
fn strip_comments(prog: TokenStream) -> (r: TokenStream)
    ensures
        r@ == code_of(prog@),
{
    let mut r: TokenStream = Vec::new();
    let mut i: usize = 0;
    while i < prog.len()
        invariant
            i <= prog@.len(),
            r@ == code_of(prog@.take(i as int)),
        decreases prog@.len() - i,
    {
        let p = prog[i];
        proof {
            let q = prog@.take(i + 1);
            assert(q.drop_last() == prog@.take(i as int));
            assert(q.last() == p);
            reveal(Seq::filter);
        }
        if p.1 != Token::Comment {
            r.push(p);
        }
        i = i + 1;
    }
    assert(prog@.take(i as int) == prog@);
    r
}

/// Parses a token stream: drops comments and pairs each '[' with its ']'.
///
/// Fails with `UnmatchedClose` exactly when some ']' has no '[' before it to
/// close, and otherwise with `UnmatchedOpen` exactly when some '[' is never
/// closed.
pub fn parser(prog: TokenStream) -> (r: Result<InstructionStream, ParseError>)
    ensures
        ({
            let s = code_of(prog@);
            match r {
                Ok(p) => balanced(s) && resolved_stream(s, p@) && p@ == parse_spec(prog@)
                    && loops_paired(p@),
                Err(ParseError::UnmatchedClose) => closes_early(s),
                Err(ParseError::UnmatchedOpen) => !closes_early(s) && depth(s, s.len() as int)
                    != 0,
            }
        }),
{
    let p = strip_comments(prog);
    let ghost s = p@;
    let mut r: InstructionStream = Vec::new();
    let mut stack: Vec<usize> = Vec::new();
    let mut k: usize = 0;
    while k < p.len()
        invariant
            s == p@,
            s == code_of(prog@),
            k <= s.len(),
            r@.len() == k,
            stack@.len() == depth(s, k as int),
            forall|m: int| 0 <= m <= k ==> #[trigger] depth(s, m) >= 0,
            forall|t: int|
                0 <= t < stack@.len() ==> {
                    &&& #[trigger] stack@[t] < k
                    &&& s[stack@[t] as int].1 is LoopBegin
                    &&& depth(s, stack@[t] as int) == t
                    &&& forall|m: int| stack@[t] < m <= k ==> #[trigger] depth(s, m) >= t + 1
                },
            forall|m: int|
                0 <= m < k ==> {
                    &&& (#[trigger] r@[m]).position == s[m].0
                    &&& r@[m].multiplier == 1
                    &&& (resolves(s, m, r@[m].token) || (r@[m].token == Token::LoopBegin(None)
                        && stack@.contains(m as usize)))
                },
        decreases s.len() - k,
    {
        let (pos, tok) = p[k];
        match tok {
            Token::LoopBegin(_) => {
                let ghost old_stack = stack@;
                r.push(Instruction::new(pos, Token::LoopBegin(None), 1));
                stack.push(k);
                proof {
                    assert(depth(s, k + 1) == depth(s, k as int) + 1);
                    assert(stack@[old_stack.len() as int] == k);
                    assert forall|m: int|
                        0 <= m < k && #[trigger] old_stack.contains(m as usize) implies stack@.contains(
                        m as usize,
                    ) by {
                        let t = choose|t: int|
                            0 <= t < old_stack.len() && old_stack[t] == m as usize;
                        assert(stack@[t] == m as usize);
                    }
                }
            },
            Token::LoopEnd(_) => {
                if stack.len() == 0 {
                    proof {
                        assert(depth(s, k + 1) == -1);
                    }
                    assert(closes_early(s));
                    return Err(ParseError::UnmatchedClose);
                }
                let ghost old_stack = stack@;
                let b = stack.pop().unwrap();
                proof {
                    let t = stack@.len() as int;
                    assert(depth(s, k + 1) == depth(s, k as int) - 1);
                    assert(old_stack[t] == b);
                    assert(matched(s, b as int, k as int));
                }
                let ghost old_r = r@;
                let bpos = p[b].0;
                r.set(b, Instruction::new(bpos, Token::LoopBegin(Some(k)), 1));
                r.push(Instruction::new(pos, Token::LoopEnd(Some(b)), 1));
                proof {
                    let t = stack@.len() as int;
                    assert forall|m: int|
                        0 <= m < k && m != b && #[trigger] old_stack.contains(
                            m as usize,
                        ) implies stack@.contains(m as usize) by {
                        let u = choose|u: int|
                            0 <= u < old_stack.len() && old_stack[u] == m as usize;
                        assert(u != t);
                        assert(stack@[u] == m as usize);
                    }
                    assert forall|m: int| 0 <= m < k && m != b implies #[trigger] r@[m] == old_r[m] by {
                    }
                }
            },
            _ => {
                r.push(Instruction::new(pos, tok, 1));
            },
        }
        k = k + 1;
    }
    if stack.len() != 0 {
        return Err(ParseError::UnmatchedOpen);
    }
    proof {
        lemma_resolved_paired(s, r@);
        lemma_resolved_unique(s, r@, parse_spec(prog@));
    }
    Ok(r)
}

} // verus!
