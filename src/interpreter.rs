//! # Interpreter
//!
//! The execution engine: a fetch-decode-execute loop over a resolved
//! instruction stream, with a budget on the number of steps it may take.
use vstd::prelude::*;

use crate::lexer::Token;
use crate::machine::{Machine, move_left, move_right, add_at, sub_at};
use crate::parser::Instruction;
use crate::state::State;

verus! {

/// Why a run stopped.
#[derive(PartialEq, Eq, Structural, Clone, Copy, Debug)]
pub enum Halt {
    /// The instruction pointer went past the last instruction.
    Finished,
    /// The step budget ran out first.
    StepLimit,
    /// A loop instruction without a partner was reached.
    UnresolvedTarget,
}

/// The whole state of a run, as a value.
pub ghost struct Config {
    /// The cells, leftmost first
    pub tape: Seq<u8>,
    /// Index of the cell under the cursor
    pub cursor: int,
    /// Index of the next instruction
    pub ip: int,
    /// How many input bytes have been read
    pub inp: int,
    /// The bytes written so far
    pub out: Seq<u8>,
}

/// The byte that the input instruction reads: the next one of `input`, or
/// zero once `input` is used up.
pub open spec fn input_at(input: Seq<u8>, k: int) -> u8 {
    if 0 <= k < input.len() {
        input[k]
    } else {
        0
    }
}

/// A loop instruction whose partner is not set.
pub open spec fn unresolved(t: Token) -> bool {
    t == Token::LoopBegin(None) || t == Token::LoopEnd(None)
}

/// The configuration after executing the instruction at `c.ip`.
pub open spec fn step(p: Seq<Instruction>, input: Seq<u8>, c: Config) -> Config {
    let ins = p[c.ip];
    let n = ins.multiplier as int;
    let next = Config { ip: c.ip + 1, ..c };
    match ins.token {
        Token::Increase => Config { tape: add_at(c.tape, c.cursor, n), ..next },
        Token::Decrease => Config { tape: sub_at(c.tape, c.cursor, n), ..next },
        Token::MoveLeft => {
            let (t, k) = move_left(c.tape, c.cursor, n);
            Config { tape: t, cursor: k, ..next }
        },
        Token::MoveRight => {
            let (t, k) = move_right(c.tape, c.cursor, n);
            Config { tape: t, cursor: k, ..next }
        },
        Token::Input => Config {
            tape: c.tape.update(c.cursor, input_at(input, c.inp)),
            inp: if c.inp < input.len() {
                c.inp + 1
            } else {
                c.inp
            },
            ..next
        },
        Token::Output => Config { out: c.out.push(c.tape[c.cursor]), ..next },
        Token::LoopBegin(Some(j)) => if c.tape[c.cursor] == 0 {
            Config { ip: j as int, ..c }
        } else {
            next
        },
        Token::LoopEnd(Some(j)) => if c.tape[c.cursor] != 0 {
            Config { ip: j as int, ..c }
        } else {
            next
        },
        _ => next,
    }
}

/// How a run from `c` ends within `fuel` steps, and in which configuration.
pub open spec fn run_spec(p: Seq<Instruction>, input: Seq<u8>, c: Config, fuel: nat) -> (
    Halt,
    Config,
)
    decreases fuel,
{
    if !(0 <= c.ip < p.len()) {
        (Halt::Finished, c)
    } else if unresolved(p[c.ip].token) {
        (Halt::UnresolvedTarget, c)
    } else if fuel == 0 {
        (Halt::StepLimit, c)
    } else {
        run_spec(p, input, step(p, input, c), (fuel - 1) as nat)
    }
}

/// The configuration in which a run starts.
pub open spec fn start(tape: Seq<u8>, cursor: int, out: Seq<u8>) -> Config {
    Config { tape, cursor, ip: 0, inp: 0, out }
}

/// Holds the state of the interpreter
pub struct Interpreter {
    /// The tape and the cursor
    state: State,
}

impl Interpreter {
    /// The cursor is on a cell of the tape.
    pub open spec fn wf(&self) -> bool {
        0 <= self.cursor() < self.tape().len()
    }

    /// Constructor: one zero cell, with the cursor on it.
    pub fn new() -> (r: Self)
        ensures
            r.tape() == seq![0u8],
            r.cursor() == 0,
            r.wf(),
    {
        Interpreter { state: State::new() }
    }

    /// Return the current tape.
    pub fn get_tape(&self) -> (r: Vec<u8>)
        ensures
            r@ == self.tape(),
    {
        self.state.get_tape()
    }

    /// Return the index of the cell under the cursor.
    pub fn get_pos(&self) -> (r: usize)
        ensures
            r == self.cursor(),
    {
        self.state.get_pos()
    }

    /// Runs `prog` for at most `max_steps` steps, reading `input` and
    /// appending each output byte to `out`.
    pub fn execute(
        &mut self,
        prog: &Vec<Instruction>,
        input: &Vec<u8>,
        max_steps: u64,
        out: &mut Vec<u8>,
    ) -> (h: Halt)
        requires
            old(self).wf(),
        ensures
            final(self).wf(),
            ({
                let (h2, c) = run_spec(
                    prog@,
                    input@,
                    start(old(self).tape(), old(self).cursor(), old(out)@),
                    max_steps as nat,
                );
                &&& h == h2
                &&& final(self).tape() == c.tape
                &&& final(self).cursor() == c.cursor
                &&& final(out)@ == c.out
            }),
    {
        let ghost c0 = start(self.tape(), self.cursor(), out@);
        let mut ip: usize = 0;
        let mut inp: usize = 0;
        let mut fuel: u64 = max_steps;
        loop
            invariant
                self.wf(),
                c0 == start(old(self).tape(), old(self).cursor(), old(out)@),
                inp <= input@.len(),
                run_spec(
                    prog@,
                    input@,
                    Config {
                        tape: self.tape(),
                        cursor: self.cursor(),
                        ip: ip as int,
                        inp: inp as int,
                        out: out@,
                    },
                    fuel as nat,
                ) == run_spec(prog@, input@, c0, max_steps as nat),
            decreases fuel,
        {
            let ghost c = Config {
                tape: self.tape(),
                cursor: self.cursor(),
                ip: ip as int,
                inp: inp as int,
                out: out@,
            };
            if ip >= prog.len() {
                assert(run_spec(prog@, input@, c, fuel as nat) == (Halt::Finished, c));
                return Halt::Finished;
            }
            let ins = prog[ip];
            if let Token::LoopBegin(None) = ins.token {
                assert(run_spec(prog@, input@, c, fuel as nat) == (Halt::UnresolvedTarget, c));
                return Halt::UnresolvedTarget;
            }
            if let Token::LoopEnd(None) = ins.token {
                assert(run_spec(prog@, input@, c, fuel as nat) == (Halt::UnresolvedTarget, c));
                return Halt::UnresolvedTarget;
            }
            if fuel == 0 {
                assert(run_spec(prog@, input@, c, fuel as nat) == (Halt::StepLimit, c));
                return Halt::StepLimit;
            }
            let n = ins.multiplier;
            match ins.token {
                Token::Increase => {
                    self.state.increase(n);
                    ip = ip + 1;
                },
                Token::Decrease => {
                    self.state.decrease(n);
                    ip = ip + 1;
                },
                Token::MoveLeft => {
                    self.state.left(n);
                    ip = ip + 1;
                },
                Token::MoveRight => {
                    self.state.right(n);
                    ip = ip + 1;
                },
                Token::Input => {
                    let v = if inp < input.len() {
                        input[inp]
                    } else {
                        0
                    };
                    self.state.input(v);
                    if inp < input.len() {
                        inp = inp + 1;
                    }
                    ip = ip + 1;
                },
                Token::Output => {
                    self.state.output(out);
                    ip = ip + 1;
                },
                Token::LoopBegin(Some(j)) => {
                    if self.state.get_val() == 0 {
                        ip = j;
                    } else {
                        ip = ip + 1;
                    }
                },
                Token::LoopEnd(Some(j)) => {
                    if self.state.get_val() != 0 {
                        ip = j;
                    } else {
                        ip = ip + 1;
                    }
                },
                _ => {
                    ip = ip + 1;
                },
            }
            proof {
                let c2 = step(prog@, input@, c);
                assert(c2.tape == self.tape());
                assert(c2.cursor == self.cursor());
                assert(c2.ip == ip as int);
                assert(c2.inp == inp as int);
                assert(c2.out == out@);
            }
            fuel = fuel - 1;
        }
    }
}

impl Machine for Interpreter {
    closed spec fn tape(&self) -> Seq<u8> {
        self.state.tape()
    }

    closed spec fn cursor(&self) -> int {
        self.state.cursor()
    }

    fn left(&mut self, val: u8) {
        self.state.left(val);
    }

    fn right(&mut self, val: u8) {
        self.state.right(val);
    }

    fn increase(&mut self, val: u8) {
        self.state.increase(val);
    }

    fn decrease(&mut self, val: u8) {
        self.state.decrease(val);
    }

    fn output(&self, out: &mut Vec<u8>) {
        self.state.output(out);
    }

    fn input(&mut self, val: u8) {
        self.state.input(val);
    }

    fn get_val(&self) -> (r: u8) {
        self.state.get_val()
    }
}

impl Default for Interpreter {
    fn default() -> (r: Self)
        ensures
            r.tape() == seq![0u8],
            r.cursor() == 0,
            r.wf(),
    {
        Interpreter::new()
    }
}

} // verus!
