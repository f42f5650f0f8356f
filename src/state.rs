//! # State
use vstd::prelude::*;

use crate::machine::{Machine, move_left, move_right, extend_right, add_at, sub_at};

verus! {

/// A tape together with the cursor on it.
pub struct State {
    /// Current position in the tape
    pos: usize,
    /// The cells, leftmost first
    tape: Vec<u8>,
}

impl State {
    /// The cursor is on a cell of the tape.
    pub open spec fn wf(&self) -> bool {
        0 <= self.cursor() < self.tape().len()
    }

    /// Constructor: one zero cell, with the cursor on it.
    pub fn new() -> (r: Self)
        ensures
            r.tape() == seq![0u8],
            r.cursor() == 0,
            r.wf(),
    {
        let mut tape: Vec<u8> = Vec::new();
        tape.push(0);
        State { pos: 0, tape }
    }

    /// Return the current tape.
    pub fn get_tape(&self) -> (r: Vec<u8>)
        ensures
            r@ == self.tape(),
    {
        self.tape.clone()
    }

    /// Return the index of the cell under the cursor.
    pub fn get_pos(&self) -> (r: usize)
        ensures
            r == self.cursor(),
    {
        self.pos
    }
}

impl Machine for State {
    closed spec fn tape(&self) -> Seq<u8> {
        self.tape@
    }

    closed spec fn cursor(&self) -> int {
        self.pos as int
    }

    fn left(&mut self, val: u8) {
        let n = val as usize;
        if n <= self.pos {
            self.pos = self.pos - n;
        } else {
            let need = n - self.pos;
            let mut t: Vec<u8> = Vec::new();
            let mut i: usize = 0;
            while i < need
                invariant
                    i <= need,
                    t@ == Seq::new(i as nat, |k: int| 0u8),
                decreases need - i,
            {
                t.push(0);
                i = i + 1;
            }
            let ghost old_tape = self.tape@;
            t.append(&mut self.tape);
            self.tape = t;
            self.pos = 0;
            assert(self.tape@ =~= Seq::new((n - old(self).pos) as nat, |k: int| 0u8) + old_tape);
        }
    }

    fn right(&mut self, val: u8) {
        let ghost t0 = self.tape@;
        let ghost c0 = self.pos as int;
        let mut i: u8 = 0;
        while i < val
            invariant
                i <= val,
                self.pos == c0 + i,
                self.pos < self.tape@.len(),
                self.tape@ == extend_right(t0, c0 + i + 1),
                c0 < t0.len(),
            decreases val - i,
        {
            let len = self.tape.len();
            self.pos = self.pos + 1;
            if self.pos == len {
                self.tape.push(0);
            }
            i = i + 1;
            assert(self.tape@ =~= extend_right(t0, c0 + i + 1));
        }
    }

    fn increase(&mut self, val: u8) {
        let v = self.tape[self.pos];
        self.tape.set(self.pos, v.wrapping_add(val));
        assert(self.tape@ =~= add_at(old(self).tape@, self.pos as int, val as int));
    }

    fn decrease(&mut self, val: u8) {
        let v = self.tape[self.pos];
        self.tape.set(self.pos, v.wrapping_sub(val));
        assert(self.tape@ =~= sub_at(old(self).tape@, self.pos as int, val as int));
    }

    fn output(&self, out: &mut Vec<u8>) {
        out.push(self.tape[self.pos]);
    }

    fn input(&mut self, val: u8) {
        self.tape.set(self.pos, val);
    }

    fn get_val(&self) -> (r: u8) {
        self.tape[self.pos]
    }
}

impl Default for State {
    fn default() -> (r: Self)
        ensures
            r.tape() == seq![0u8],
            r.cursor() == 0,
            r.wf(),
    {
        State::new()
    }
}

} // verus!
