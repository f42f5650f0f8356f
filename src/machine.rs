//! # Machine
//!
//! The tape model shared by every machine: a finite run of byte cells that
//! grows with zero cells on either side as the cursor walks past its ends.
use vstd::prelude::*;

verus! {

/// `t` padded with zero cells at its end up to length `len`.
pub open spec fn extend_right(t: Seq<u8>, len: int) -> Seq<u8> {
    if len <= t.len() {
        t
    } else {
        t + Seq::new((len - t.len()) as nat, |i: int| 0u8)
    }
}

/// Tape and cursor after moving the cursor `n` cells to the right.
pub open spec fn move_right(t: Seq<u8>, c: int, n: int) -> (Seq<u8>, int) {
    (extend_right(t, c + n + 1), c + n)
}

/// Tape and cursor after moving the cursor `n` cells to the left: past the
/// left end the tape gains zero cells in front and the cursor stays on the
/// first cell.
pub open spec fn move_left(t: Seq<u8>, c: int, n: int) -> (Seq<u8>, int) {
    if n <= c {
        (t, c - n)
    } else {
        (Seq::new((n - c) as nat, |i: int| 0u8) + t, 0)
    }
}

/// The cell at `c` with `n` added to it, modulo 256.
pub open spec fn add_at(t: Seq<u8>, c: int, n: int) -> Seq<u8> {
    t.update(c, ((t[c] + n) % 256) as u8)
}

/// The cell at `c` with `n` taken from it, modulo 256.
pub open spec fn sub_at(t: Seq<u8>, c: int, n: int) -> Seq<u8> {
    t.update(c, ((t[c] - n) % 256) as u8)
}

/// A tape machine: a tape of byte cells with a cursor on one of them.
pub trait Machine {
    /// The cells of the tape, leftmost first.
    spec fn tape(&self) -> Seq<u8>;

    /// The index of the cell under the cursor.
    spec fn cursor(&self) -> int;

    /// Move left
    fn left(&mut self, val: u8)
        requires
            0 <= old(self).cursor() < old(self).tape().len(),
        ensures
            (final(self).tape(), final(self).cursor()) == move_left(
                old(self).tape(),
                old(self).cursor(),
                val as int,
            ),
    ;

    /// Move right
    fn right(&mut self, val: u8)
        requires
            0 <= old(self).cursor() < old(self).tape().len(),
        ensures
            (final(self).tape(), final(self).cursor()) == move_right(
                old(self).tape(),
                old(self).cursor(),
                val as int,
            ),
    ;

    /// Increase
    fn increase(&mut self, val: u8)
        requires
            0 <= old(self).cursor() < old(self).tape().len(),
        ensures
            final(self).tape() == add_at(old(self).tape(), old(self).cursor(), val as int),
            final(self).cursor() == old(self).cursor(),
    ;

    /// Decrease
    fn decrease(&mut self, val: u8)
        requires
            0 <= old(self).cursor() < old(self).tape().len(),
        ensures
            final(self).tape() == sub_at(old(self).tape(), old(self).cursor(), val as int),
            final(self).cursor() == old(self).cursor(),
    ;

    /// Output: appends the value under the cursor to `out`.
    fn output(&self, out: &mut Vec<u8>)
        requires
            0 <= self.cursor() < self.tape().len(),
        ensures
            final(out)@ == old(out)@.push(self.tape()[self.cursor()]),
    ;

    /// Set value
    fn input(&mut self, val: u8)
        requires
            0 <= old(self).cursor() < old(self).tape().len(),
        ensures
            final(self).tape() == old(self).tape().update(old(self).cursor(), val),
            final(self).cursor() == old(self).cursor(),
    ;

    /// Get value
    fn get_val(&self) -> (r: u8)
        requires
            0 <= self.cursor() < self.tape().len(),
        ensures
            r == self.tape()[self.cursor()],
    ;
}

} // verus!
