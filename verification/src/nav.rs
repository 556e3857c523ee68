//! The navigation cursor over the catalog and its commands.

use vstd::prelude::*;

verus! {

/// The single mutable piece of state of a session: the index of the
/// letter currently shown. The invariant `0 <= cursor < len` holds at
/// all times; `len` is the fixed length of the catalog the cursor
/// points into.
pub struct NavigationState {
    /// Index of the letter currently shown.
    pub cursor: usize,
    /// Length of the catalog navigated over; fixed for the session.
    pub len: usize,
}

/// A navigation command issued by the shell's Next or Previous control.
pub enum NavCommand {
    /// Move one letter forward, saturating at the end.
    Advance,
    /// Move one letter back, saturating at the start.
    Retreat,
}

/// One step of the navigation model: where the cursor lands when `c` is
/// issued at `cursor` in a catalog of length `len`. Both commands clamp
/// at the boundary rather than wrap.
pub open spec fn nav_step(cursor: int, len: int, c: NavCommand) -> int {
    match c {
        NavCommand::Advance => if cursor < len - 1 {
            cursor + 1
        } else {
            cursor
        },
        NavCommand::Retreat => if cursor > 0 {
            cursor - 1
        } else {
            cursor
        },
    }
}

/// Where the cursor lands after a whole sequence of commands.
pub open spec fn nav_run(cursor: int, len: int, cs: Seq<NavCommand>) -> int
    decreases cs.len(),
{
    if cs.len() == 0 {
        cursor
    } else {
        nav_run(nav_step(cursor, len, cs[0]), len, cs.drop_first())
    }
}

/// For every catalog length `len >= 1`, every in-range starting cursor
/// and every sequence of Advance/Retreat commands, the cursor stays in
/// `[0, len)`. Every intermediate state is the result of a prefix, so
/// this bounds the cursor at every step.
pub proof fn lemma_nav_run_in_range(cursor: int, len: int, cs: Seq<NavCommand>)
    requires
        1 <= len,
        0 <= cursor < len,
    ensures
        0 <= nav_run(cursor, len, cs) < len,
    decreases cs.len(),
{
    if cs.len() > 0 {
        lemma_nav_run_in_range(nav_step(cursor, len, cs[0]), len, cs.drop_first());
    }
}

impl NavigationState {
    /// The state invariant: a non-empty catalog and an in-range cursor.
    pub open spec fn wf(self) -> bool {
        &&& 1 <= self.len
        &&& self.cursor < self.len
    }

    /// A fresh session over a catalog of length `len`, showing the
    /// first letter.
    pub fn new(len: usize) -> (s: Self)
        requires
            1 <= len,
        ensures
            s.wf(),
            s.cursor == 0,
            s.len == len,
    {
        NavigationState { cursor: 0, len }
    }

    /// Moves to the next letter; at the last letter this is a no-op
    /// (the cursor saturates, it does not wrap). Returns the resulting
    /// index.
    pub fn advance(&mut self) -> (r: usize)
        requires
            old(self).wf(),
        ensures
            final(self).wf(),
            final(self).len == old(self).len,
            final(self).cursor == nav_step(
                old(self).cursor as int,
                old(self).len as int,
                NavCommand::Advance,
            ),
            old(self).cursor == old(self).len - 1 ==> *final(self) == *old(self),
            r == final(self).cursor,
    {
        if self.cursor < self.len - 1 {
            self.cursor = self.cursor + 1;
        }
        self.cursor
    }

    /// Moves to the previous letter; at the first letter this is a
    /// no-op. Returns the resulting index.
    pub fn retreat(&mut self) -> (r: usize)
        requires
            old(self).wf(),
        ensures
            final(self).wf(),
            final(self).len == old(self).len,
            final(self).cursor == nav_step(
                old(self).cursor as int,
                old(self).len as int,
                NavCommand::Retreat,
            ),
            old(self).cursor == 0 ==> *final(self) == *old(self),
            r == final(self).cursor,
    {
        if self.cursor > 0 {
            self.cursor = self.cursor - 1;
        }
        self.cursor
    }

    /// Jumps to the letter selected by a draw from a source of
    /// randomness external to this component. A draw already in
    /// `[0, len)` is taken as the new cursor; any other value is
    /// reduced into range. Returns the resulting index.
    pub fn jump_random(&mut self, draw: usize) -> (r: usize)
        requires
            old(self).wf(),
        ensures
            final(self).wf(),
            final(self).len == old(self).len,
            final(self).cursor == draw as int % old(self).len as int,
            draw < old(self).len ==> final(self).cursor == draw,
            r == final(self).cursor,
    {
        self.cursor = draw % self.len;
        proof {
            if draw < self.len {
                vstd::arithmetic::div_mod::lemma_small_mod(draw as nat, self.len as nat);
            }
        }
        self.cursor
    }
}

} // verus!
