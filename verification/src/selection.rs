use vstd::prelude::*;
use vstd::arithmetic::div_mod::{lemma_small_mod, lemma_add_mod_noop, lemma_add_mod_noop_right, lemma_mod_self_0};

verus! {

/// A zero-based cursor over an ordered sequence of `length` entries, moved one
/// step at a time with wrap-around. When the sequence is empty there is
/// nothing to select and the cursor rests at zero.
pub struct Selection {
    pub cursor: usize,
    pub length: usize,
}

impl Selection {
    /// The cursor stays in bounds whenever there is anything to point at.
    pub open spec fn wf(self) -> bool {
        if self.length > 0 {
            self.cursor < self.length
        } else {
            self.cursor == 0
        }
    }

    /// Where one step forward lands: `(cursor + 1) mod length`.
    pub open spec fn spec_advance(self) -> Selection {
        if self.length == 0 {
            self
        } else {
            Selection {
                cursor: (((self.cursor + 1) % (self.length as int)) as usize),
                length: self.length,
            }
        }
    }

    /// Where one step backward lands: `(cursor + length - 1) mod length`.
    pub open spec fn spec_retreat(self) -> Selection {
        if self.length == 0 {
            self
        } else {
            Selection {
                cursor: (((self.cursor + self.length - 1) % (self.length as int)) as usize),
                length: self.length,
            }
        }
    }

    /// The cursor after `n` forward steps.
    pub open spec fn spec_advance_n(self, n: nat) -> Selection
        decreases n,
    {
        if n == 0 {
            self
        } else {
            self.spec_advance_n((n - 1) as nat).spec_advance()
        }
    }

    /// The cursor after `n` backward steps.
    pub open spec fn spec_retreat_n(self, n: nat) -> Selection
        decreases n,
    {
        if n == 0 {
            self
        } else {
            self.spec_retreat_n((n - 1) as nat).spec_retreat()
        }
    }

    /// A fresh cursor over `length` entries, pointing at the first one.
    pub fn new(length: usize) -> (s: Selection)
        ensures
            s == (Selection { cursor: 0, length }),
            s.wf(),
    {
        Selection { cursor: 0, length }
    }

    /// The selected index, or `None` when the sequence is empty.
    pub fn selected(&self) -> (r: Option<usize>)
        ensures
            r == self.spec_selected(),
    {
        if self.length == 0 {
            None
        } else {
            Some(self.cursor)
        }
    }

    pub open spec fn spec_selected(self) -> Option<usize> {
        if self.length == 0 {
            None
        } else {
            Some(self.cursor)
        }
    }

    /// Point the cursor at a sequence of `length` entries, keeping its
    /// position when that is still in bounds and resetting it otherwise.
    pub fn resize(&mut self, length: usize)
        ensures
            *final(self) == old(self).spec_resize(length),
            final(self).wf(),
    {
        self.length = length;
        if self.cursor >= length {
            self.cursor = 0;
        }
    }

    pub open spec fn spec_resize(self, length: usize) -> Selection {
        Selection {
            cursor: if self.cursor < length { self.cursor } else { 0 },
            length,
        }
    }

    /// Move one entry down the list, wrapping from the last entry to the
    /// first; with nothing to select this is a no-op.
    pub fn advance(&mut self)
        requires
            old(self).wf(),
        ensures
            *final(self) == old(self).spec_advance(),
            final(self).wf(),
    {
        if self.length > 0 {
            if self.cursor >= self.length - 1 {
                self.cursor = 0;
                proof {
                    lemma_mod_self_0(self.length as int);
                }
            } else {
                self.cursor = self.cursor + 1;
                proof {
                    lemma_small_mod(self.cursor as nat, self.length as nat);
                }
            }
        }
    }

    /// Move one entry up the list, wrapping from the first entry to the
    /// last; with nothing to select this is a no-op.
    pub fn retreat(&mut self)
        requires
            old(self).wf(),
        ensures
            *final(self) == old(self).spec_retreat(),
            final(self).wf(),
    {
        if self.length > 0 {
            if self.cursor == 0 {
                self.cursor = self.length - 1;
                proof {
                    lemma_small_mod((self.length - 1) as nat, self.length as nat);
                }
            } else {
                self.cursor = self.cursor - 1;
                proof {
                    vstd::arithmetic::div_mod::lemma_mod_multiples_vanish(1, self.cursor as int, self.length as int);
                    lemma_small_mod(self.cursor as nat, self.length as nat);
                }
            }
        }
    }

    /// Advancing keeps the length and keeps the cursor in bounds, and the
    /// cursor moves as `(cursor + n) mod length` does.
    pub proof fn lemma_advance_n_cursor(self, n: nat)
        requires
            self.wf(),
            self.length > 0,
        ensures
            self.spec_advance_n(n).length == self.length,
            self.spec_advance_n(n).cursor == (self.cursor + n) % (self.length as int),
        decreases n,
    {
        let len = self.length as int;
        if n == 0 {
            lemma_small_mod(self.cursor as nat, self.length as nat);
        } else {
            self.lemma_advance_n_cursor((n - 1) as nat);
            lemma_add_mod_noop_right(1, self.cursor + n - 1, len);
        }
    }

    /// Retreating keeps the length and keeps the cursor in bounds, and the
    /// cursor moves as `(cursor + n * (length - 1)) mod length` does.
    pub proof fn lemma_retreat_n_cursor(self, n: nat)
        requires
            self.wf(),
            self.length > 0,
        ensures
            self.spec_retreat_n(n).length == self.length,
            self.spec_retreat_n(n).cursor == (self.cursor + n * (self.length - 1)) % (self.length as int),
        decreases n,
    {
        let len = self.length as int;
        let back = len - 1;
        if n == 0 {
            lemma_small_mod(self.cursor as nat, self.length as nat);
        } else {
            self.lemma_retreat_n_cursor((n - 1) as nat);
            assert((n - 1) * back + back == n * back) by (nonlinear_arith);
            lemma_add_mod_noop_right(back, self.cursor + (n - 1) * back, len);
        }
    }

    /// Wrap-around, forward: over a non-empty sequence, advancing once per
    /// entry brings the cursor back to where it started.
    pub proof fn lemma_advance_full_cycle(self)
        requires
            self.wf(),
            self.length > 0,
        ensures
            self.spec_advance_n(self.length as nat) == self,
    {
        let len = self.length as int;
        self.lemma_advance_n_cursor(self.length as nat);
        lemma_add_mod_noop(self.cursor as int, len, len);
        lemma_mod_self_0(len);
        lemma_small_mod(self.cursor as nat, self.length as nat);
    }

    /// Wrap-around, backward: over a non-empty sequence, retreating once per
    /// entry brings the cursor back to where it started.
    pub proof fn lemma_retreat_full_cycle(self)
        requires
            self.wf(),
            self.length > 0,
        ensures
            self.spec_retreat_n(self.length as nat) == self,
    {
        let len = self.length as int;
        self.lemma_retreat_n_cursor(self.length as nat);
        assert(len * (len - 1) == (len - 1) * len) by (nonlinear_arith);
        vstd::arithmetic::div_mod::lemma_mod_multiples_vanish(len - 1, self.cursor as int, len);
        lemma_small_mod(self.cursor as nat, self.length as nat);
    }
}

} // verus!
