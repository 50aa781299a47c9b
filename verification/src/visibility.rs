//! The visibility stack: an ordered record of the windows that are currently
//! hidden. Hiding pushes a handle, restoring pops the most recently hidden
//! one, and destroying a window removes its handle so that no restore can
//! ever hand out a dangling reference. A handle never appears twice.

use vstd::prelude::*;

verus! {

/// What hiding a window does to the stack: a handle already on the stack is
/// left alone, any other handle is pushed on top.
pub open spec fn spec_hide(s: Seq<u64>, w: u64) -> Seq<u64> {
    if s.contains(w) {
        s
    } else {
        s.push(w)
    }
}

/// The stack after a restore: the top handle is popped, an empty stack stays
/// empty.
pub open spec fn spec_restore_stack(s: Seq<u64>) -> Seq<u64> {
    if s.len() == 0 {
        s
    } else {
        s.drop_last()
    }
}

/// What a restore returns: the most recently hidden handle, if any.
pub open spec fn spec_restore_result(s: Seq<u64>) -> Option<u64> {
    if s.len() == 0 {
        None
    } else {
        Some(s.last())
    }
}

/// The ordered stack of hidden window handles, most recently hidden last.
pub struct VisibilityStack {
    stack: Vec<u64>,
}

impl View for VisibilityStack {
    type V = Seq<u64>;

    closed spec fn view(&self) -> Seq<u64> {
        self.stack@
    }
}

impl VisibilityStack {
    /// A handle never appears twice on the stack.
    pub open spec fn wf(&self) -> bool {
        self@.no_duplicates()
    }

    /// An empty stack: no window is hidden at start-up.
    pub fn new() -> (s: Self)
        ensures
            s@ == Seq::<u64>::empty(),
            s.wf(),
    {
        VisibilityStack { stack: Vec::new() }
    }

    /// Whether `w` is currently hidden.
    pub fn contains(&self, w: u64) -> (r: bool)
        ensures
            r == self@.contains(w),
    {
        let mut i: usize = 0;
        while i < self.stack.len()
            invariant
                0 <= i <= self.stack@.len(),
                forall|k: int| 0 <= k < i ==> self.stack@[k] != w,
            decreases self.stack@.len() - i,
        {
            if self.stack[i] == w {
                return true;
            }
            i = i + 1;
        }
        false
    }

    /// Record `w` as hidden. A handle that is already hidden is not pushed
    /// again.
    pub fn hide_window(&mut self, w: u64)
        requires
            old(self).wf(),
        ensures
            final(self).wf(),
            final(self)@ == spec_hide(old(self)@, w),
    {
        if !self.contains(w) {
            self.stack.push(w);
            proof {
                assert forall|i: int, j: int|
                    (0 <= i < self@.len() && 0 <= j < self@.len() && i != j) implies self@[i]
                    != self@[j] by {
                    if i == self@.len() - 1 {
                        assert(old(self)@[j] == self@[j]);
                    } else if j == self@.len() - 1 {
                        assert(old(self)@[i] == self@[i]);
                    }
                }
            }
        }
    }

    /// Pop and return the most recently hidden handle, if any.
    pub fn restore(&mut self) -> (r: Option<u64>)
        requires
            old(self).wf(),
        ensures
            final(self).wf(),
            r == spec_restore_result(old(self)@),
            final(self)@ == spec_restore_stack(old(self)@),
    {
        let r = self.stack.pop();
        proof {
            if old(self)@.len() > 0 {
                assert(self@ =~= old(self)@.drop_last());
            }
        }
        r
    }

    /// Drop `w` from the stack if it is there; used when the runtime destroys
    /// a window, so that no later restore can return its handle.
    pub fn remove_if_present(&mut self, w: u64)
        requires
            old(self).wf(),
        ensures
            final(self).wf(),
            final(self)@ == old(self)@.remove_value(w),
            !final(self)@.contains(w),
    {
        let ghost s0 = self.stack@;
        let mut i: usize = 0;
        while i < self.stack.len()
            invariant
                self.stack@ == s0,
                old(self)@ == s0,
                s0.no_duplicates(),
                0 <= i <= s0.len(),
                forall|k: int| 0 <= k < i ==> s0[k] != w,
            decreases s0.len() - i,
        {
            if self.stack[i] == w {
                self.stack.remove(i);
                proof {
                    assert(s0.contains(w)) by {
                        assert(s0[i as int] == w);
                    }
                    s0.index_of_first_ensures(w);
                    assert(s0.index_of_first(w) == Some(i as int));
                    assert(s0.remove_value(w) == s0.remove(i as int));
                    lemma_remove_keeps_no_duplicates(s0, i as int);
                    lemma_removed_value_absent(s0, w);
                }
                return ;
            }
            i = i + 1;
        }
        proof {
            s0.index_of_first_ensures(w);
        }
    }
}

/// Removing one index from a duplicate-free sequence leaves it
/// duplicate-free.
proof fn lemma_remove_keeps_no_duplicates(s: Seq<u64>, i: int)
    requires
        s.no_duplicates(),
        0 <= i < s.len(),
    ensures
        s.remove(i).no_duplicates(),
{
    s.remove_ensures(i);
    let t = s.remove(i);
    assert forall|p: int, q: int|
        (0 <= p < t.len() && 0 <= q < t.len() && p != q) implies t[p] != t[q] by {
        let sp: int = if p < i { p } else { p + 1 };
        let sq: int = if q < i { q } else { q + 1 };
        assert(t[p] == s[sp]);
        assert(t[q] == s[sq]);
    }
}

/// In a duplicate-free sequence, removing the first occurrence of a value
/// removes the value entirely.
proof fn lemma_removed_value_absent(s: Seq<u64>, w: u64)
    requires
        s.no_duplicates(),
    ensures
        !s.remove_value(w).contains(w),
{
    s.index_of_first_ensures(w);
    match s.index_of_first(w) {
        Some(i) => {
            s.remove_ensures(i);
            let t = s.remove(i);
            assert forall|k: int| 0 <= k < t.len() implies t[k] != w by {
                if k < i {
                    assert(t[k] == s[k]);
                } else {
                    assert(t[k] == s[k + 1]);
                }
            }
        },
        None => {
            assert forall|k: int| 0 <= k < s.len() implies s[k] != w by {
                if s[k] == w {
                    assert(s.contains(w));
                }
            }
        },
    }
}

/// Law: hiding a window that is not hidden and then restoring hands exactly
/// that window back and leaves the stack as it was, so the window is no
/// longer recorded as hidden; restoring from an empty stack yields nothing.
pub proof fn lemma_hide_restore_round_trip(s: Seq<u64>, w: u64)
    requires
        !s.contains(w),
    ensures
        spec_restore_result(spec_hide(s, w)) == Some(w),
        spec_restore_stack(spec_hide(s, w)) == s,
        !spec_restore_stack(spec_hide(s, w)).contains(w),
        spec_restore_result(Seq::<u64>::empty()) == None::<u64>,
{
    assert(spec_hide(s, w) == s.push(w));
    assert(s.push(w).drop_last() =~= s);
}

/// Law: once a destroyed window's handle has been removed from the stack,
/// the stack no longer holds it, and in particular the next restore cannot
/// return it.
pub proof fn lemma_removed_never_restored(s: Seq<u64>, w: u64)
    requires
        s.no_duplicates(),
    ensures
        !s.remove_value(w).contains(w),
        spec_restore_result(s.remove_value(w)) != Some(w),
{
    lemma_removed_value_absent(s, w);
    let t = s.remove_value(w);
    if t.len() > 0 {
        assert(t.contains(t.last())) by {
            assert(t[t.len() - 1] == t.last());
        }
    }
}

} // verus!
