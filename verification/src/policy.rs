//! Focus and stacking policy helpers: which windows of an output take part
//! in layout and focus decisions. A window takes part exactly when it is not
//! on the visibility stack.

use vstd::prelude::*;
use crate::visibility::VisibilityStack;

verus! {

/// The visible windows of an output: its stacking order with every hidden
/// window left out, order kept.
pub open spec fn visible_of(views: Seq<u64>, hidden: Seq<u64>) -> Seq<u64>
    decreases views.len(),
{
    if views.len() == 0 {
        Seq::empty()
    } else {
        let rest = visible_of(views.drop_last(), hidden);
        if hidden.contains(views.last()) {
            rest
        } else {
            rest.push(views.last())
        }
    }
}

/// A stacking order with every occurrence of `w` left out, order kept.
pub open spec fn without(views: Seq<u64>, w: u64) -> Seq<u64>
    decreases views.len(),
{
    if views.len() == 0 {
        Seq::empty()
    } else {
        let rest = without(views.drop_last(), w);
        if views.last() == w {
            rest
        } else {
            rest.push(views.last())
        }
    }
}

/// Leaving windows out never makes the list longer.
pub proof fn lemma_visible_of_len(views: Seq<u64>, hidden: Seq<u64>)
    ensures
        visible_of(views, hidden).len() <= views.len(),
    decreases views.len(),
{
    if views.len() > 0 {
        lemma_visible_of_len(views.drop_last(), hidden);
    }
}

/// Collect the visible windows of an output: the stacking order without the
/// hidden ones.
pub fn visible_views(views: &Vec<u64>, hidden: &VisibilityStack) -> (vis: Vec<u64>)
    ensures
        vis@ == visible_of(views@, hidden@),
        vis@.len() <= views@.len(),
{
    let mut vis: Vec<u64> = Vec::new();
    let mut i: usize = 0;
    proof {
        assert(views@.take(0) =~= Seq::<u64>::empty());
    }
    while i < views.len()
        invariant
            0 <= i <= views@.len(),
            vis@ == visible_of(views@.take(i as int), hidden@),
        decreases views@.len() - i,
    {
        proof {
            assert(views@.take(i + 1).drop_last() =~= views@.take(i as int));
            assert(views@.take(i + 1).last() == views@[i as int]);
            lemma_visible_of_len(views@.take(i as int), hidden@);
        }
        let v = views[i];
        if !hidden.contains(v) {
            vis.push(v);
        }
        i = i + 1;
    }
    proof {
        assert(views@.take(views@.len() as int) =~= views@);
        lemma_visible_of_len(views@, hidden@);
    }
    vis
}

/// Copy a stacking order, leaving every occurrence of `w` out.
pub fn views_without(views: &Vec<u64>, w: u64) -> (r: Vec<u64>)
    ensures
        r@ == without(views@, w),
{
    let mut r: Vec<u64> = Vec::new();
    let mut i: usize = 0;
    proof {
        assert(views@.take(0) =~= Seq::<u64>::empty());
    }
    while i < views.len()
        invariant
            0 <= i <= views@.len(),
            r@ == without(views@.take(i as int), w),
        decreases views@.len() - i,
    {
        proof {
            assert(views@.take(i + 1).drop_last() =~= views@.take(i as int));
            assert(views@.take(i + 1).last() == views@[i as int]);
        }
        let v = views[i];
        if v != w {
            r.push(v);
        }
        i = i + 1;
    }
    proof {
        assert(views@.take(views@.len() as int) =~= views@);
    }
    r
}

} // verus!
