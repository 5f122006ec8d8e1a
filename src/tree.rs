use vstd::prelude::*;

use crate::capability::{Inverse, Mat};
use crate::step::{invert, inverse_of, lemma_inverse_of_concat, Primitive, Step};

verus! {

/// A transform tree built at run time: a primitive, or two trees one after
/// the other.
#[derive(Debug)]
pub enum Transform<S> {
    Leaf(Primitive<S>),
    Chain(Box<Transform<S>>, Box<Transform<S>>),
}

/// The steps of a tree, leaves from left to right.
pub open spec fn tree_steps<S>(t: Transform<S>) -> Seq<Step<S>>
    decreases t,
{
    match t {
        Transform::Leaf(p) => seq![Step { primitive: p, inverse: false }],
        Transform::Chain(a, b) => tree_steps(*a) + tree_steps(*b),
    }
}

/// The left fold of the chain over a non-empty list: the first element
/// alone, or the fold of all but the last chained with the last.
pub open spec fn fold_chain<S>(ts: Seq<Transform<S>>) -> Transform<S>
    recommends
        ts.len() > 0,
    decreases ts.len(),
{
    if ts.len() <= 1 {
        ts[0]
    } else {
        Transform::Chain(Box::new(fold_chain(ts.drop_last())), Box::new(ts.last()))
    }
}

/// The steps of each tree of the list in turn.
pub open spec fn steps_of_all<S>(ts: Seq<Transform<S>>) -> Seq<Step<S>>
    decreases ts.len(),
{
    if ts.len() == 0 {
        Seq::empty()
    } else {
        steps_of_all(ts.drop_last()) + tree_steps(ts.last())
    }
}

/// The fold of a non-empty list has the steps of its elements in order.
pub proof fn lemma_fold_chain_steps<S>(ts: Seq<Transform<S>>)
    requires
        ts.len() > 0,
    ensures
        tree_steps(fold_chain(ts)) == steps_of_all(ts),
    decreases ts.len(),
{
    if ts.len() == 1 {
        assert(ts.drop_last() =~= Seq::<Transform<S>>::empty());
        assert(steps_of_all(ts.drop_last()) == Seq::<Step<S>>::empty());
        assert(steps_of_all(ts) =~= tree_steps(ts.last()));
    } else {
        lemma_fold_chain_steps(ts.drop_last());
    }
}

fn apply_tree<S: Copy>(t: &Transform<S>, acc: &mut Vec<Step<S>>)
    ensures
        final(acc)@ == old(acc)@ + tree_steps(*t),
    decreases t,
{
    match t {
        Transform::Leaf(p) => {
            acc.push(Step::forward(*p));
        },
        Transform::Chain(a, b) => {
            apply_tree(a, acc);
            apply_tree(b, acc);
            assert(acc@ =~= old(acc)@ + tree_steps(*t));
        },
    }
}

fn apply_tree_inverse<S: Copy>(t: &Transform<S>, acc: &mut Vec<Step<S>>)
    ensures
        final(acc)@ == old(acc)@ + inverse_of(tree_steps(*t)),
    decreases t,
{
    match t {
        Transform::Leaf(p) => {
            let step = Step::forward(*p);
            acc.push(step.inverted());
            assert(inverse_of(tree_steps(*t)) =~= seq![invert(step)]);
        },
        Transform::Chain(a, b) => {
            apply_tree_inverse(b, acc);
            apply_tree_inverse(a, acc);
            proof {
                lemma_inverse_of_concat(tree_steps(**a), tree_steps(**b));
            }
            assert(acc@ =~= old(acc)@ + inverse_of(tree_steps(*t)));
        },
    }
}

impl<S: Copy> Mat<S> for Transform<S> {
    open spec fn steps(&self) -> Seq<Step<S>> {
        tree_steps(*self)
    }

    fn apply(&self, acc: &mut Vec<Step<S>>) {
        apply_tree(self, acc);
    }
}

impl<S: Copy> Inverse<S> for Transform<S> {
    fn apply_inverse(&self, acc: &mut Vec<Step<S>>) {
        apply_tree_inverse(self, acc);
    }
}

impl<S> Transform<S> {
    /// A single primitive as a tree.
    pub fn leaf(p: Primitive<S>) -> (r: Transform<S>)
        ensures
            r == Transform::Leaf(p),
    {
        Transform::Leaf(p)
    }

    /// This tree followed by `other`.
    pub fn join(self, other: Transform<S>) -> (r: Transform<S>)
        ensures
            r == Transform::Chain(Box::new(self), Box::new(other)),
    {
        Transform::Chain(Box::new(self), Box::new(other))
    }
}

/// Chains the trees of a non-empty list in order, the first applied first.
/// A single tree comes back as it is.
pub fn combine<S>(ts: Vec<Transform<S>>) -> (r: Transform<S>)
    requires
        ts.len() > 0,
    ensures
        r == fold_chain(ts@),
        tree_steps(r) == steps_of_all(ts@),
{
    let ghost all = ts@;
    let ghost n = all.len();
    let mut rest = ts;
    let mut acc = rest.remove(0);
    assert(fold_chain(all.subrange(0, 1)) == all[0]);
    while rest.len() > 0
        invariant
            n == all.len(),
            rest@ == all.subrange(n - rest@.len(), n as int),
            rest@.len() < n,
            acc == fold_chain(all.subrange(0, n - rest@.len())),
        decreases rest.len(),
    {
        let ghost k = n - rest@.len();
        let next = rest.remove(0);
        acc = Transform::Chain(Box::new(acc), Box::new(next));
        proof {
            let pre = all.subrange(0, k + 1);
            assert(pre.drop_last() =~= all.subrange(0, k));
            assert(pre.last() == next);
            assert(rest@ =~= all.subrange(n - rest@.len(), n as int));
        }
    }
    assert(all.subrange(0, n as int) =~= all);
    proof {
        lemma_fold_chain_steps(all);
    }
    acc
}

} // verus!
