use vstd::prelude::*;

use crate::step::{inverse_of, Step};

verus! {

/// A transform: anything that can multiply its own action, as primitive
/// steps, onto the end of an accumulated plan.
pub trait Mat<S> {
    /// The steps of this transform, first applied first.
    spec fn steps(&self) -> Seq<Step<S>>;

    /// Appends the steps of this transform to `acc`, so that the product of
    /// the new plan is the old product times this transform's product.
    fn apply(&self, acc: &mut Vec<Step<S>>)
        ensures
            final(acc)@ == old(acc)@ + self.steps(),
    ;

}

/// A transform that can also append its algebraic inverse.
pub trait Inverse<S>: Mat<S> {
    /// Appends the inverse of this transform to `acc`: its steps in reverse
    /// order, each one inverted.
    fn apply_inverse(&self, acc: &mut Vec<Step<S>>)
        ensures
            final(acc)@ == old(acc)@ + inverse_of(self.steps()),
    ;
}

/// The plan of a transform, accumulated from the empty plan (the identity).
pub fn plan<S, T: Mat<S>>(t: &T) -> (r: Vec<Step<S>>)
    ensures
        r@ == t.steps(),
{
    let mut acc: Vec<Step<S>> = Vec::new();
    t.apply(&mut acc);
    assert(acc@ =~= t.steps());
    acc
}

/// The plan of the inverse of a transform, accumulated from the empty plan.
pub fn plan_inverse<S, T: Inverse<S>>(t: &T) -> (r: Vec<Step<S>>)
    ensures
        r@ == inverse_of(t.steps()),
{
    let mut acc: Vec<Step<S>> = Vec::new();
    t.apply_inverse(&mut acc);
    assert(acc@ =~= inverse_of(t.steps()));
    acc
}

} // verus!
