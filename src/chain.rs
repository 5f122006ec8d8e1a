use vstd::prelude::*;

use crate::capability::{Inverse, Mat};
use crate::step::{inverse_of, lemma_inverse_of_concat, Step};

verus! {

/// Two transforms, `a` applied first and `b` second.
#[derive(Clone, Copy, Debug)]
pub struct Chain<A, B> {
    pub a: A,
    pub b: B,
}

/// `a` followed by `b`.
pub fn chain<A, B>(a: A, b: B) -> (r: Chain<A, B>)
    ensures
        r.a == a,
        r.b == b,
{
    Chain { a, b }
}

impl<A, B> Chain<A, B> {
    /// This chain followed by `other`.
    pub fn chain<K>(self, other: K) -> (r: Chain<Chain<A, B>, K>)
        ensures
            r.a == self,
            r.b == other,
    {
        Chain { a: self, b: other }
    }
}

impl<S, A: Mat<S>, B: Mat<S>> Mat<S> for Chain<A, B> {
    open spec fn steps(&self) -> Seq<Step<S>> {
        self.a.steps() + self.b.steps()
    }

    fn apply(&self, acc: &mut Vec<Step<S>>) {
        self.a.apply(acc);
        self.b.apply(acc);
        assert(acc@ =~= old(acc)@ + self.steps());
    }
}

impl<S, A: Inverse<S>, B: Inverse<S>> Inverse<S> for Chain<A, B> {
    fn apply_inverse(&self, acc: &mut Vec<Step<S>>) {
        self.b.apply_inverse(acc);
        self.a.apply_inverse(acc);
        proof {
            lemma_inverse_of_concat(self.a.steps(), self.b.steps());
        }
        assert(acc@ =~= old(acc)@ + inverse_of(self.steps()));
    }
}

} // verus!
