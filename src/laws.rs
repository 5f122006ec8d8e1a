use vstd::prelude::*;

use crate::capability::{Inverse, Mat};
use crate::chain::Chain;
use crate::step::{cancels, invert, inverse_of, lemma_inverse_of_concat, lemma_plan_then_inverse_cancels, Step};
use crate::tree::{fold_chain, Transform};

verus! {

/// Chaining is multiplication in order: the plan of `a` chained with `b` is
/// the plan of `a` followed by the plan of `b`, so its product is the
/// product of `a` times the product of `b`.
pub proof fn law_chain_is_product<S, A: Mat<S>, B: Mat<S>>(a: A, b: B)
    ensures
        (Chain { a, b }).steps() == a.steps() + b.steps(),
{
}

/// Inverting a chain reverses it: the inverse plan of `a` chained with `b`
/// is the inverse plan of `b` followed by the inverse plan of `a`.
pub proof fn law_inverse_reverses_chain<S, A: Inverse<S>, B: Inverse<S>>(a: A, b: B)
    ensures
        inverse_of((Chain { a, b }).steps()) == inverse_of(b.steps()) + inverse_of(a.steps()),
{
    lemma_inverse_of_concat(a.steps(), b.steps());
}

/// For two primitive steps, the inverse plan of their chain is the plan of
/// the chain of their inverses, the second one first.
pub proof fn law_inverse_of_step_chain<S: Copy>(a: Step<S>, b: Step<S>)
    ensures
        inverse_of((Chain { a, b }).steps()) == (Chain { a: invert(b), b: invert(a) }).steps(),
{
    assert(inverse_of((Chain { a, b }).steps()) =~= (Chain { a: invert(b), b: invert(a) }).steps());
}

/// A transform followed by its inverse cancels step by step, so the product
/// of the two plans together is the identity.
pub proof fn law_round_trip_cancels<S, T: Inverse<S>>(t: T)
    ensures
        cancels(t.steps() + inverse_of(t.steps())),
{
    lemma_plan_then_inverse_cancels(t.steps());
}

/// Combining a single transform gives that transform back, unwrapped, so its
/// plan and its inverse plan are its own.
pub proof fn law_combine_single<S: Copy>(t: Transform<S>)
    ensures
        fold_chain(seq![t]) == t,
        fold_chain(seq![t]).steps() == t.steps(),
        inverse_of(fold_chain(seq![t]).steps()) == inverse_of(t.steps()),
{
}

} // verus!
