use vstd::prelude::*;

verus! {

/// One of the five primitive affine actions, with its parameters.
#[derive(Clone, Copy, Debug, PartialEq, Eq, Structural)]
pub enum Primitive<S> {
    /// Rotation by an angle in radians about the X axis.
    RotateX(S),
    /// Rotation by an angle in radians about the Y axis.
    RotateY(S),
    /// Rotation by an angle in radians about the Z axis.
    RotateZ(S),
    /// Scale by the three factors along X, Y and Z.
    Scale(S, S, S),
    /// Translation by the three offsets along X, Y and Z.
    Translate(S, S, S),
}

/// A primitive action taken forward, or as its algebraic inverse
/// (negated angle, reciprocal factors, negated offsets).
#[derive(Clone, Copy, Debug, PartialEq, Eq, Structural)]
pub struct Step<S> {
    pub primitive: Primitive<S>,
    pub inverse: bool,
}

/// The same primitive taken the other way.
pub open spec fn invert<S>(s: Step<S>) -> Step<S> {
    Step { primitive: s.primitive, inverse: !s.inverse }
}

/// The steps whose product is the inverse of the product of `s`:
/// the steps of `s` in reverse order, each one inverted.
pub open spec fn inverse_of<S>(s: Seq<Step<S>>) -> Seq<Step<S>> {
    Seq::new(s.len(), |i: int| invert(s[s.len() - 1 - i]))
}

/// `s` is a nest of mutually inverse steps: its first and last steps undo
/// each other, and so does what lies between them, down to nothing.
/// The product of such a plan is the identity.
pub open spec fn cancels<S>(s: Seq<Step<S>>) -> bool
    decreases s.len(),
{
    if s.len() == 0 {
        true
    } else if s.len() == 1 {
        false
    } else {
        s.last() == invert(s[0]) && cancels(s.subrange(1, s.len() - 1))
    }
}

/// The scale factors that the steps of `s` divide by, in order: those of
/// each inverted scale.
pub open spec fn divisors<S>(s: Seq<Step<S>>) -> Seq<(S, S, S)>
    decreases s.len(),
{
    if s.len() == 0 {
        Seq::empty()
    } else {
        let d = divisors(s.drop_last());
        match s.last() {
            Step { primitive: Primitive::Scale(x, y, z), inverse: true } => d.push((x, y, z)),
            _ => d,
        }
    }
}

/// The scale factors that a plan divides by, in order. A plan has a finite
/// product exactly when none of them is zero.
pub fn divisors_of<S: Copy>(plan: &Vec<Step<S>>) -> (r: Vec<(S, S, S)>)
    ensures
        r@ == divisors(plan@),
{
    let mut r: Vec<(S, S, S)> = Vec::new();
    let mut i: usize = 0;
    while i < plan.len()
        invariant
            i <= plan@.len(),
            r@ == divisors(plan@.subrange(0, i as int)),
        decreases plan.len() - i,
    {
        let step = plan[i];
        assert(plan@.subrange(0, i + 1).drop_last() =~= plan@.subrange(0, i as int));
        match step.primitive {
            Primitive::Scale(x, y, z) => {
                if step.inverse {
                    r.push((x, y, z));
                }
            },
            _ => {},
        }
        i = i + 1;
    }
    assert(plan@.subrange(0, plan@.len() as int) =~= plan@);
    r
}

impl<S: Copy> Step<S> {
    /// The primitive taken forward.
    pub fn forward(primitive: Primitive<S>) -> (r: Step<S>)
        ensures
            r == (Step { primitive, inverse: false }),
    {
        Step { primitive, inverse: false }
    }

    /// The same primitive taken the other way.
    pub fn inverted(&self) -> (r: Step<S>)
        ensures
            r == invert(*self),
    {
        Step { primitive: self.primitive, inverse: !self.inverse }
    }
}

/// The inverse of two plans one after the other is the inverse of the second
/// followed by the inverse of the first.
pub proof fn lemma_inverse_of_concat<S>(a: Seq<Step<S>>, b: Seq<Step<S>>)
    ensures
        inverse_of(a + b) == inverse_of(b) + inverse_of(a),
{
    assert(inverse_of(a + b) =~= inverse_of(b) + inverse_of(a));
}

/// A plan followed by its inverse cancels.
pub proof fn lemma_plan_then_inverse_cancels<S>(s: Seq<Step<S>>)
    ensures
        cancels(s + inverse_of(s)),
    decreases s.len(),
{
    if s.len() > 0 {
        let rest = s.subrange(1, s.len() as int);
        lemma_plan_then_inverse_cancels(rest);
        let whole = s + inverse_of(s);
        assert(whole.subrange(1, whole.len() - 1) =~= rest + inverse_of(rest));
        assert(whole.last() == invert(whole[0]));
    }
}

} // verus!
