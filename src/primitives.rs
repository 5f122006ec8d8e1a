use vstd::prelude::*;

use crate::capability::{Inverse, Mat};
use crate::chain::Chain;
use crate::step::{invert, inverse_of, Primitive, Step};

verus! {

impl<S: Copy> Mat<S> for Primitive<S> {
    open spec fn steps(&self) -> Seq<Step<S>> {
        seq![Step { primitive: *self, inverse: false }]
    }

    fn apply(&self, acc: &mut Vec<Step<S>>) {
        acc.push(Step::forward(*self));
    }
}

impl<S: Copy> Inverse<S> for Primitive<S> {
    fn apply_inverse(&self, acc: &mut Vec<Step<S>>) {
        let step = Step::forward(*self);
        acc.push(step.inverted());
        assert(inverse_of(self.steps()) =~= seq![invert(step)]);
    }
}

impl<S: Copy> Mat<S> for Step<S> {
    open spec fn steps(&self) -> Seq<Step<S>> {
        seq![*self]
    }

    fn apply(&self, acc: &mut Vec<Step<S>>) {
        acc.push(*self);
    }
}

impl<S: Copy> Inverse<S> for Step<S> {
    fn apply_inverse(&self, acc: &mut Vec<Step<S>>) {
        acc.push(self.inverted());
        assert(inverse_of(self.steps()) =~= seq![invert(*self)]);
    }
}

/// Rotation about the X axis by `angle_rad` radians.
#[derive(Clone, Copy, Debug)]
pub struct XRot<S> {
    pub angle_rad: S,
}

impl<S> XRot<S> {
    /// This transform followed by `other`.
    pub fn chain<K>(self, other: K) -> (r: Chain<XRot<S>, K>)
        ensures
            r.a == self,
            r.b == other,
    {
        Chain { a: self, b: other }
    }
}

impl<S: Copy> XRot<S> {
    /// The primitive action of this transform.
    pub open spec fn as_primitive(&self) -> Primitive<S> {
        Primitive::RotateX(self.angle_rad)
    }

    /// The primitive action of this transform.
    pub fn primitive(&self) -> (r: Primitive<S>)
        ensures
            r == self.as_primitive(),
    {
        Primitive::RotateX(self.angle_rad)
    }
}

impl<S: Copy> Mat<S> for XRot<S> {
    open spec fn steps(&self) -> Seq<Step<S>> {
        self.as_primitive().steps()
    }

    fn apply(&self, acc: &mut Vec<Step<S>>) {
        self.primitive().apply(acc);
    }
}

impl<S: Copy> Inverse<S> for XRot<S> {
    fn apply_inverse(&self, acc: &mut Vec<Step<S>>) {
        self.primitive().apply_inverse(acc);
    }
}

/// Rotation about the Y axis by `angle_rad` radians.
#[derive(Clone, Copy, Debug)]
pub struct YRot<S> {
    pub angle_rad: S,
}

impl<S> YRot<S> {
    /// This transform followed by `other`.
    pub fn chain<K>(self, other: K) -> (r: Chain<YRot<S>, K>)
        ensures
            r.a == self,
            r.b == other,
    {
        Chain { a: self, b: other }
    }
}

impl<S: Copy> YRot<S> {
    /// The primitive action of this transform.
    pub open spec fn as_primitive(&self) -> Primitive<S> {
        Primitive::RotateY(self.angle_rad)
    }

    /// The primitive action of this transform.
    pub fn primitive(&self) -> (r: Primitive<S>)
        ensures
            r == self.as_primitive(),
    {
        Primitive::RotateY(self.angle_rad)
    }
}

impl<S: Copy> Mat<S> for YRot<S> {
    open spec fn steps(&self) -> Seq<Step<S>> {
        self.as_primitive().steps()
    }

    fn apply(&self, acc: &mut Vec<Step<S>>) {
        self.primitive().apply(acc);
    }
}

impl<S: Copy> Inverse<S> for YRot<S> {
    fn apply_inverse(&self, acc: &mut Vec<Step<S>>) {
        self.primitive().apply_inverse(acc);
    }
}

/// Rotation about the Z axis by `angle_rad` radians.
#[derive(Clone, Copy, Debug)]
pub struct ZRot<S> {
    pub angle_rad: S,
}

impl<S> ZRot<S> {
    /// This transform followed by `other`.
    pub fn chain<K>(self, other: K) -> (r: Chain<ZRot<S>, K>)
        ensures
            r.a == self,
            r.b == other,
    {
        Chain { a: self, b: other }
    }
}

impl<S: Copy> ZRot<S> {
    /// The primitive action of this transform.
    pub open spec fn as_primitive(&self) -> Primitive<S> {
        Primitive::RotateZ(self.angle_rad)
    }

    /// The primitive action of this transform.
    pub fn primitive(&self) -> (r: Primitive<S>)
        ensures
            r == self.as_primitive(),
    {
        Primitive::RotateZ(self.angle_rad)
    }
}

impl<S: Copy> Mat<S> for ZRot<S> {
    open spec fn steps(&self) -> Seq<Step<S>> {
        self.as_primitive().steps()
    }

    fn apply(&self, acc: &mut Vec<Step<S>>) {
        self.primitive().apply(acc);
    }
}

impl<S: Copy> Inverse<S> for ZRot<S> {
    fn apply_inverse(&self, acc: &mut Vec<Step<S>>) {
        self.primitive().apply_inverse(acc);
    }
}

/// Scale by `tx`, `ty` and `tz` along X, Y and Z.
#[derive(Clone, Copy, Debug)]
pub struct Scale<S> {
    pub tx: S,
    pub ty: S,
    pub tz: S,
}

impl<S> Scale<S> {
    /// This transform followed by `other`.
    pub fn chain<K>(self, other: K) -> (r: Chain<Scale<S>, K>)
        ensures
            r.a == self,
            r.b == other,
    {
        Chain { a: self, b: other }
    }
}

impl<S: Copy> Scale<S> {
    /// The primitive action of this transform.
    pub open spec fn as_primitive(&self) -> Primitive<S> {
        Primitive::Scale(self.tx, self.ty, self.tz)
    }

    /// The primitive action of this transform.
    pub fn primitive(&self) -> (r: Primitive<S>)
        ensures
            r == self.as_primitive(),
    {
        Primitive::Scale(self.tx, self.ty, self.tz)
    }
}

impl<S: Copy> Mat<S> for Scale<S> {
    open spec fn steps(&self) -> Seq<Step<S>> {
        self.as_primitive().steps()
    }

    fn apply(&self, acc: &mut Vec<Step<S>>) {
        self.primitive().apply(acc);
    }
}

impl<S: Copy> Inverse<S> for Scale<S> {
    fn apply_inverse(&self, acc: &mut Vec<Step<S>>) {
        self.primitive().apply_inverse(acc);
    }
}

/// Translation by `tx`, `ty` and `tz` along X, Y and Z.
#[derive(Clone, Copy, Debug)]
pub struct Translation<S> {
    pub tx: S,
    pub ty: S,
    pub tz: S,
}

impl<S> Translation<S> {
    /// This transform followed by `other`.
    pub fn chain<K>(self, other: K) -> (r: Chain<Translation<S>, K>)
        ensures
            r.a == self,
            r.b == other,
    {
        Chain { a: self, b: other }
    }
}

impl<S: Copy> Translation<S> {
    /// The primitive action of this transform.
    pub open spec fn as_primitive(&self) -> Primitive<S> {
        Primitive::Translate(self.tx, self.ty, self.tz)
    }

    /// The primitive action of this transform.
    pub fn primitive(&self) -> (r: Primitive<S>)
        ensures
            r == self.as_primitive(),
    {
        Primitive::Translate(self.tx, self.ty, self.tz)
    }
}

impl<S: Copy> Mat<S> for Translation<S> {
    open spec fn steps(&self) -> Seq<Step<S>> {
        self.as_primitive().steps()
    }

    fn apply(&self, acc: &mut Vec<Step<S>>) {
        self.primitive().apply(acc);
    }
}

impl<S: Copy> Inverse<S> for Translation<S> {
    fn apply_inverse(&self, acc: &mut Vec<Step<S>>) {
        self.primitive().apply_inverse(acc);
    }
}

/// Rotation about the X axis by `angle_rad` radians.
pub fn rotate_x<S>(angle_rad: S) -> (r: XRot<S>)
    ensures
        r.angle_rad == angle_rad,
{
    XRot { angle_rad }
}

/// Rotation about the Y axis by `angle_rad` radians.
pub fn rotate_y<S>(angle_rad: S) -> (r: YRot<S>)
    ensures
        r.angle_rad == angle_rad,
{
    YRot { angle_rad }
}

/// Rotation about the Z axis by `angle_rad` radians.
pub fn rotate_z<S>(angle_rad: S) -> (r: ZRot<S>)
    ensures
        r.angle_rad == angle_rad,
{
    ZRot { angle_rad }
}

/// Scale by `x`, `y` and `z` along X, Y and Z.
pub fn scale<S>(x: S, y: S, z: S) -> (r: Scale<S>)
    ensures
        r.tx == x,
        r.ty == y,
        r.tz == z,
{
    Scale { tx: x, ty: y, tz: z }
}

/// Translation by `tx`, `ty` and `tz` along X, Y and Z.
pub fn translate<S>(tx: S, ty: S, tz: S) -> (r: Translation<S>)
    ensures
        r.tx == tx,
        r.ty == ty,
        r.tz == tz,
{
    Translation { tx, ty, tz }
}

} // verus!
