//! Composition of affine 3D transforms into ordered plans of primitive steps.
//!
//! A transform contributes a sequence of primitive steps; a plan is the
//! product of its steps in order. The inverse of a transform is its steps in
//! reverse order, each one inverted, so no matrix ever has to be inverted
//! numerically. The scalar type of the parameters is left to the caller.
pub mod capability;
pub mod chain;
pub mod laws;
pub mod primitives;
pub mod step;
pub mod tree;

pub use capability::{plan, plan_inverse, Inverse, Mat};
pub use chain::{chain, Chain};
pub use primitives::{
    rotate_x, rotate_y, rotate_z, scale, translate, Scale, Translation, XRot, YRot, ZRot,
};
pub use step::{divisors_of, Primitive, Step};
pub use tree::{combine, Transform};
