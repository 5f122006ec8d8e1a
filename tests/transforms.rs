use glam::f32::Mat4;
use transform_chain::{
    chain, combine, divisors_of, plan, plan_inverse, rotate_x, rotate_y, rotate_z, scale,
    translate, Inverse, Mat, Primitive, Step, Transform,
};

fn matrix(step: &Step<f32>) -> Mat4 {
    let p = if step.inverse {
        match step.primitive {
            Primitive::RotateX(a) => Primitive::RotateX(-a),
            Primitive::RotateY(a) => Primitive::RotateY(-a),
            Primitive::RotateZ(a) => Primitive::RotateZ(-a),
            Primitive::Scale(x, y, z) => Primitive::Scale(1.0 / x, 1.0 / y, 1.0 / z),
            Primitive::Translate(x, y, z) => Primitive::Translate(-x, -y, -z),
        }
    } else {
        step.primitive
    };
    match p {
        Primitive::RotateX(a) => {
            let (s, c) = (a.sin(), a.cos());
            Mat4::from_cols_array(&[1., 0., 0., 0., 0., c, s, 0., 0., -s, c, 0., 0., 0., 0., 1.])
        }
        Primitive::RotateY(a) => {
            let (s, c) = (a.sin(), a.cos());
            Mat4::from_cols_array(&[c, 0., -s, 0., 0., 1., 0., 0., s, 0., c, 0., 0., 0., 0., 1.])
        }
        Primitive::RotateZ(a) => {
            let (s, c) = (a.sin(), a.cos());
            Mat4::from_cols_array(&[c, s, 0., 0., -s, c, 0., 0., 0., 0., 1., 0., 0., 0., 0., 1.])
        }
        Primitive::Scale(x, y, z) => Mat4::from_cols_array(&[
            x, 0., 0., 0., 0., y, 0., 0., 0., 0., z, 0., 0., 0., 0., 1.,
        ]),
        Primitive::Translate(x, y, z) => Mat4::from_cols_array(&[
            1., 0., 0., 0., 0., 1., 0., 0., 0., 0., 1., 0., x, y, z, 1.,
        ]),
    }
}

fn product(steps: &[Step<f32>]) -> Mat4 {
    let mut m = Mat4::IDENTITY;
    for s in steps {
        m *= matrix(s);
    }
    m
}

fn build<T: Mat<f32>>(t: &T) -> Mat4 {
    product(&plan(t))
}

fn build_inverse<T: Inverse<f32>>(t: &T) -> Mat4 {
    product(&plan_inverse(t))
}

fn approx_eq(a: &Mat4, b: &Mat4) {
    let a = a.to_cols_array();
    let b = b.to_cols_array();
    for (a, b) in a.into_iter().zip(b.into_iter()) {
        assert!((a - b).abs() < 0.000001, "{}:{}", a, b);
    }
}

/// Equal within `tol` per entry.
fn close(a: &Mat4, b: &Mat4, tol: f32) {
    let a = a.to_cols_array();
    let b = b.to_cols_array();
    for (a, b) in a.into_iter().zip(b.into_iter()) {
        assert!((a - b).abs() < tol, "{}:{}", a, b);
    }
}

fn leaf(p: Primitive<f32>) -> Transform<f32> {
    Transform::leaf(p)
}

fn fwd(p: Primitive<f32>) -> Step<f32> {
    Step { primitive: p, inverse: false }
}

fn inv(p: Primitive<f32>) -> Step<f32> {
    Step { primitive: p, inverse: true }
}

#[test]
fn example() {
    let c = rotate_x(0.5).chain(translate(55.0, -5.0, -6.0));
    let c = build(&c);
    let x = build(&rotate_x(0.5));
    let y = build(&translate(55.0, -5.0, -6.0));
    assert_eq!(c, x * y);
}

#[test]
fn inverse_example() {
    let c = combine(vec![
        leaf(rotate_x(0.5).primitive()),
        leaf(rotate_y(0.2).primitive()),
        leaf(rotate_z(0.1).primitive()),
        leaf(translate(55.0, -5.0, -6.0).primitive()),
        leaf(scale(2.0, 4.0, -2.0).primitive()),
    ]);
    let c2 = combine(vec![
        leaf(scale(1.0 / 2.0, 1.0 / 4.0, -1.0 / 2.0).primitive()),
        leaf(translate(-55.0, 5.0, 6.0).primitive()),
        leaf(rotate_z(-0.1).primitive()),
        leaf(rotate_y(-0.2).primitive()),
        leaf(rotate_x(-0.5).primitive()),
    ]);
    assert_eq!(build_inverse(&c), build(&c2));
    approx_eq(&build(&c).inverse(), &build_inverse(&c));
}

#[test]
fn chain_plan_is_both_plans_in_order() {
    let a = chain(rotate_y(0.3), scale(1.0, 2.0, 3.0));
    let b = translate(1.0, 2.0, 3.0);
    let c = chain(a, b);
    let mut expected = plan(&a);
    expected.extend(plan(&b));
    assert_eq!(plan(&c), expected);
    assert_eq!(
        plan(&c),
        vec![
            fwd(Primitive::RotateY(0.3)),
            fwd(Primitive::Scale(1.0, 2.0, 3.0)),
            fwd(Primitive::Translate(1.0, 2.0, 3.0)),
        ]
    );
    approx_eq(&build(&c), &(build(&a) * build(&b)));
}

#[test]
fn chain_plan_keeps_order_of_non_commuting_parts() {
    let ab = chain(rotate_z(1.0), translate(3.0, 0.0, 0.0));
    let ba = chain(translate(3.0, 0.0, 0.0), rotate_z(1.0));
    assert_ne!(plan(&ab), plan(&ba));
    assert!((build(&ab).w_axis.x - build(&ba).w_axis.x).abs() > 0.1);
}

#[test]
fn inverse_of_chain_reverses_and_inverts() {
    let c = chain(rotate_x(0.5), translate(55.0, -5.0, -6.0));
    assert_eq!(
        plan_inverse(&c),
        vec![
            inv(Primitive::Translate(55.0, -5.0, -6.0)),
            inv(Primitive::RotateX(0.5)),
        ]
    );
    let flipped = chain(translate(-55.0, 5.0, 6.0), rotate_x(-0.5));
    assert_eq!(build_inverse(&c), build(&flipped));
}

#[test]
fn inverse_of_step_chain_is_chain_of_inverted_steps() {
    let a = fwd(Primitive::RotateZ(0.7));
    let b = fwd(Primitive::Scale(2.0, 2.0, 2.0));
    let c = chain(a, b);
    assert_eq!(plan_inverse(&c), plan(&chain(b.inverted(), a.inverted())));
}

#[test]
fn round_trip_is_identity() {
    let t = combine(vec![
        leaf(Primitive::RotateX(0.5)),
        leaf(Primitive::Scale(2.0, 4.0, -2.0)),
        leaf(Primitive::Translate(55.0, -5.0, -6.0)),
        leaf(Primitive::RotateZ(-1.2)),
    ]);
    let mut steps = plan(&t);
    t.apply_inverse(&mut steps);
    assert_eq!(steps.len(), 8);
    for i in 0..4 {
        assert_eq!(steps[7 - i], steps[i].inverted());
    }
    // Offsets of 55 leave f32 rounding of a few units in 1e-6.
    close(&(build(&t) * build_inverse(&t)), &Mat4::IDENTITY, 0.0001);
    close(&product(&steps), &Mat4::IDENTITY, 0.0001);
}

#[test]
fn combine_single_is_unwrapped() {
    let t = combine(vec![leaf(Primitive::Translate(1.0, 2.0, 3.0))]);
    match &t {
        Transform::Leaf(p) => assert_eq!(*p, Primitive::Translate(1.0, 2.0, 3.0)),
        Transform::Chain(_, _) => panic!("a single transform is not wrapped"),
    }
    assert_eq!(build(&t), build(&translate(1.0, 2.0, 3.0)));
    assert_eq!(build_inverse(&t), build_inverse(&translate(1.0, 2.0, 3.0)));
}

#[test]
fn combine_is_left_fold() {
    let t = combine(vec![
        leaf(Primitive::RotateX(0.1)),
        leaf(Primitive::RotateY(0.2)),
        leaf(Primitive::RotateZ(0.3)),
    ]);
    match t {
        Transform::Chain(first, last) => {
            assert!(matches!(*last, Transform::Leaf(Primitive::RotateZ(_))));
            assert!(matches!(*first, Transform::Chain(_, _)));
        }
        Transform::Leaf(_) => panic!("three transforms make a chain"),
    }
}

#[test]
fn combine_of_two_matches_product() {
    let c = combine(vec![
        leaf(rotate_x(0.5).primitive()),
        leaf(translate(55.0, -5.0, -6.0).primitive()),
    ]);
    assert_eq!(build(&c), build(&rotate_x(0.5)) * build(&translate(55.0, -5.0, -6.0)));
}

#[test]
fn zero_scale_factor_is_reported_as_divisor() {
    let t = chain(rotate_x(0.5), scale(0.0, 1.0, 2.0));
    assert!(divisors_of(&plan(&t)).is_empty());
    assert_eq!(divisors_of(&plan_inverse(&t)), vec![(0.0, 1.0, 2.0)]);
    assert!(!build_inverse(&t).is_finite());
}

#[test]
fn divisors_are_inverted_scales_in_order() {
    let t = scale(2.0, 3.0, 4.0).chain(translate(1.0, 1.0, 1.0)).chain(scale(5.0, 6.0, 7.0));
    assert_eq!(
        divisors_of(&plan_inverse(&t)),
        vec![(5.0, 6.0, 7.0), (2.0, 3.0, 4.0)]
    );
}

#[test]
fn primitive_inverse_matrices() {
    let s = scale(2.0, 4.0, -2.0);
    assert_eq!(build_inverse(&s), build(&scale(0.5, 0.25, -0.5)));
    let t = translate(1.0, -2.0, 3.0);
    assert_eq!(build_inverse(&t), build(&translate(-1.0, 2.0, -3.0)));
    let r = rotate_y(0.4);
    assert_eq!(build_inverse(&r), build(&rotate_y(-0.4)));
    approx_eq(&(build(&r) * build_inverse(&r)), &Mat4::IDENTITY);
}

#[test]
fn empty_plan_is_identity() {
    let steps: Vec<Step<f32>> = Vec::new();
    assert_eq!(product(&steps), Mat4::IDENTITY);
    assert!(divisors_of(&steps).is_empty());
}

#[test]
fn step_inverted_twice_is_itself() {
    let s = fwd(Primitive::RotateX(0.25));
    assert_eq!(s.inverted(), inv(Primitive::RotateX(0.25)));
    assert_eq!(s.inverted().inverted(), s);
    assert_eq!(Step::forward(Primitive::RotateX(0.25)), s);
}
