use std::cmp::Ordering;

use geoalg::matrix::Mat;
use geoalg::normal::{Nrml, OptionNrmlRelax};
use geoalg::ortho::Ortho;
use geoalg::rigid::{LinAng3, Rig2, Rig3};
use geoalg::rotor::rot2::Rot2;
use geoalg::rotor::rot3::Rot3;
use geoalg::traits::{Field, Ring, Sc};
use geoalg::vector::Vect;

/// `f32` as a scalar of the library.
#[derive(Copy, Clone, Debug, PartialEq)]
struct F(f32);

fn float_cmp(a: f32, b: f32) -> Ordering {
    if let Some(cmp) = a.partial_cmp(&b) {
        return cmp;
    }
    if a.is_nan() {
        if b.is_nan() {
            return Ordering::Equal;
        }
        return Ordering::Less;
    }
    Ordering::Greater
}

impl Ring for F {
    fn zero_spec() -> F { F(0.0) }
    fn one_spec() -> F { F(1.0) }
    fn two_spec() -> F { F(2.0) }
    fn add_spec(a: F, b: F) -> F { a.add(b) }
    fn sub_spec(a: F, b: F) -> F { a.sub(b) }
    fn mul_spec(a: F, b: F) -> F { a.mul(b) }
    fn div_spec(a: F, b: F) -> F { a.div(b) }
    fn neg_spec(a: F) -> F { a.neg() }
    fn abs_spec(a: F) -> F { a.abs() }
    fn sign_spec(a: F) -> F { a.sign() }
    fn pow_spec(a: F, n: u32) -> F { a.pow(n) }
    fn rem_euclid_spec(a: F, b: F) -> F { a.rem_euclid(b) }
    fn max_spec(a: F, b: F) -> F { a.max(b) }
    fn min_spec(a: F, b: F) -> F { a.min(b) }
    fn lt_spec(a: F, b: F) -> bool { a.lt(&b) }
    fn cmp_spec(a: F, b: F) -> Ordering { float_cmp(a.0, b.0) }
    fn is_zero_spec(a: F) -> bool { a.is_zero() }
    fn is_nan_spec(a: F) -> bool { a.is_nan() }
    fn is_finite_spec(a: F) -> bool { a.is_finite() }
    fn lemma_unit_facts() {}
    fn lemma_finite_not_nan(_a: F) {}
    fn lemma_order(_a: F, _b: F, _c: F) {}
    fn zero() -> F { F(0.0) }
    fn one() -> F { F(1.0) }
    fn two() -> F { F(2.0) }
    fn add(self, o: F) -> F { F(self.0 + o.0) }
    fn sub(self, o: F) -> F { F(self.0 - o.0) }
    fn mul(self, o: F) -> F { F(self.0 * o.0) }
    fn div(self, o: F) -> F { F(self.0 / o.0) }
    fn neg(self) -> F { F(-self.0) }
    fn abs(self) -> F { F(self.0.abs()) }
    fn sign(self) -> F {
        match float_cmp(self.0, 0.0) {
            Ordering::Less => F(-1.0),
            Ordering::Equal => F(0.0),
            Ordering::Greater => F(1.0),
        }
    }
    fn pow(self, n: u32) -> F { F(self.0.powi(n as i32)) }
    fn rem_euclid(self, o: F) -> F { F(self.0.rem_euclid(o.0)) }
    fn max(self, o: F) -> F { F(self.0.max(o.0)) }
    fn min(self, o: F) -> F { F(self.0.min(o.0)) }
    fn lt(&self, o: &F) -> bool { self.0 < o.0 }
    fn cmp(&self, o: &F) -> Ordering { float_cmp(self.0, o.0) }
    fn is_zero(self) -> bool { self.0 == 0.0 }
    fn is_nan(self) -> bool { self.0.is_nan() }
    fn is_finite(self) -> bool { self.0.is_finite() }
}

impl Field for F {
    fn half_spec() -> F { F(0.5) }
    fn pi_spec() -> F { F(std::f32::consts::PI) }
    fn infinity_spec() -> F { F(f32::INFINITY) }
    fn sqrt_spec(a: F) -> F { a.sqrt() }
    fn exp_spec(a: F) -> F { a.exp() }
    fn sin_spec(a: F) -> F { a.sin() }
    fn cos_spec(a: F) -> F { a.cos() }
    fn tan_spec(a: F) -> F { a.tan() }
    fn ln_spec(a: F) -> F { a.ln() }
    fn asin_spec(a: F) -> F { a.asin() }
    fn acos_spec(a: F) -> F { a.acos() }
    fn atan_spec(a: F) -> F { a.atan() }
    fn atan2_spec(y: F, x: F) -> F { F::atan2(y, x) }
    fn lemma_sqrt_facts() {}
    fn half() -> F { F(0.5) }
    fn pi() -> F { F(std::f32::consts::PI) }
    fn infinity() -> F { F(f32::INFINITY) }
    fn sqrt(self) -> F { F(self.0.sqrt()) }
    fn exp(self) -> F { F(self.0.exp()) }
    fn sin(self) -> F { F(self.0.sin()) }
    fn cos(self) -> F { F(self.0.cos()) }
    fn tan(self) -> F { F(self.0.tan()) }
    fn sin_cos(self) -> (F, F) { (F(self.0.sin()), F(self.0.cos())) }
    fn ln(self) -> F { F(self.0.ln()) }
    fn asin(self) -> F { F(self.0.asin()) }
    fn acos(self) -> F { F(self.0.acos()) }
    fn atan(self) -> F { F(self.0.atan()) }
    fn atan2(y: F, x: F) -> F { F(y.0.atan2(x.0)) }
}

fn v3(x: f32, y: f32, z: f32) -> Vect<3, F> {
    Vect::new([F(x), F(y), F(z)])
}

fn n3(x: f32, y: f32, z: f32) -> Nrml<3, F> {
    v3(x, y, z).normal().unwrap()
}

fn dist3(a: Vect<3, F>, b: Vect<3, F>) -> f32 {
    a.sub(b).magn().0
}

fn close(a: f32, b: f32, tol: f32) -> bool {
    (a - b).abs() < tol
}

fn rotor_close(a: Rot3<F>, b: Rot3<F>, tol: f32) -> bool {
    close(a.w().0, b.w().0, tol) && dist3(a.bi(), b.bi()) < tol
}

fn some_rotors() -> Vec<Rot3<F>> {
    vec![
        Rot3::angle_axis(F(0.7), n3(1.0, 2.0, 3.0)),
        Rot3::angle_axis(F(2.9), n3(-0.3, 0.1, 0.9)),
        Rot3::angle_axis(F(5.5), n3(0.0, 0.0, 1.0)),
        Rot3::from_to(n3(1.0, 0.0, 0.0), n3(0.0, 1.0, 1.0)),
        Rot3::ident(),
    ]
}

#[test]
fn test_from_to() {
    let v1: Nrml<3, F> = v3(-2.34, 5.8, -0.8).normal().unwrap();
    let v2 = v3(-8.2, 1.1, 4.).normal().unwrap();

    let q = Rot3::from_to(v1, v2);
    let image = q.apl_nrml(v1).unwrap();
    let d = dist3(v2.relax(), image.relax());
    let v2 = format!("{:?}", v2.array());
    assert!(!(d > 0.0001), "{v2} != {}", format!("{:?}", image.array()));
}

#[test]
fn from_to_maps_from_onto_to() {
    let pairs = [
        (n3(1.0, 0.0, 0.0), n3(0.0, 0.0, 1.0)),
        (n3(0.3, -0.4, 0.5), n3(-0.2, 0.9, 0.1)),
        (n3(1.0, 1.0, 1.0), n3(1.0, 1.0, 1.0)),
        (n3(1.0, 0.0, 0.0), n3(-1.0, 0.0, 0.0)),
        (n3(0.0, 1.0, 0.0), n3(0.0, -1.0, 0.0)),
    ];
    for (a, b) in pairs {
        let r = Rot3::from_to(a, b);
        assert!(dist3(r.apl(a.relax()), b.relax()) < 1e-4);
    }
}

#[test]
fn from_to_in_the_plane() {
    let a = Vect::new([F(1.0), F(2.0)]).normal().unwrap();
    let b = Vect::new([F(-3.0), F(0.5)]).normal().unwrap();
    let r = Rot2::from_to(a, b);
    assert!(r.apl(a.relax()).sub(b.relax()).magn().0 < 1e-4);
    let opposite = Rot2::from_to(a, a.neg());
    assert!(opposite.apl(a.relax()).sub(a.neg().relax()).magn().0 < 1e-4);
}

#[test]
fn rotor_after_inverse_is_identity() {
    for r in some_rotors() {
        let id = r.aft(r.inv());
        assert!(close(id.w().0, 1.0, 1e-5));
        assert!(id.bi().magn().0 < 1e-5);
    }
}

#[test]
fn composition_matches_sequential_application() {
    let v = v3(0.4, -1.5, 2.2);
    for r1 in some_rotors() {
        for r2 in some_rotors() {
            let together = r1.aft(r2).apl(v);
            let in_turn = r1.apl(r2.apl(v));
            assert!(dist3(together, in_turn) < 1e-4);
            let before = r2.bef(r1).apl(v);
            assert!(dist3(before, in_turn) < 1e-4);
        }
    }
}

#[test]
fn angle_axis_recovers_angle() {
    for k in 1..20 {
        let theta = k as f32 * 0.3;
        let r = Rot3::angle_axis(F(theta), n3(0.2, -0.7, 0.4));
        let expected = theta.rem_euclid(2.0 * std::f32::consts::PI);
        assert!(close(r.angle().0, expected, 1e-3), "{} {}", r.angle().0, expected);
    }
}

#[test]
fn torque_round_trip() {
    for r in some_rotors() {
        let back = Rot3::from_torq(r.to_torq());
        assert!(rotor_close(back, r, 1e-4));
    }
    let r2 = Rot2::angle2(F(1.2));
    let back2 = Rot2::from_torq(r2.to_torq());
    assert!(close(back2.w().0, r2.w().0, 1e-5));
    assert!(close(back2.bi().x().0, r2.bi().x().0, 1e-5));
}

#[test]
fn torque_of_identity_is_zero() {
    let t = Rot3::<F>::ident().to_torq();
    assert_eq!(t.as_array(), [F(0.0), F(0.0), F(0.0)]);
    let r = Rot3::from_torq(t);
    assert_eq!(r.w(), F(1.0));
}

#[test]
fn frame_from_independent_vectors_is_orthonormal() {
    let inputs = vec![v3(1.0, 0.2, 0.0), v3(0.3, 1.0, 0.1), v3(0.2, 0.1, 1.0)];
    let o = Ortho::<3, F>::from_vects(&inputs);
    let m = o.as_rows();
    let mut t = [[F(0.0); 3]; 3];
    for i in 0..3 {
        for j in 0..3 {
            t[i][j] = m.get(j, i);
        }
    }
    let mtm = Mat::new(t).mul(&m);
    for i in 0..3 {
        for j in 0..3 {
            let expected = if i == j { 1.0 } else { 0.0 };
            assert!(close(mtm.get(i, j).0, expected, 1e-4));
        }
    }
    assert!(m.det().0 >= 0.0);
}

#[test]
fn frame_from_degenerate_input_is_completed() {
    let inputs = vec![v3(0.0, 0.0, 0.0), v3(0.0, 1.0, 0.0), v3(0.0, 2.0, 0.0)];
    let o = Ortho::<3, F>::from_vects(&inputs);
    let m = o.as_rows();
    assert_eq!(m.det(), F(1.0));
    assert_eq!(o.get(2).array(), [F(0.0), F(1.0), F(0.0)]);
    assert_eq!(o.get(1).array(), [F(1.0), F(0.0), F(0.0)]);
    assert_eq!(o.get(0).array(), [F(0.0), F(0.0), F(1.0)]);
    let flipped = Ortho::<3, F>::from_vects(&vec![v3(0.0, 0.0, 1.0)]);
    assert_eq!(flipped.as_rows().det(), F(1.0));
    let plane = Ortho::<2, F>::from_vects(&vec![]);
    assert_eq!(plane.as_rows().det(), F(1.0));
    assert_eq!(plane.get(0).array(), [F(1.0), F(0.0)]);
}

#[test]
fn frame_to_rotor() {
    let o = Ortho::<3, F>::from_vects(&vec![v3(0.0, 1.0, 1.0), v3(1.0, 0.0, 0.0)]);
    let r = Rot3::from_ortho(o);
    let same: Rot3<F> = o.rot();
    assert_eq!(same.w(), r.w());
    for k in 0..3 {
        let image = r.apl(Nrml::<3, F>::axis(k).relax());
        assert!(dist3(image, o.get(k).relax()) < 1e-4);
    }
    let p = Ortho::<2, F>::from_vects(&vec![Vect::new([F(1.0), F(1.0)])]);
    let r2 = Rot2::from_ortho(p);
    let image = r2.apl(Nrml::<2, F>::axis(1).relax());
    assert!(image.sub(p.get(1).relax()).magn().0 < 1e-4);
}

#[test]
fn identity_inverse_is_identity() {
    assert_eq!(Mat::<3, 3, F>::ident().inverse().0, Mat::<3, 3, F>::ident().0);
    assert_eq!(Mat::<1, 1, F>::ident().inverse().0, [[F(1.0)]]);
    assert_eq!(Mat::<0, 0, F>::ident().inverse().0.len(), 0);
}

#[test]
fn inverse_times_matrix_is_identity() {
    let m = Mat::new([[F(2.0), F(0.0), F(1.0)], [F(1.0), F(3.0), F(2.0)], [F(1.0), F(1.0), F(2.0)]]);
    let p = m.inverse().mul(&m);
    for i in 0..3 {
        for j in 0..3 {
            let expected = if i == j { 1.0 } else { 0.0 };
            assert!(close(p.get(i, j).0, expected, 1e-5));
        }
    }
    let needs_pivot = Mat::new([[F(0.0), F(1.0)], [F(1.0), F(0.0)]]);
    assert_eq!(needs_pivot.inverse().0, [[F(0.0), F(1.0)], [F(1.0), F(0.0)]]);
}

#[test]
fn singular_inverse_is_not_finite() {
    let m = Mat::new([[F(1.0), F(2.0)], [F(2.0), F(4.0)]]);
    let inv = m.inverse();
    assert!(!Vect::new(inv.0[0]).is_finite() || !Vect::new(inv.0[1]).is_finite());
}

#[test]
fn determinants() {
    let m = Mat::new([[F(2.0), F(0.0), F(1.0)], [F(1.0), F(3.0), F(2.0)], [F(1.0), F(1.0), F(2.0)]]);
    assert_eq!(m.det(), F(6.0));
    assert_eq!(Mat::new([[F(3.0), F(1.0)], [F(4.0), F(2.0)]]).det(), F(2.0));
    assert_eq!(Mat::new([[F(-7.0)]]).det(), F(-7.0));
}

#[test]
fn zero_has_no_normal_and_axis_is_its_own_normal() {
    assert!(Vect::<3, F>::zero().normal().is_none());
    let axis = Vect::<3, F>::axis(0, F(1.0));
    assert_eq!(axis.normal().unwrap().array(), axis.as_array());
    assert_eq!(Vect::<3, F>::zero().normal_or_zero().as_array(), [F(0.0); 3]);
}

#[test]
fn normal_of_nan_is_none() {
    assert!(v3(1.0, f32::NAN, 0.0).normal().is_none());
    assert!(v3(f32::NAN, f32::INFINITY, 0.0).divide_by_infinity().is_none());
}

#[test]
fn infinite_vector_points_along_infinite_axes() {
    let (m, n) = v3(f32::INFINITY, 5.0, f32::NEG_INFINITY).magn_normal().unwrap();
    assert_eq!(m, F(f32::INFINITY));
    let h = std::f32::consts::FRAC_1_SQRT_2;
    assert!(close(n.x().0, h, 1e-6) && n.y().0 == 0.0 && close(n.z().0, -h, 1e-6));
    let d = v3(0.0, f32::NEG_INFINITY, 0.0).divide_by_infinity().unwrap();
    assert_eq!(d.as_array(), [F(0.0), F(-1.0), F(0.0)]);
}

#[test]
fn magnitude_and_direction() {
    let (m, n) = v3(3.0, 0.0, 4.0).magn_normal_or_zero();
    assert_eq!(m, F(5.0));
    assert_eq!(n.as_array(), [F(0.6), F(0.0), F(0.8)]);
    let (z, zn) = Vect::<2, F>::zero().magn_normal_or_zero();
    assert_eq!(z, F(0.0));
    assert_eq!(zn.as_array(), [F(0.0); 2]);
}

#[test]
fn vector_arithmetic() {
    let a = v3(1.0, 2.0, 3.0);
    let b = v3(4.0, -5.0, 6.0);
    assert_eq!(a.add(b).as_array(), [F(5.0), F(-3.0), F(9.0)]);
    assert_eq!(a.sub(b).as_array(), [F(-3.0), F(7.0), F(-3.0)]);
    assert_eq!(a.neg().as_array(), [F(-1.0), F(-2.0), F(-3.0)]);
    assert_eq!(a.mul(F(2.0)).as_array(), [F(2.0), F(4.0), F(6.0)]);
    assert_eq!(b.div(F(2.0)).as_array(), [F(2.0), F(-2.5), F(3.0)]);
    assert_eq!(a.scale(b).as_array(), [F(4.0), F(-10.0), F(18.0)]);
    assert_eq!(a.dot(b), F(12.0));
    assert_eq!(a.sqr_magn(), F(14.0));
    assert_eq!(a.cross(b).as_array(), [F(27.0), F(6.0), F(-13.0)]);
    let p = Vect::new([F(1.0), F(0.0)]).cross(Vect::new([F(0.0), F(1.0)]));
    assert_eq!(p.as_array(), [F(1.0)]);
    assert_eq!(Vect::<3, F>::splat(F(7.0)).as_array(), [F(7.0); 3]);
    assert_eq!(Vect::<4, F>::axis(2, F(3.0)).as_array(), [F(0.0), F(0.0), F(3.0), F(0.0)]);
    assert_eq!(Vect::<3, F>::from_fn(|i| F(i as f32 * 2.0)).as_array(), [F(0.0), F(2.0), F(4.0)]);
    assert_eq!(a.map(|x: F| F(x.0 + 1.0)).as_array(), [F(2.0), F(3.0), F(4.0)]);
    assert_eq!(a.swiz(|[x, y, z]| [z, y, x]).as_array(), [F(3.0), F(2.0), F(1.0)]);
}

#[test]
fn zero_extension_inserts_zeros() {
    let a = v3(1.0, 2.0, 3.0);
    let e: Vect<5, F> = a.zero_extend(1);
    assert_eq!(e.as_array(), [F(1.0), F(0.0), F(0.0), F(2.0), F(3.0)]);
    let f: Vect<4, F> = a.zero_extend(3);
    assert_eq!(f.as_array(), [F(1.0), F(2.0), F(3.0), F(0.0)]);
}

#[test]
fn linear_combination_sums_scaled_terms() {
    let r = Vect::linear_combination([(v3(1.0, 0.0, 2.0), F(2.0)), (v3(0.0, 1.0, 1.0), F(-1.0))]);
    assert_eq!(r.as_array(), [F(2.0), F(-1.0), F(3.0)]);
}

#[test]
fn projection_rejection_reflection() {
    let a = v3(3.0, 4.0, 5.0);
    let x = Nrml::<3, F>::axis(0);
    assert_eq!(a.proj(x).as_array(), [F(3.0), F(0.0), F(0.0)]);
    assert_eq!(a.rej(x).as_array(), [F(0.0), F(4.0), F(5.0)]);
    assert_eq!(a.refl(x).as_array(), [F(-3.0), F(4.0), F(5.0)]);
    let (p, q) = a.proj_rej(x);
    assert_eq!(p.add(q).as_array(), a.as_array());
    let line = v3(0.0, 2.0, 0.0);
    assert_eq!(a.proj_vect(line).as_array(), [F(0.0), F(4.0), F(0.0)]);
    assert_eq!(a.rej_vect(line).as_array(), [F(3.0), F(0.0), F(5.0)]);
    assert_eq!(a.refl_vect(line).as_array(), [F(3.0), F(-4.0), F(5.0)]);
    assert_eq!(a.proj_vect(Vect::zero()).as_array(), [F(0.0); 3]);
}

#[test]
fn normal_dot_is_limited() {
    let n = n3(0.1, 0.7, -0.3);
    let d = n.dot(n);
    assert!(d.0 <= 1.0 && d.0 > 0.9999);
    assert!(n.dot(n.neg()).0 >= -1.0);
    assert_eq!(n.angle_to(n), F(d.0.acos()));
    let x = Nrml::<3, F>::axis(0);
    let y = Nrml::<3, F>::axis(1);
    assert_eq!(x.cross(y).as_array(), [F(0.0), F(0.0), F(1.0)]);
    assert_eq!(x.dot_vect(v3(2.0, 3.0, 4.0)), F(2.0));
    assert!(close(x.angle_to(y).0, std::f32::consts::FRAC_PI_2, 1e-6));
    assert_eq!(Nrml::restrict(Vect::<3, F>::zero()).is_none(), true);
    let none: Option<Nrml<3, F>> = None;
    assert_eq!(none.relax_or(v3(1.0, 1.0, 1.0)).as_array(), [F(1.0); 3]);
    assert_eq!(none.relax_or_zero().as_array(), [F(0.0); 3]);
    assert_eq!(Some(x).relax_or_zero().as_array(), [F(1.0), F(0.0), F(0.0)]);
}

#[test]
fn matrix_products_and_entries() {
    let a = Mat::new([[F(1.0), F(2.0)], [F(3.0), F(4.0)]]);
    let b = Mat::new([[F(0.0), F(1.0)], [F(1.0), F(0.0)]]);
    assert_eq!(a.mul(&b).0, [[F(2.0), F(1.0)], [F(4.0), F(3.0)]]);
    assert_eq!(a.mul_vect(Vect::new([F(1.0), F(1.0)])).as_array(), [F(3.0), F(7.0)]);
    assert_eq!(Vect::new([F(1.0), F(1.0)]).mul_mat(&a).as_array(), [F(4.0), F(6.0)]);
    assert_eq!(a.add(&b).0, [[F(1.0), F(3.0)], [F(4.0), F(4.0)]]);
    assert_eq!(a.sub(&b).0, [[F(1.0), F(1.0)], [F(2.0), F(4.0)]]);
    assert_eq!(a.neg().0, [[F(-1.0), F(-2.0)], [F(-3.0), F(-4.0)]]);
    assert_eq!(a.scale(F(2.0)).0, [[F(2.0), F(4.0)], [F(6.0), F(8.0)]]);
    assert_eq!(a.row(1).as_array(), [F(3.0), F(4.0)]);
    assert_eq!(a.col(1).as_array(), [F(2.0), F(4.0)]);
    assert_eq!(a.try_index(1, 0), Some(F(3.0)));
    assert_eq!(a.try_index(2, 0), None);
    assert_eq!(a.try_index(0, 2), None);
    assert_eq!(Mat::<2, 3, F>::zero().0, [[F(0.0); 3]; 2]);
    let g = Mat::<2, 3, F>::from_fn(|i, j| F((i * 3 + j) as f32));
    assert_eq!(g.0, [[F(0.0), F(1.0), F(2.0)], [F(3.0), F(4.0), F(5.0)]]);
}

#[test]
fn homogeneous_matrices() {
    let l = Mat::new([[F(1.0), F(2.0), F(3.0)], [F(4.0), F(5.0), F(6.0)], [F(7.0), F(8.0), F(9.0)]]);
    let t = v3(10.0, 11.0, 12.0);
    let h = Mat::affine(l, t);
    assert_eq!(h.0[0], [F(1.0), F(2.0), F(3.0), F(10.0)]);
    assert_eq!(h.0[3], [F(0.0), F(0.0), F(0.0), F(1.0)]);
    assert_eq!(Mat::linear(l).0[1], [F(4.0), F(5.0), F(6.0), F(0.0)]);
    assert_eq!(Mat::translation(t).0[2], [F(0.0), F(0.0), F(1.0), F(12.0)]);
    assert_eq!(Mat::uniform_scale(F(3.0)).0[1], [F(0.0), F(3.0), F(0.0), F(0.0)]);
    let flat = h.flatten();
    assert_eq!(flat[3], F(0.0));
    assert_eq!(flat[12], F(10.0));
    let p = Vect::point(t).mul_mat(&Mat::<4, 4, F>::ident());
    assert_eq!(p.as_array(), [F(10.0), F(11.0), F(12.0), F(1.0)]);
    let q = Vect::point_at_inf(Nrml::<3, F>::axis(1));
    assert_eq!(q.as_array(), [F(0.0), F(1.0), F(0.0), F(0.0)]);
    let proj = Mat::perspective_projection(F(2.0), F(std::f32::consts::FRAC_PI_2), F(1.0), F(3.0));
    assert!(close(proj.get(0, 0).0, 0.5, 1e-6));
    assert!(close(proj.get(2, 2).0, -1.5, 1e-6));
    assert!(close(proj.get(2, 3).0, -1.5, 1e-6));
    assert_eq!(proj.get(3, 2), F(-1.0));
}

#[test]
fn rotor_matrix_matches_application() {
    let r = Rot3::angle_axis(F(1.1), n3(0.3, 0.5, -0.2));
    let v = v3(1.0, -2.0, 0.5);
    let by_matrix = r.mat().mul_vect(v);
    assert!(dist3(by_matrix, r.apl(v)) < 1e-5);
    let h = Rig3::new(v3(1.0, 2.0, 3.0), r).to_hmat();
    assert!(h.get(0, 3) == F(1.0) && h.get(3, 3) == F(1.0));
}

#[test]
fn single_axis_rotors_and_euler_angles() {
    let (a, b, c) = Rot3::pitch(F(0.3)).euler_angles();
    assert!(close(a.0, 0.0, 1e-6) && close(b.0, 0.3, 1e-5) && close(c.0, 0.0, 1e-6));
    let y = Rot3::yaw(F(0.4));
    assert!(dist3(y.apl(v3(0.0, 1.0, 0.0)), v3(0.0, 1.0, 0.0)) < 1e-6);
    let z = Rot3::roll(F(std::f32::consts::FRAC_PI_2));
    assert!(dist3(z.apl(v3(1.0, 0.0, 0.0)), v3(0.0, 1.0, 0.0)) < 1e-6);
}

#[test]
fn plane_rotor_angles() {
    let r = Rot2::angle2(F(-0.5));
    assert!(close(r.angle().0, 0.5, 1e-5));
    assert!(close(r.signed_angle().0, -0.5, 1e-5));
    let q = Rot2::angle2(F(std::f32::consts::FRAC_PI_2));
    let image = q.apl(Vect::new([F(1.0), F(0.0)]));
    assert!(image.sub(Vect::new([F(0.0), F(1.0)])).magn().0 < 1e-6);
    let half = q.part(F(0.5));
    assert!(close(half.angle().0, std::f32::consts::FRAC_PI_4, 1e-5));
    let lifted = q.lift(Nrml::<3, F>::axis(2));
    assert!(dist3(lifted.apl(v3(1.0, 0.0, 0.0)), v3(0.0, 1.0, 0.0)) < 1e-6);
    assert_eq!(Rot2::<F>::ident().axis().is_none(), true);
    assert_eq!(q.axis_or_zero().as_array(), [F(1.0)]);
    let both = q.aft(q.inv());
    assert!(close(both.w().0, 1.0, 1e-6));
    let n = Vect::new([F(1.0), F(0.0)]).normal().unwrap();
    let turned = q.apl_nrml(n).unwrap();
    assert!(close(turned.y().0, 1.0, 1e-6));
}

#[test]
fn rotor_parts_and_axes() {
    let r = Rot3::angle_axis(F(1.0), n3(0.0, 0.0, 1.0));
    assert!(close(r.part(F(0.5)).angle().0, 0.5, 1e-5));
    assert!(dist3(r.axis().unwrap().relax(), v3(0.0, 0.0, 1.0)) < 1e-6);
    assert!(dist3(r.axis_or_zero(), v3(0.0, 0.0, 1.0)) < 1e-6);
    assert!(Rot3::<F>::ident().axis().is_none());
    let opt = Rot3::angle_axis_opt(F(1.0), None);
    assert_eq!(opt.w(), F(1.0));
    let same = Rot3::from_to_opt(None, Some(n3(1.0, 0.0, 0.0)));
    assert_eq!(same.w(), F(1.0));
}

#[test]
fn rigid_motions() {
    let r = Rig3::new(v3(1.0, -2.0, 0.5), Rot3::angle_axis(F(0.8), n3(1.0, 1.0, 0.0)));
    let s = Rig3::new(v3(0.0, 3.0, 1.0), Rot3::pitch(F(0.3)));
    let p = v3(0.7, 0.2, -1.1);
    assert!(dist3(r.aft(s).apl(p), r.apl(s.apl(p))) < 1e-4);
    assert!(dist3(r.bef(s).apl(p), s.apl(r.apl(p))) < 1e-4);
    assert!(dist3(r.inv().apl(r.apl(p)), p) < 1e-4);
    assert!(dist3(Rig3::ident().apl(p), p) < 1e-6);
    assert!(dist3(Rig3::trans(v3(1.0, 1.0, 1.0)).apl(p), v3(1.7, 1.2, -0.1)) < 1e-6);
    assert!(dist3(Rig3::rot(Rot3::ident()).apl_nrml(n3(0.0, 1.0, 0.0)), v3(0.0, 1.0, 0.0)) < 1e-6);
    let q = Rig2::new(Vect::new([F(1.0), F(0.0)]), Rot2::angle2(F(0.5)));
    let x = Vect::new([F(2.0), F(-1.0)]);
    assert!(q.inv().apl(q.apl(x)).sub(x).magn().0 < 1e-5);
    assert!(q.aft(Rig2::ident()).apl(x).sub(q.apl(x)).magn().0 < 1e-6);
    assert!(Rig2::trans(Vect::new([F(1.0), F(1.0)])).rot.angle().0 == 0.0);
    let la = LinAng3::new(v3(1.0, 0.0, 0.0), v3(0.0, 0.0, 0.0)).add(LinAng3::zero()).mul(F(2.0));
    let rig = la.rig();
    assert!(dist3(rig.apl(p), p.add(v3(2.0, 0.0, 0.0))) < 1e-6);
    assert_eq!(la.div(F(2.0)).sub(la).lin.as_array(), [F(-1.0), F(0.0), F(0.0)]);
}

#[test]
fn boolean_scalars() {
    let a = Vect::new([true, false, true]);
    let b = Vect::new([true, true, false]);
    assert_eq!(a.add(b).as_array(), [true, true, true]);
    assert_eq!(a.scale(b).as_array(), [true, false, false]);
    assert_eq!(a.dot(b), true);
    assert_eq!(Vect::new([false, true]).dot(Vect::new([true, false])), false);
    assert_eq!(Ring::clamp(true, false, false), false);
    assert_eq!(Mat::new([[true, false], [false, true]]).det(), true);
}

#[test]
fn scalar_wrapper() {
    let x = Sc(F(2.0));
    assert_eq!(x.pow(3).0, F(8.0));
    assert_eq!(x.add(Sc(F(1.0))).mul(Sc(F(2.0))).sub(Sc(F(1.0))).div(Sc(F(5.0))).0, F(1.0));
    assert_eq!(x.neg().0, F(-2.0));
    assert_eq!(x.max(Sc(F(3.0))).0, F(3.0));
    assert_eq!(x.min(Sc(F(3.0))).0, F(2.0));
    assert_eq!(Sc(F(5.0)).clamp(Sc(F(-1.0)), Sc(F(1.0))).0, F(1.0));
    assert_eq!(Sc(F(-5.0)).clamp(Sc(F(-1.0)), Sc(F(1.0))).0, F(-1.0));
    assert_eq!(Sc(F(0.5)).clamp(Sc(F(-1.0)), Sc(F(1.0))).0, F(0.5));
    assert_eq!(Sc(F(4.0)).sqrt().0, F(2.0));
    assert_eq!(Sc(F(0.0)).exp().0, F(1.0));
    assert_eq!(Sc(F(1.0)).ln().0, F(0.0));
    assert_eq!(Sc(F(0.0)).sin().0, F(0.0));
    assert_eq!(Sc(F(0.0)).cos().0, F(1.0));
    assert_eq!(Sc(F(0.0)).tan().0, F(0.0));
    let (s, c) = Sc(F(0.0)).sin_cos();
    assert_eq!((s.0, c.0), (F(0.0), F(1.0)));
    assert_eq!(Sc(F(0.0)).asin().0, F(0.0));
    assert_eq!(Sc(F(1.0)).acos().0, F(0.0));
    assert_eq!(Sc(F(0.0)).atan().0, F(0.0));
    assert_eq!(Sc::atan2(Sc(F(0.0)), Sc(F(1.0))).0, F(0.0));
}

#[test]
fn defaults_and_sums() {
    assert_eq!(Vect::<3, F>::default(), Vect::zero());
    assert_eq!(Mat::<2, 2, F>::default(), Mat::zero());
    assert_eq!(Rot3::<F>::default().w(), F(1.0));
    assert_eq!(Rot2::<F>::default().bi().as_array(), [F(0.0)]);
    let frame = Ortho::<3, F>::default();
    assert_eq!(frame.get(0), Nrml::axis(0));
    assert_eq!(frame.get(2), Nrml::axis(2));
    let rig: Rig3<F> = Rig3::default();
    assert_eq!(rig.trans, Vect::zero());
    let total = Vect::sum(&[v3(1.0, 2.0, 3.0), v3(-1.0, 0.5, 1.0), v3(0.0, 0.0, 2.0)]);
    assert_eq!(total, v3(0.0, 2.5, 6.0));
    assert_eq!(Vect::<2, F>::sum(&[]), Vect::zero());
}

#[test]
fn overflowing_magnitude_has_no_direction() {
    let big = v3(3.0e38, 3.0e38, 0.0);
    assert!(big.is_finite());
    assert!(big.magn_normal().is_none());
    assert!(big.normal().is_none());
    assert_eq!(big.normal_or_zero().as_array(), [F(0.0); 3]);
}

#[test]
fn clamp_stays_within_bounds() {
    let (lo, hi) = (F(-1.0), F(1.0));
    assert_eq!(Ring::clamp(F(f32::NAN), lo, hi), lo);
    assert_eq!(Ring::clamp(F(3.0), lo, hi), hi);
    assert_eq!(Ring::clamp(F(-3.0), lo, hi), lo);
    assert_eq!(Ring::clamp(F(0.25), lo, hi), F(0.25));
    assert_eq!(Sc(F(f32::NAN)).clamp(Sc(lo), Sc(hi)).0, lo);
    assert!(!F(f32::NAN).is_finite());
}

#[test]
fn normal_dot_limits_both_ends() {
    let a = Nrml::new_unchecked([F(1.5)]);
    let b = Nrml::new_unchecked([F(-1.0)]);
    assert_eq!(a.dot(b), F(-1.0));
    assert_eq!(a.dot(a), F(1.0));
    assert_eq!(b.dot(b), F(1.0));
    assert_eq!(Nrml::new_unchecked([F(0.5)]).dot(b), F(-0.5));
}

#[test]
fn identity_determinants_are_one() {
    assert_eq!(Mat::<1, 1, F>::ident().det(), F(1.0));
    assert_eq!(Mat::<2, 2, F>::ident().det(), F(1.0));
    assert_eq!(Mat::<3, 3, F>::ident().det(), F(1.0));
}

#[test]
fn frames_on_a_line() {
    let flipped = Ortho::<1, F>::from_vects(&vec![Vect::new([F(-3.0)])]);
    assert_eq!(flipped.get(0).array(), [F(1.0)]);
    let empty = Ortho::<1, F>::from_vects(&vec![Vect::zero()]);
    assert_eq!(empty.get(0).array(), [F(1.0)]);
}

#[test]
fn plane_from_to_with_missing_direction() {
    let a = Vect::new([F(0.0), F(1.0)]).normal();
    assert_eq!(Rot2::from_to_opt(a, None).w(), F(1.0));
    let b = Vect::new([F(1.0), F(0.0)]).normal();
    let r = Rot2::from_to_opt(a, b);
    assert!(r.apl(a.unwrap().relax()).sub(b.unwrap().relax()).magn().0 < 1e-6);
}
