//! Rotors of space: quaternions as a scalar and a three-component bivector.
use vstd::prelude::*;

use crate::matrix::{grid, ident_spec, Mat};
use crate::ortho::{lemma_ortho_shape, Ortho};
use crate::normal::{axis_spec, lemma_nrml_len, nrml_dot_spec, Nrml, OptionNrmlRelax};
use crate::rotor::{
    angle_axis_opt_spec, angle_axis_spec, angle_spec, from_torq_spec, ident_rot, part_spec,
    renormalize_spec, torq_spec, Rot, RotView,
};
use crate::traits::{clamp_spec, Field};
use crate::vector::{
    add_seq, all_zero, cross3_spec, dot_of, mul_seq, neg_seq, normal_spec,
    zeros, Vect,
};

verus! {

broadcast use lemma_nrml_len, lemma_ortho_shape;

/// A rotation of space: a scalar part `w` and a bivector of three components, with
/// `w² + |bivector|² = 1` up to rounding.
#[derive(Copy, Clone, Debug)]
pub struct Rot3<S>(S, Vect<3, S>);

impl<S> View for Rot3<S> {
    type V = RotView<S>;

    closed spec fn view(&self) -> RotView<S> {
        (self.0, self.1@)
    }
}

/// A space rotor's bivector has three components.
pub broadcast proof fn lemma_rot3_len<S>(r: Rot3<S>)
    ensures
        #[trigger] r@.1.len() == 3,
{
}

/// The image of `v` under the rotor `(w, b)`: `v * (w² - b·b) + (b * (b·v) + (b×v) * w) * 2`.
pub open spec fn apl3_spec<S: Field>(r: RotView<S>, v: Seq<S>) -> Seq<S> {
    let (w, b) = r;
    add_seq(
        mul_seq(v, S::sub_spec(S::pow_spec(w, 2), dot_of(b, b))),
        mul_seq(add_seq(mul_seq(b, dot_of(b, v)), mul_seq(cross3_spec(b, v), w)), S::two_spec()),
    )
}

/// The composition "`a` after `b`", before renormalisation:
/// `(wa*wb - ba·bb, (ba×bb + bb*wa) + ba*wb)`.
pub open spec fn aft3_raw<S: Field>(a: RotView<S>, b: RotView<S>) -> RotView<S> {
    (
        S::sub_spec(S::mul_spec(a.0, b.0), dot_of(a.1, b.1)),
        add_seq(add_seq(cross3_spec(a.1, b.1), mul_seq(b.1, a.0)), mul_seq(a.1, b.0)),
    )
}

/// The rotor "`a` after `b`", moved back onto the unit sphere.
pub open spec fn aft3_spec<S: Field>(a: RotView<S>, b: RotView<S>) -> RotView<S> {
    renormalize_spec(aft3_raw(a, b))
}

/// The rotor that carries the unit vector `f` onto the unit vector `t`: half the
/// turn of `(t·f, f×t)`; where `f` and `t` are parallel, the identity if they point
/// the same way, else a half turn about an axis orthogonal to `f`.
pub open spec fn from_to3_spec<S: Field>(f: Seq<S>, t: Seq<S>) -> RotView<S> {
    let d = nrml_dot_spec(t, f);
    let c = cross3_spec(f, t);
    if all_zero(c) {
        if S::lt_spec(S::zero_spec(), d) {
            ident_rot(3)
        } else {
            match normal_spec(cross3_spec(f, axis_spec::<S>(3, 0))) {
                Some(a) => (S::zero_spec(), a),
                None => (S::zero_spec(), axis_spec::<S>(3, 1)),
            }
        }
    } else {
        part_spec((d, c), S::half_spec())
    }
}

/// The rotation matrix of the rotor `(w, (x, y, z))`: the identity plus twice the
/// matrix of `w`, `x`, `y`, `z` given in the body.
pub open spec fn mat3_spec<S: Field>(r: RotView<S>) -> Seq<Seq<S>> {
    let w = r.0;
    let (x, y, z) = (r.1[0], r.1[1], r.1[2]);
    let sq = |a: S| S::pow_spec(a, 2);
    let m = seq![
        seq![
            S::neg_spec(S::add_spec(sq(y), sq(z))),
            S::sub_spec(S::mul_spec(x, y), S::mul_spec(z, w)),
            S::add_spec(S::mul_spec(z, x), S::mul_spec(y, w)),
        ],
        seq![
            S::add_spec(S::mul_spec(x, y), S::mul_spec(z, w)),
            S::neg_spec(S::add_spec(sq(z), sq(x))),
            S::sub_spec(S::mul_spec(y, z), S::mul_spec(x, w)),
        ],
        seq![
            S::sub_spec(S::mul_spec(z, x), S::mul_spec(y, w)),
            S::add_spec(S::mul_spec(y, z), S::mul_spec(x, w)),
            S::neg_spec(S::add_spec(sq(x), sq(y))),
        ],
    ];
    grid(
        3,
        3,
        |i: int, j: int|
            S::add_spec(
                ident_spec::<S>(3)[i][j],
                S::mul_spec(m[i][j], S::two_spec()),
            ),
    )
}

/// The rotation by `angle` about standard axis `k`: the cosine of `angle * 1/2` as
/// the scalar part, its sine as bivector component `k`, zero elsewhere.
pub open spec fn single_axis_spec<S: Field>(angle: S, k: int) -> RotView<S> {
    let half = S::mul_spec(angle, S::half_spec());
    (S::cos_spec(half), zeros::<S>(3).update(k, S::sin_spec(half)))
}

impl<S: Field> Rot3<S> {
    /// The rotor that does not rotate.
    pub fn ident() -> (r: Self)
        ensures
            r@ == ident_rot::<S>(3),
    {
        let r = Rot3(S::one(), Vect::zero());
        assert(r@.1 =~= zeros::<S>(3));
        r
    }

    /// The rotor with scalar part `w` and bivector `bi`, unchecked: the caller
    /// vouches that `w² + bi·bi = 1`.
    pub fn from_w_bi_unchecked(w: S, bi: Vect<3, S>) -> (r: Self)
        ensures
            r@ == (w, bi@),
    {
        Rot3(w, bi)
    }

    /// The scalar part.
    pub fn w(self) -> (r: S)
        ensures
            r == self@.0,
    {
        self.0
    }

    /// The bivector.
    pub fn bi(self) -> (r: Vect<3, S>)
        ensures
            r@ == self@.1,
    {
        self.1
    }

    fn renormalize(self) -> (r: Self)
        ensures
            r@ == renormalize_spec(self@),
    {
        let b = self.1.0;
        let v = Vect([self.0, b[0], b[1], b[2]]);
        assert(v@ =~= seq![self@.0] + self@.1);
        match v.normal() {
            Some(n) => {
                let a = n.array();
                let r = Rot3(a[0], Vect([a[1], a[2], a[3]]));
                assert(r@.1 =~= n@.subrange(1, 4));
                r
            },
            None => Self::ident(),
        }
    }

    /// The rotation by `angle` about the unit axis `axis`.
    pub fn angle_axis(angle: S, axis: Nrml<3, S>) -> (r: Self)
        ensures
            r@ == angle_axis_spec(angle, axis@),
    {
        let (sin, cos) = angle.mul(S::half()).sin_cos();
        Rot3(cos, axis.relax().mul(sin))
    }

    /// The rotation by `angle` about `axis`, or the identity where there is no axis.
    pub fn angle_axis_opt(angle: S, axis: Option<Nrml<3, S>>) -> (r: Self)
        ensures
            r@ == angle_axis_opt_spec(angle, axis.nrml_view(), 3),
    {
        match axis {
            Some(axis) => Self::angle_axis(angle, axis),
            None => Self::ident(),
        }
    }

    /// The angle of rotation, `2 * acos(w)` with `w` limited to `[-1, 1]`.
    pub fn angle(self) -> (r: S)
        ensures
            r == angle_spec(self@.0),
    {
        let w = self.0.clamp(S::one().neg(), S::one());
        S::two().mul(w.acos())
    }

    /// The unit axis of rotation; `None` for the identity.
    pub fn axis(self) -> (r: Option<Nrml<3, S>>)
        ensures
            r.nrml_view() == normal_spec(self@.1),
    {
        self.1.normal()
    }

    /// The unit axis of rotation, or zero for the identity.
    pub fn axis_or_zero(self) -> (r: Vect<3, S>)
        ensures
            r@ == (match normal_spec(self@.1) {
                Some(a) => a,
                None => zeros::<S>(3),
            }),
    {
        self.1.normal_or_zero()
    }

    /// The rotation vector: the unit axis times the angle.
    pub fn to_torq(self) -> (r: Vect<3, S>)
        ensures
            r@ == torq_spec(self@),
    {
        self.axis().relax_or_zero().mul(self.angle())
    }

    /// The rotor for a rotation vector, whose magnitude is the angle and whose
    /// direction is the axis; the identity where it has no direction.
    pub fn from_torq(torq: Vect<3, S>) -> (r: Self)
        ensures
            r@ == from_torq_spec(torq@),
    {
        match torq.magn_normal() {
            Some(p) => Self::angle_axis(p.0, p.1),
            None => Self::ident(),
        }
    }

    /// The rotation by `t` times this one's angle about the same axis.
    pub fn part(self, t: S) -> (r: Self)
        ensures
            r@ == part_spec(self@, t),
    {
        Self::angle_axis_opt(self.angle().mul(t), self.1.normal())
    }

    /// The inverse rotation: the same scalar part and the negated bivector.
    pub fn inv(self) -> (r: Self)
        ensures
            r@ == (self@.0, neg_seq(self@.1)),
    {
        Rot3(self.0, self.1.neg())
    }

    /// The image of `v`.
    pub fn apl(self, v: Vect<3, S>) -> (r: Vect<3, S>)
        ensures
            r@ == apl3_spec(self@, v@),
    {
        let (w, b) = (self.0, self.1);
        v.mul(w.pow(2).sub(b.dot(b))).add(b.mul(b.dot(v)).add(b.cross(v).mul(w)).mul(S::two()))
    }

    /// The image of a unit normal, normalised again; `None` where the image has no
    /// direction.
    pub fn apl_nrml(self, n: Nrml<3, S>) -> (r: Option<Nrml<3, S>>)
        ensures
            r.nrml_view() == normal_spec(apl3_spec(self@, n@)),
    {
        self.apl(n.relax()).normal()
    }

    /// The rotation that performs `other` first and then this one.
    pub fn aft(self, other: Self) -> (r: Self)
        ensures
            r@ == aft3_spec(self@, other@),
    {
        let w = self.0.mul(other.0).sub(self.1.dot(other.1));
        let b = self.1.cross(other.1).add(other.1.mul(self.0)).add(self.1.mul(other.0));
        Rot3(w, b).renormalize()
    }

    /// The rotation that performs this one first and then `other`.
    pub fn bef(self, other: Self) -> (r: Self)
        ensures
            r@ == aft3_spec(other@, self@),
    {
        other.aft(self)
    }

    /// The rotation that carries the unit vector `from` onto the unit vector `to`.
    pub fn from_to(from: Nrml<3, S>, to: Nrml<3, S>) -> (r: Self)
        ensures
            r@ == from_to3_spec(from@, to@),
    {
        let dot = to.dot(from);
        let cross = from.cross(to);
        if cross.is_zero() {
            if S::zero().lt(&dot) {
                return Self::ident();
            }
            match from.cross(Nrml::axis(0)).normal() {
                Some(axis) => {
                    return Rot3(S::zero(), axis.relax());
                },
                None => {
                    return Rot3(S::zero(), Vect::axis(1, S::one()));
                },
            }
        }
        Rot3(dot, cross).part(S::half())
    }

    /// As [`Rot3::from_to`], and the identity where either direction is missing.
    pub fn from_to_opt(from: Option<Nrml<3, S>>, to: Option<Nrml<3, S>>) -> (r: Self)
        ensures
            r@ == (match (from.nrml_view(), to.nrml_view()) {
                (Some(f), Some(t)) => from_to3_spec(f, t),
                _ => ident_rot::<S>(3),
            }),
    {
        match (from, to) {
            (Some(f), Some(t)) => Self::from_to(f, t),
            _ => Self::ident(),
        }
    }

    /// The equivalent rotation matrix.
    pub fn mat(self) -> (r: Mat<3, 3, S>)
        ensures
            r@ == mat3_spec(self@),
    {
        let w = self.0;
        let b = self.1.0;
        let (x, y, z) = (b[0], b[1], b[2]);
        let m = Mat(
            [
                [
                    y.pow(2).add(z.pow(2)).neg(),
                    x.mul(y).sub(z.mul(w)),
                    z.mul(x).add(y.mul(w)),
                ],
                [
                    x.mul(y).add(z.mul(w)),
                    z.pow(2).add(x.pow(2)).neg(),
                    y.mul(z).sub(x.mul(w)),
                ],
                [
                    z.mul(x).sub(y.mul(w)),
                    y.mul(z).add(x.mul(w)),
                    x.pow(2).add(y.pow(2)).neg(),
                ],
            ],
        );
        let r = Mat::ident().add(&m.scale(S::two()));
        assert(r@ =~~= mat3_spec(self@));
        r
    }

    /// The rotation by `angle` about the first axis.
    pub fn pitch(angle: S) -> (r: Self)
        ensures
            r@ == single_axis_spec(angle, 0),
    {
        let (sin, cos) = angle.mul(S::half()).sin_cos();
        let r = Rot3(cos, Vect::axis(0, sin));
        assert(r@.1 =~= zeros::<S>(3).update(0, sin));
        r
    }

    /// The rotation by `angle` about the second axis.
    pub fn yaw(angle: S) -> (r: Self)
        ensures
            r@ == single_axis_spec(angle, 1),
    {
        let (sin, cos) = angle.mul(S::half()).sin_cos();
        let r = Rot3(cos, Vect::axis(1, sin));
        assert(r@.1 =~= zeros::<S>(3).update(1, sin));
        r
    }

    /// The rotation by `angle` about the third axis.
    pub fn roll(angle: S) -> (r: Self)
        ensures
            r@ == single_axis_spec(angle, 2),
    {
        let (sin, cos) = angle.mul(S::half()).sin_cos();
        let r = Rot3(cos, Vect::axis(2, sin));
        assert(r@.1 =~= zeros::<S>(3).update(2, sin));
        r
    }
}


/// The three angles of a rotor `(w, (x, y, z))`:
/// `atan2(2(wy + zx), 1 - 2(y² + x²))`, `asin` of `2(wx - (y - z))` limited to
/// `[-1, 1]`, and `atan2(2(wz + xy), 1 - 2(z² + x²))`.
pub open spec fn euler_spec<S: Field>(r: RotView<S>) -> (S, S, S) {
    let w = r.0;
    let (x, y, z) = (r.1[0], r.1[1], r.1[2]);
    let (one, two) = (S::one_spec(), S::two_spec());
    let sq = |a: S| S::pow_spec(a, 2);
    (
        S::atan2_spec(
            S::mul_spec(two, S::add_spec(S::mul_spec(w, y), S::mul_spec(z, x))),
            S::sub_spec(one, S::mul_spec(two, S::add_spec(sq(y), sq(x)))),
        ),
        S::asin_spec(
            clamp_spec(
                S::mul_spec(two, S::sub_spec(S::mul_spec(w, x), S::sub_spec(y, z))),
                S::neg_spec(one),
                one,
            ),
        ),
        S::atan2_spec(
            S::mul_spec(two, S::add_spec(S::mul_spec(w, z), S::mul_spec(x, y))),
            S::sub_spec(one, S::mul_spec(two, S::add_spec(sq(z), sq(x)))),
        ),
    )
}

impl<S: Field> Rot3<S> {
    /// The three Euler angles of this rotation.
    pub fn euler_angles(self) -> (r: (S, S, S))
        ensures
            r == euler_spec(self@),
    {
        let w = self.0;
        let b = self.1.0;
        let (x, y, z) = (b[0], b[1], b[2]);
        let (one, two) = (S::one(), S::two());
        (
            S::atan2(
                two.mul(w.mul(y).add(z.mul(x))),
                one.sub(two.mul(y.pow(2).add(x.pow(2)))),
            ),
            two.mul(w.mul(x).sub(y.sub(z))).clamp(one.neg(), one).asin(),
            S::atan2(
                two.mul(w.mul(z).add(x.mul(y))),
                one.sub(two.mul(z.pow(2).add(x.pow(2)))),
            ),
        )
    }
}


/// The rotor that carries the standard axes onto the frame `o`: first the third
/// axis onto `o[2]`, then the image of the second axis onto `o[1]`.
pub open spec fn from_ortho3_spec<S: Field>(o: Seq<Seq<S>>) -> RotView<S> {
    let z = from_to3_spec(axis_spec::<S>(3, 2), o[2]);
    let y = match normal_spec(apl3_spec(z, axis_spec::<S>(3, 1))) {
        Some(a) => from_to3_spec(a, o[1]),
        None => ident_rot::<S>(3),
    };
    aft3_spec(y, z)
}

impl<S: Field> Rot3<S> {
    /// The rotation that carries the standard axes onto the frame `ortho`.
    pub fn from_ortho(ortho: Ortho<3, S>) -> (r: Self)
        ensures
            r@ == from_ortho3_spec(ortho@),
    {
        let z = Self::from_to(Nrml::axis(2), ortho.get(2));
        let y = Self::from_to_opt(z.apl_nrml(Nrml::axis(1)), Some(ortho.get(1)));
        z.bef(y)
    }
}


impl<S: Field> Rot<3, 3, S> for Rot3<S> {
    open spec fn rot_view(self) -> RotView<S> {
        self@
    }

    open spec fn apl_spec(r: RotView<S>, v: Seq<S>) -> Seq<S> {
        apl3_spec(r, v)
    }

    open spec fn aft_spec(a: RotView<S>, b: RotView<S>) -> RotView<S> {
        aft3_spec(a, b)
    }

    open spec fn from_to_spec(f: Seq<S>, t: Seq<S>) -> RotView<S> {
        from_to3_spec(f, t)
    }

    open spec fn from_ortho_spec(o: Seq<Seq<S>>) -> RotView<S> {
        from_ortho3_spec(o)
    }

    proof fn lemma_bivector_len(r: Self) {
    }

    fn w(self) -> (r: S) {
        Rot3::w(self)
    }

    fn bi(self) -> (r: Vect<3, S>) {
        Rot3::bi(self)
    }

    fn from_to(from: Nrml<3, S>, to: Nrml<3, S>) -> (r: Self) {
        Rot3::from_to(from, to)
    }

    fn from_ortho(ortho: Ortho<3, S>) -> (r: Self) {
        Rot3::from_ortho(ortho)
    }

    fn ident() -> (r: Self) {
        Rot3::ident()
    }

    fn from_w_bi_unchecked(w: S, bi: Vect<3, S>) -> (r: Self) {
        Rot3::from_w_bi_unchecked(w, bi)
    }

    fn angle_axis(angle: S, axis: Nrml<3, S>) -> (r: Self) {
        Rot3::angle_axis(angle, axis)
    }

    fn from_torq(torq: Vect<3, S>) -> (r: Self) {
        Rot3::from_torq(torq)
    }

    fn angle(self) -> (r: S) {
        Rot3::angle(self)
    }

    fn axis(self) -> (r: Option<Nrml<3, S>>) {
        Rot3::axis(self)
    }

    fn to_torq(self) -> (r: Vect<3, S>) {
        Rot3::to_torq(self)
    }

    fn part(self, t: S) -> (r: Self) {
        Rot3::part(self, t)
    }

    fn inv(self) -> (r: Self) {
        Rot3::inv(self)
    }

    fn apl(self, v: Vect<3, S>) -> (r: Vect<3, S>) {
        Rot3::apl(self, v)
    }

    fn aft(self, other: Self) -> (r: Self) {
        Rot3::aft(self, other)
    }
}


impl<S: Field> Default for Rot3<S> {
    /// The rotor that does not rotate.
    fn default() -> (r: Self)
        ensures
            r@ == ident_rot::<S>(3),
    {
        Rot3::ident()
    }
}

} // verus!
