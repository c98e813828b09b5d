//! Rotors of the plane: complex numbers as a scalar and a one-component bivector.
use vstd::prelude::*;

use crate::normal::{axis_spec, lemma_nrml_len, nrml_dot_spec, Nrml, OptionNrmlRelax};
use crate::ortho::{lemma_ortho_shape, Ortho};
use crate::rotor::rot3::Rot3;
use crate::rotor::{
    angle_axis_opt_spec, angle_axis_spec, angle_spec, from_torq_spec, ident_rot, part_spec,
    renormalize_spec, torq_spec, Rot, RotView,
};
use crate::traits::Field;
use crate::vector::{add_seq, all_zero, cross2_spec, dot_of, mul_seq, neg_seq, normal_spec, zeros, Vect};

verus! {

broadcast use lemma_nrml_len, lemma_ortho_shape;

/// A rotation of the plane: a scalar part `w` and a bivector of one component, with
/// `w² + bivector² = 1` up to rounding.
#[derive(Copy, Clone, Debug)]
pub struct Rot2<S>(S, Vect<1, S>);

impl<S> View for Rot2<S> {
    type V = RotView<S>;

    closed spec fn view(&self) -> RotView<S> {
        (self.0, self.1@)
    }
}

/// A plane rotor's bivector has one component.
pub broadcast proof fn lemma_rot2_len<S>(r: Rot2<S>)
    ensures
        #[trigger] r@.1.len() == 1,
{
}

/// `v` turned a quarter: `(-v[1], v[0])`.
pub open spec fn perp_spec<S: Field>(v: Seq<S>) -> Seq<S> {
    seq![S::neg_spec(v[1]), v[0]]
}

/// The image of `v` under the rotor `(w, b)`:
/// `v * (w² - b·b) + ((perp v * b[0]) * w) * 2`.
pub open spec fn apl2_spec<S: Field>(r: RotView<S>, v: Seq<S>) -> Seq<S> {
    let (w, b) = r;
    add_seq(
        mul_seq(v, S::sub_spec(S::pow_spec(w, 2), dot_of(b, b))),
        mul_seq(mul_seq(mul_seq(perp_spec(v), b[0]), w), S::two_spec()),
    )
}

/// The rotor "`a` after `b`", moved back onto the unit circle:
/// `(wa*wb - ba·bb, bb*wa + ba*wb)` renormalised.
pub open spec fn aft2_spec<S: Field>(a: RotView<S>, b: RotView<S>) -> RotView<S> {
    renormalize_spec(
        (
            S::sub_spec(S::mul_spec(a.0, b.0), dot_of(a.1, b.1)),
            add_seq(mul_seq(b.1, a.0), mul_seq(a.1, b.0)),
        ),
    )
}

/// The rotor that carries the unit vector `f` onto the unit vector `t`: half the
/// turn of `(t·f, f×t)`; where they are parallel, the identity if they point the
/// same way, else the half turn.
pub open spec fn from_to2_spec<S: Field>(f: Seq<S>, t: Seq<S>) -> RotView<S> {
    let d = nrml_dot_spec(t, f);
    let c = seq![cross2_spec(f, t)];
    if all_zero(c) {
        if S::lt_spec(S::zero_spec(), d) {
            ident_rot(1)
        } else {
            (S::zero_spec(), axis_spec::<S>(1, 0))
        }
    } else {
        part_spec((d, c), S::half_spec())
    }
}

impl<S: Field> Rot2<S> {
    /// The rotor that does not rotate.
    pub fn ident() -> (r: Self)
        ensures
            r@ == ident_rot::<S>(1),
    {
        Rot2(S::one(), Vect::zero())
    }

    /// The rotor with scalar part `w` and bivector `bi`, unchecked: the caller
    /// vouches that `w² + bi·bi = 1`.
    pub fn from_w_bi_unchecked(w: S, bi: Vect<1, S>) -> (r: Self)
        ensures
            r@ == (w, bi@),
    {
        Rot2(w, bi)
    }

    /// The scalar part.
    pub fn w(self) -> (r: S)
        ensures
            r == self@.0,
    {
        self.0
    }

    /// The bivector.
    pub fn bi(self) -> (r: Vect<1, S>)
        ensures
            r@ == self@.1,
    {
        self.1
    }

    fn renormalize(self) -> (r: Self)
        ensures
            r@ == renormalize_spec(self@),
    {
        let v = Vect([self.0, self.1.0[0]]);
        assert(v@ =~= seq![self@.0] + self@.1);
        match v.normal() {
            Some(n) => {
                let a = n.array();
                let r = Rot2(a[0], Vect([a[1]]));
                assert(r@.1 =~= n@.subrange(1, 2));
                r
            },
            None => Self::ident(),
        }
    }

    /// The rotation by `angle` about the unit bivector axis `axis`.
    pub fn angle_axis(angle: S, axis: Nrml<1, S>) -> (r: Self)
        ensures
            r@ == angle_axis_spec(angle, axis@),
    {
        let (sin, cos) = angle.mul(S::half()).sin_cos();
        Rot2(cos, axis.relax().mul(sin))
    }

    /// The rotation by `angle` about `axis`, or the identity where there is no axis.
    pub fn angle_axis_opt(angle: S, axis: Option<Nrml<1, S>>) -> (r: Self)
        ensures
            r@ == angle_axis_opt_spec(angle, axis.nrml_view(), 1),
    {
        match axis {
            Some(axis) => Self::angle_axis(angle, axis),
            None => Self::ident(),
        }
    }

    /// The counterclockwise rotation by `angle`.
    pub fn angle2(angle: S) -> (r: Self)
        ensures
            r@ == angle_axis_spec(angle, axis_spec::<S>(1, 0)),
    {
        Self::angle_axis(angle, Nrml::axis(0))
    }

    /// The angle of rotation, `2 * acos(w)` with `w` limited to `[-1, 1]`.
    pub fn angle(self) -> (r: S)
        ensures
            r == angle_spec(self@.0),
    {
        let w = self.0.clamp(S::one().neg(), S::one());
        S::two().mul(w.acos())
    }

    /// The angle with the sense of the bivector's sign, brought into `[-π, π)`:
    /// `rem_euclid(angle * axis + π, 2π) - π`.
    pub fn signed_angle(self) -> (r: S)
        ensures
            r == S::sub_spec(
                S::rem_euclid_spec(
                    S::add_spec(
                        S::mul_spec(
                            angle_spec(self@.0),
                            (match normal_spec(self@.1) {
                                Some(a) => a,
                                None => zeros::<S>(1),
                            })[0],
                        ),
                        S::pi_spec(),
                    ),
                    S::add_spec(S::pi_spec(), S::pi_spec()),
                ),
                S::pi_spec(),
            ),
    {
        let pi = S::pi();
        self.angle().mul(self.1.normal_or_zero().0[0]).add(pi).rem_euclid(pi.add(pi)).sub(pi)
    }

    /// The same rotation in space about `axis`: the scalar part kept, the bivector
    /// `axis` times this one's single component.
    pub fn lift(self, axis: Nrml<3, S>) -> (r: Rot3<S>)
        ensures
            r@ == (self@.0, mul_seq(axis@, self@.1[0])),
    {
        Rot3::from_w_bi_unchecked(self.0, axis.relax().mul(self.1.0[0]))
    }

    /// The unit bivector axis; `None` for the identity.
    pub fn axis(self) -> (r: Option<Nrml<1, S>>)
        ensures
            r.nrml_view() == normal_spec(self@.1),
    {
        self.1.normal()
    }

    /// The unit bivector axis, or zero for the identity.
    pub fn axis_or_zero(self) -> (r: Vect<1, S>)
        ensures
            r@ == (match normal_spec(self@.1) {
                Some(a) => a,
                None => zeros::<S>(1),
            }),
    {
        self.1.normal_or_zero()
    }

    /// The rotation vector: the unit bivector axis times the angle.
    pub fn to_torq(self) -> (r: Vect<1, S>)
        ensures
            r@ == torq_spec(self@),
    {
        self.axis().relax_or_zero().mul(self.angle())
    }

    /// The rotor for a rotation vector; the identity where it has no direction.
    pub fn from_torq(torq: Vect<1, S>) -> (r: Self)
        ensures
            r@ == from_torq_spec(torq@),
    {
        match torq.magn_normal() {
            Some(p) => Self::angle_axis(p.0, p.1),
            None => Self::ident(),
        }
    }

    /// The rotation by `t` times this one's angle in the same sense.
    pub fn part(self, t: S) -> (r: Self)
        ensures
            r@ == part_spec(self@, t),
    {
        Self::angle_axis_opt(self.angle().mul(t), self.1.normal())
    }

    /// The inverse rotation: the same scalar part and the negated bivector.
    pub fn inv(self) -> (r: Self)
        ensures
            r@ == (self@.0, neg_seq(self@.1)),
    {
        Rot2(self.0, self.1.neg())
    }

    /// The image of `v`.
    pub fn apl(self, v: Vect<2, S>) -> (r: Vect<2, S>)
        ensures
            r@ == apl2_spec(self@, v@),
    {
        let (w, b) = (self.0, self.1);
        let perp = Vect([v.0[1].neg(), v.0[0]]);
        assert(perp@ =~= perp_spec(v@));
        v.mul(w.pow(2).sub(b.dot(b))).add(perp.mul(b.0[0]).mul(w).mul(S::two()))
    }

    /// The image of a unit normal, normalised again; `None` where the image has no
    /// direction.
    pub fn apl_nrml(self, n: Nrml<2, S>) -> (r: Option<Nrml<2, S>>)
        ensures
            r.nrml_view() == normal_spec(apl2_spec(self@, n@)),
    {
        self.apl(n.relax()).normal()
    }

    /// The rotation that performs `other` first and then this one.
    pub fn aft(self, other: Self) -> (r: Self)
        ensures
            r@ == aft2_spec(self@, other@),
    {
        let w = self.0.mul(other.0).sub(self.1.dot(other.1));
        let b = other.1.mul(self.0).add(self.1.mul(other.0));
        Rot2(w, b).renormalize()
    }

    /// The rotation that performs this one first and then `other`.
    pub fn bef(self, other: Self) -> (r: Self)
        ensures
            r@ == aft2_spec(other@, self@),
    {
        other.aft(self)
    }

    /// As [`Rot2::from_to`], and the identity where either direction is missing.
    pub fn from_to_opt(from: Option<Nrml<2, S>>, to: Option<Nrml<2, S>>) -> (r: Self)
        ensures
            r@ == (match (from.nrml_view(), to.nrml_view()) {
                (Some(f), Some(t)) => from_to2_spec(f, t),
                _ => ident_rot::<S>(1),
            }),
    {
        match (from, to) {
            (Some(f), Some(t)) => Self::from_to(f, t),
            _ => Self::ident(),
        }
    }

    /// The rotation that carries the unit vector `from` onto the unit vector `to`.
    pub fn from_to(from: Nrml<2, S>, to: Nrml<2, S>) -> (r: Self)
        ensures
            r@ == from_to2_spec(from@, to@),
    {
        let dot = to.dot(from);
        let cross = from.cross(to);
        if cross.is_zero() {
            if S::zero().lt(&dot) {
                return Self::ident();
            }
            let r = Rot2(S::zero(), Vect::axis(0, S::one()));
            assert(r@.1 =~= axis_spec::<S>(1, 0));
            return r;
        }
        Rot2(dot, cross).part(S::half())
    }
}


impl<S: Field> Rot2<S> {
    /// The rotation that carries the second standard axis onto `ortho[1]`.
    pub fn from_ortho(ortho: Ortho<2, S>) -> (r: Self)
        ensures
            r@ == from_to2_spec(axis_spec::<S>(2, 1), ortho@[1]),
    {
        Self::from_to(Nrml::axis(1), ortho.get(1))
    }
}


impl<S: Field> Rot<2, 1, S> for Rot2<S> {
    open spec fn rot_view(self) -> RotView<S> {
        self@
    }

    open spec fn apl_spec(r: RotView<S>, v: Seq<S>) -> Seq<S> {
        apl2_spec(r, v)
    }

    open spec fn aft_spec(a: RotView<S>, b: RotView<S>) -> RotView<S> {
        aft2_spec(a, b)
    }

    open spec fn from_to_spec(f: Seq<S>, t: Seq<S>) -> RotView<S> {
        from_to2_spec(f, t)
    }

    open spec fn from_ortho_spec(o: Seq<Seq<S>>) -> RotView<S> {
        from_to2_spec(axis_spec::<S>(2, 1), o[1])
    }

    proof fn lemma_bivector_len(r: Self) {
    }

    fn w(self) -> (r: S) {
        Rot2::w(self)
    }

    fn bi(self) -> (r: Vect<1, S>) {
        Rot2::bi(self)
    }

    fn from_to(from: Nrml<2, S>, to: Nrml<2, S>) -> (r: Self) {
        Rot2::from_to(from, to)
    }

    fn from_ortho(ortho: Ortho<2, S>) -> (r: Self) {
        Rot2::from_ortho(ortho)
    }

    fn ident() -> (r: Self) {
        Rot2::ident()
    }

    fn from_w_bi_unchecked(w: S, bi: Vect<1, S>) -> (r: Self) {
        Rot2::from_w_bi_unchecked(w, bi)
    }

    fn angle_axis(angle: S, axis: Nrml<1, S>) -> (r: Self) {
        Rot2::angle_axis(angle, axis)
    }

    fn from_torq(torq: Vect<1, S>) -> (r: Self) {
        Rot2::from_torq(torq)
    }

    fn angle(self) -> (r: S) {
        Rot2::angle(self)
    }

    fn axis(self) -> (r: Option<Nrml<1, S>>) {
        Rot2::axis(self)
    }

    fn to_torq(self) -> (r: Vect<1, S>) {
        Rot2::to_torq(self)
    }

    fn part(self, t: S) -> (r: Self) {
        Rot2::part(self, t)
    }

    fn inv(self) -> (r: Self) {
        Rot2::inv(self)
    }

    fn apl(self, v: Vect<2, S>) -> (r: Vect<2, S>) {
        Rot2::apl(self, v)
    }

    fn aft(self, other: Self) -> (r: Self) {
        Rot2::aft(self, other)
    }
}


impl<S: Field> Default for Rot2<S> {
    /// The rotor that does not rotate.
    fn default() -> (r: Self)
        ensures
            r@ == ident_rot::<S>(1),
    {
        Rot2::ident()
    }
}

} // verus!
