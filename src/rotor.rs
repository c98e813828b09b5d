//! Rotors: rotations as a scalar part and a bivector, in the plane and in space.
use vstd::prelude::*;

use crate::normal::{Nrml, OptionNrmlRelax};
use crate::ortho::Ortho;
use crate::traits::{clamp_spec, Field};
use crate::vector::{magn_normal_spec, mul_seq, neg_seq, normal_spec, zeros, Vect};

pub mod rot2;
pub mod rot3;

verus! {

/// A rotor's scalar part and bivector: the rotation by `θ` about a unit axis `a`
/// is `(cos(θ/2), a * sin(θ/2))`.
pub type RotView<S> = (S, Seq<S>);

/// The rotor that turns by `angle` about the unit axis `axis`: the sine and cosine
/// of `angle * 1/2` give the bivector and the scalar part.
pub open spec fn angle_axis_spec<S: Field>(angle: S, axis: Seq<S>) -> RotView<S> {
    let half = S::mul_spec(angle, S::half_spec());
    (S::cos_spec(half), mul_seq(axis, S::sin_spec(half)))
}

/// The identity rotor of a bivector of `k` components.
pub open spec fn ident_rot<S: Field>(k: nat) -> RotView<S> {
    (S::one_spec(), zeros::<S>(k))
}

/// As [`angle_axis_spec`], and the identity where there is no axis.
pub open spec fn angle_axis_opt_spec<S: Field>(angle: S, axis: Option<Seq<S>>, k: nat) -> RotView<S> {
    match axis {
        Some(a) => angle_axis_spec(angle, a),
        None => ident_rot(k),
    }
}

/// The angle of a rotor with scalar part `w`: `2 * acos(w)`, with `w` first limited
/// to `[-1, 1]`.
pub open spec fn angle_spec<S: Field>(w: S) -> S {
    S::mul_spec(S::two_spec(), S::acos_spec(clamp_spec(w, S::neg_spec(S::one_spec()), S::one_spec())))
}

/// The rotor for `t` times the angle of `r` about the same axis.
pub open spec fn part_spec<S: Field>(r: RotView<S>, t: S) -> RotView<S> {
    angle_axis_opt_spec(
        S::mul_spec(angle_spec(r.0), t),
        normal_spec(r.1),
        r.1.len(),
    )
}

/// The rotation vector: the unit axis times the angle, or zero where there is no axis.
pub open spec fn torq_spec<S: Field>(r: RotView<S>) -> Seq<S> {
    match normal_spec(r.1) {
        Some(a) => mul_seq(a, angle_spec(r.0)),
        None => mul_seq(zeros::<S>(r.1.len()), angle_spec(r.0)),
    }
}

/// The rotor for a rotation vector: its direction is the axis and its magnitude
/// the angle; the identity where it has no direction.
pub open spec fn from_torq_spec<S: Field>(torq: Seq<S>) -> RotView<S> {
    match magn_normal_spec(torq) {
        Some(p) => angle_axis_spec(p.0, p.1),
        None => ident_rot(torq.len()),
    }
}

/// `r` moved back onto the unit sphere: `(w, bivector)` normalised as one vector,
/// or the identity where that vector has no direction.
pub open spec fn renormalize_spec<S: Field>(r: RotView<S>) -> RotView<S> {
    match normal_spec(seq![r.0] + r.1) {
        Some(v) => (v[0], v.subrange(1, v.len() as int)),
        None => ident_rot(r.1.len()),
    }
}


/// The interface shared by the rotors of each supported dimension: rotations of
/// `S^N` whose bivector has `K` components.
pub trait Rot<const N: usize, const K: usize, S: Field>: Sized + Copy {
    /// The scalar part and the bivector.
    spec fn rot_view(self) -> RotView<S>;

    /// The image of `v` under the rotor `r`.
    spec fn apl_spec(r: RotView<S>, v: Seq<S>) -> Seq<S>;

    /// The rotor "`a` after `b`".
    spec fn aft_spec(a: RotView<S>, b: RotView<S>) -> RotView<S>;

    /// The rotor that carries the unit vector `f` onto the unit vector `t`.
    spec fn from_to_spec(f: Seq<S>, t: Seq<S>) -> RotView<S>;

    /// The rotor that carries the standard axes onto the frame `o`.
    spec fn from_ortho_spec(o: Seq<Seq<S>>) -> RotView<S>;

    proof fn lemma_bivector_len(r: Self)
        ensures
            r.rot_view().1.len() == K,
    ;

    /// The rotor that does not rotate.
    fn ident() -> (r: Self)
        ensures
            r.rot_view() == ident_rot::<S>(K as nat),
    ;

    /// The rotor with scalar part `w` and bivector `bi`; the caller vouches that
    /// `w² + bi·bi = 1`.
    fn from_w_bi_unchecked(w: S, bi: Vect<K, S>) -> (r: Self)
        ensures
            r.rot_view() == (w, bi@),
    ;

    /// The scalar part.
    fn w(self) -> (r: S)
        ensures
            r == self.rot_view().0,
    ;

    /// The bivector.
    fn bi(self) -> (r: Vect<K, S>)
        ensures
            r@ == self.rot_view().1,
    ;

    /// The rotation that carries the unit vector `from` onto the unit vector `to`.
    fn from_to(from: Nrml<N, S>, to: Nrml<N, S>) -> (r: Self)
        ensures
            r.rot_view() == Self::from_to_spec(from@, to@),
    ;

    /// The rotation that carries the standard axes onto the frame `ortho`.
    fn from_ortho(ortho: Ortho<N, S>) -> (r: Self)
        ensures
            r.rot_view() == Self::from_ortho_spec(ortho@),
    ;

    /// The rotation by `angle` about the unit axis `axis`.
    fn angle_axis(angle: S, axis: Nrml<K, S>) -> (r: Self)
        ensures
            r.rot_view() == angle_axis_spec(angle, axis@),
    ;

    /// The rotor for a rotation vector; the identity where it has no direction.
    fn from_torq(torq: Vect<K, S>) -> (r: Self)
        ensures
            r.rot_view() == from_torq_spec(torq@),
    ;

    /// The angle of rotation.
    fn angle(self) -> (r: S)
        ensures
            r == angle_spec(self.rot_view().0),
    ;

    /// The unit axis of rotation; `None` for the identity.
    fn axis(self) -> (r: Option<Nrml<K, S>>)
        ensures
            r.nrml_view() == normal_spec(self.rot_view().1),
    ;

    /// The rotation vector: the unit axis times the angle.
    fn to_torq(self) -> (r: Vect<K, S>)
        ensures
            r@ == torq_spec(self.rot_view()),
    ;

    /// The rotation by `t` times this one's angle about the same axis.
    fn part(self, t: S) -> (r: Self)
        ensures
            r.rot_view() == part_spec(self.rot_view(), t),
    ;

    /// The inverse rotation.
    fn inv(self) -> (r: Self)
        ensures
            r.rot_view() == (self.rot_view().0, neg_seq(self.rot_view().1)),
    ;

    /// The image of `v`.
    fn apl(self, v: Vect<N, S>) -> (r: Vect<N, S>)
        ensures
            r@ == Self::apl_spec(self.rot_view(), v@),
    ;

    /// The rotation that performs `other` first and then this one.
    fn aft(self, other: Self) -> (r: Self)
        ensures
            r.rot_view() == Self::aft_spec(self.rot_view(), other.rot_view()),
    ;

    /// The rotation that performs this one first and then `other`.
    fn bef(self, other: Self) -> (r: Self)
        ensures
            r.rot_view() == Self::aft_spec(other.rot_view(), self.rot_view()),
    {
        other.aft(self)
    }
}

} // verus!
