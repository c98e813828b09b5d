//! Rigid transforms: a rotation followed by a translation.
use vstd::prelude::*;

use crate::homogeneous::affine_spec;
use crate::matrix::Mat;
use crate::normal::{lemma_nrml_len, Nrml};
use crate::rotor::rot2::Rot2;
use crate::rotor::rot3::{lemma_rot3_len, mat3_spec, Rot3};
use crate::rotor::{from_torq_spec, ident_rot, Rot};
use crate::traits::Field;
use crate::vector::{add_seq, div_all, mul_seq, neg_seq, sub_seq, zeros, Vect};

verus! {

broadcast use lemma_nrml_len, lemma_rot3_len;

/// A rigid motion of `S^N`: rotate by `rot`, then move by `trans`.
#[derive(Copy, Clone, Debug)]
pub struct Rig<const N: usize, const K: usize, S, R> {
    pub trans: Vect<N, S>,
    pub rot: R,
}

/// A rigid motion of the plane.
pub type Rig2<S> = Rig<2, 1, S, Rot2<S>>;

/// A rigid motion of space.
pub type Rig3<S> = Rig<3, 3, S, Rot3<S>>;

impl<const N: usize, const K: usize, S: Field, R: Rot<N, K, S>> Rig<N, K, S, R> {
    /// The motion that moves nothing.
    pub fn ident() -> (r: Self)
        ensures
            r.trans@ == zeros::<S>(N as nat),
            r.rot.rot_view() == ident_rot::<S>(K as nat),
    {
        Rig { trans: Vect::zero(), rot: R::ident() }
    }

    /// The motion that rotates by `rot` and then moves by `trans`.
    pub fn new(trans: Vect<N, S>, rot: R) -> (r: Self)
        ensures
            r.trans@ == trans@,
            r.rot == rot,
    {
        Rig { trans, rot }
    }

    /// The pure rotation `rot`.
    pub fn rot(rot: R) -> (r: Self)
        ensures
            r.trans@ == zeros::<S>(N as nat),
            r.rot == rot,
    {
        Rig { trans: Vect::zero(), rot }
    }

    /// The pure translation `trans`.
    pub fn trans(trans: Vect<N, S>) -> (r: Self)
        ensures
            r.trans@ == trans@,
            r.rot.rot_view() == ident_rot::<S>(K as nat),
    {
        Rig { trans, rot: R::ident() }
    }

    /// The inverse motion: the inverse rotation, and the negated translation
    /// turned by it.
    pub fn inv(self) -> (r: Self)
        ensures
            r.rot.rot_view() == (self.rot.rot_view().0, neg_seq(self.rot.rot_view().1)),
            r.trans@ == R::apl_spec(r.rot.rot_view(), neg_seq(self.trans@)),
    {
        let rot = self.rot.inv();
        Rig { rot, trans: rot.apl(self.trans.neg()) }
    }

    /// The image of the point `v`: turned, then moved.
    pub fn apl(self, v: Vect<N, S>) -> (r: Vect<N, S>)
        ensures
            r@ == add_seq(R::apl_spec(self.rot.rot_view(), v@), self.trans@),
    {
        self.rot.apl(v).add(self.trans)
    }

    /// The image of the unit vector `n` taken as a point.
    pub fn apl_nrml(self, n: Nrml<N, S>) -> (r: Vect<N, S>)
        ensures
            r@ == add_seq(R::apl_spec(self.rot.rot_view(), n@), self.trans@),
    {
        self.apl(n.relax())
    }

    /// The motion that performs `other` first and then this one: the rotations
    /// composed, and `other`'s translation turned by this rotation and moved by
    /// this translation.
    pub fn aft(self, other: Self) -> (r: Self)
        ensures
            r.rot.rot_view() == R::aft_spec(self.rot.rot_view(), other.rot.rot_view()),
            r.trans@ == add_seq(R::apl_spec(self.rot.rot_view(), other.trans@), self.trans@),
    {
        Rig { rot: self.rot.aft(other.rot), trans: self.rot.apl(other.trans).add(self.trans) }
    }

    /// The motion that performs this one first and then `other`.
    pub fn bef(self, other: Self) -> (r: Self)
        ensures
            r.rot.rot_view() == R::aft_spec(other.rot.rot_view(), self.rot.rot_view()),
            r.trans@ == add_seq(R::apl_spec(other.rot.rot_view(), self.trans@), other.trans@),
    {
        other.aft(self)
    }
}

impl<S: Field> Rig<3, 3, S, Rot3<S>> {
    /// The 4×4 homogeneous matrix of this motion.
    pub fn to_hmat(self) -> (r: Mat<4, 4, S>)
        ensures
            r@ == affine_spec(mat3_spec(self.rot@), self.trans@),
    {
        Mat::affine(self.rot.mat(), self.trans)
    }
}

/// A linear and an angular quantity of space side by side, such as a velocity and
/// a rotation vector.
#[derive(Copy, Clone, Debug)]
pub struct LinAng3<S> {
    pub lin: Vect<3, S>,
    pub ang: Vect<3, S>,
}

impl<S: Field> LinAng3<S> {
    /// Both parts zero.
    pub fn zero() -> (r: Self)
        ensures
            r.lin@ == zeros::<S>(3),
            r.ang@ == zeros::<S>(3),
    {
        LinAng3 { lin: Vect::zero(), ang: Vect::zero() }
    }

    /// The pair of `lin` and `ang`.
    pub fn new(lin: Vect<3, S>, ang: Vect<3, S>) -> (r: Self)
        ensures
            r.lin@ == lin@,
            r.ang@ == ang@,
    {
        LinAng3 { lin, ang }
    }

    /// The partwise sum.
    pub fn add(self, rhs: Self) -> (r: Self)
        ensures
            r.lin@ == add_seq(self.lin@, rhs.lin@),
            r.ang@ == add_seq(self.ang@, rhs.ang@),
    {
        LinAng3 { lin: self.lin.add(rhs.lin), ang: self.ang.add(rhs.ang) }
    }

    /// The partwise difference.
    pub fn sub(self, rhs: Self) -> (r: Self)
        ensures
            r.lin@ == sub_seq(self.lin@, rhs.lin@),
            r.ang@ == sub_seq(self.ang@, rhs.ang@),
    {
        LinAng3 { lin: self.lin.sub(rhs.lin), ang: self.ang.sub(rhs.ang) }
    }

    /// Both parts times `s`.
    pub fn mul(self, s: S) -> (r: Self)
        ensures
            r.lin@ == mul_seq(self.lin@, s),
            r.ang@ == mul_seq(self.ang@, s),
    {
        LinAng3 { lin: self.lin.mul(s), ang: self.ang.mul(s) }
    }

    /// Both parts divided by `s`.
    pub fn div(self, s: S) -> (r: Self)
        ensures
            r.lin@ == div_all(self.lin@, s),
            r.ang@ == div_all(self.ang@, s),
    {
        LinAng3 { lin: self.lin.div(s), ang: self.ang.div(s) }
    }

    /// The rigid motion that moves by the linear part and turns by the rotation
    /// vector of the angular part.
    pub fn rig(self) -> (r: Rig3<S>)
        ensures
            r.trans@ == self.lin@,
            r.rot@ == from_torq_spec(self.ang@),
    {
        Rig { trans: self.lin, rot: Rot3::from_torq(self.ang) }
    }
}


impl<const N: usize, const K: usize, S: Field, R: Rot<N, K, S>> Default for Rig<N, K, S, R> {
    /// The motion that moves nothing.
    fn default() -> (r: Self)
        ensures
            r.trans@ == zeros::<S>(N as nat),
            r.rot.rot_view() == ident_rot::<S>(K as nat),
    {
        Rig::ident()
    }
}

} // verus!
