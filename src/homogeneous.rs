//! Homogeneous coordinates: points, directions and 4×4 transforms of space.
use vstd::prelude::*;

use crate::matrix::Mat;
use crate::normal::{lemma_nrml_len, Nrml};
use crate::traits::{Field, Ring};
use crate::vector::Vect;

verus! {

broadcast use lemma_nrml_len;

impl<S: Ring> Vect<4, S> {
    /// The point at `position`, with weight one.
    pub fn point(position: Vect<3, S>) -> (r: Self)
        ensures
            r@ == position@.push(S::one_spec()),
    {
        let p = position.0;
        let r = Vect([p[0], p[1], p[2], S::one()]);
        assert(r@ =~= position@.push(S::one_spec()));
        r
    }

    /// The point at infinity in `direction`, with weight zero.
    pub fn point_at_inf(direction: Nrml<3, S>) -> (r: Self)
        ensures
            r@ == direction@.push(S::zero_spec()),
    {
        let d = direction.array();
        let r = Vect([d[0], d[1], d[2], S::zero()]);
        assert(r@ =~= direction@.push(S::zero_spec()));
        r
    }
}

/// A point or direction of space in homogeneous coordinates.
pub struct HomoVect3<S>(pub Vect<4, S>);

impl<S: Ring> HomoVect3<S> {
    /// The point at `value`, with weight one.
    pub fn from_vect(value: Vect<3, S>) -> (r: Self)
        ensures
            r.0@ == value@.push(S::one_spec()),
    {
        HomoVect3(Vect::point(value))
    }

    /// The direction `value`, with weight zero.
    pub fn from_nrml(value: Nrml<3, S>) -> (r: Self)
        ensures
            r.0@ == value@.push(S::zero_spec()),
    {
        HomoVect3(Vect::point_at_inf(value))
    }
}

/// The 4×4 matrix that applies `l` and then adds `t`: `l` in the upper left, `t` in
/// the last column, and `0 0 0 1` as the last row.
pub open spec fn affine_spec<S: Ring>(l: Seq<Seq<S>>, t: Seq<S>) -> Seq<Seq<S>> {
    let (z, o) = (S::zero_spec(), S::one_spec());
    seq![
        seq![l[0][0], l[0][1], l[0][2], t[0]],
        seq![l[1][0], l[1][1], l[1][2], t[1]],
        seq![l[2][0], l[2][1], l[2][2], t[2]],
        seq![z, z, z, o],
    ]
}

/// The 4×4 matrix that applies the 3×3 matrix `l` and moves nothing.
pub open spec fn linear_spec<S: Ring>(l: Seq<Seq<S>>) -> Seq<Seq<S>> {
    let z = S::zero_spec();
    affine_spec(l, seq![z, z, z])
}

/// The 3×3 matrix with `d` on the diagonal and zero elsewhere.
pub open spec fn diag3<S: Ring>(d: S) -> Seq<Seq<S>> {
    let z = S::zero_spec();
    seq![seq![d, z, z], seq![z, d, z], seq![z, z, d]]
}

/// The perspective projection matrix for a view of aspect ratio `aspect`, vertical
/// field of view `fov`, and near and far planes `n` and `f`.
pub open spec fn perspective_spec<S: Field>(aspect: S, fov: S, n: S, f: S) -> Seq<Seq<S>> {
    let (z, o, h) = (S::zero_spec(), S::one_spec(), S::half_spec());
    let view = S::tan_spec(S::mul_spec(fov, h));
    let nf = S::sub_spec(n, f);
    seq![
        seq![S::div_spec(o, S::mul_spec(aspect, view)), z, z, z],
        seq![z, S::div_spec(o, view), z, z],
        seq![z, z, S::mul_spec(S::sub_spec(S::div_spec(S::add_spec(f, n), nf), o), h), S::div_spec(S::mul_spec(f, n), nf)],
        seq![z, z, S::neg_spec(o), z],
    ]
}

impl<S: Ring> Mat<4, 4, S> {
    /// The transform that applies `linear` and then adds `translation`.
    pub fn affine(linear: Mat<3, 3, S>, translation: Vect<3, S>) -> (r: Self)
        ensures
            r@ == affine_spec(linear@, translation@),
    {
        let l = linear.0;
        let t = translation.0;
        let (z, o) = (S::zero(), S::one());
        let r = Mat(
            [
                [l[0][0], l[0][1], l[0][2], t[0]],
                [l[1][0], l[1][1], l[1][2], t[1]],
                [l[2][0], l[2][1], l[2][2], t[2]],
                [z, z, z, o],
            ],
        );
        assert(r@ =~~= affine_spec(linear@, translation@));
        r
    }

    /// The transform that applies `linear` and moves nothing.
    pub fn linear(linear: Mat<3, 3, S>) -> (r: Self)
        ensures
            r@ == linear_spec(linear@),
    {
        let z = S::zero();
        Self::affine(linear, Vect([z, z, z]))
    }

    /// The transform that adds `translation`.
    pub fn translation(translation: Vect<3, S>) -> (r: Self)
        ensures
            r@ == affine_spec(diag3(S::one_spec()), translation@),
    {
        let (z, o) = (S::zero(), S::one());
        let l = Mat([[o, z, z], [z, o, z], [z, z, o]]);
        assert(l@ =~~= diag3(S::one_spec()));
        Self::affine(l, translation)
    }

    /// The transform that scales every coordinate by `scale`.
    pub fn uniform_scale(scale: S) -> (r: Self)
        ensures
            r@ == linear_spec(diag3(scale)),
    {
        let z = S::zero();
        let l = Mat([[scale, z, z], [z, scale, z], [z, z, scale]]);
        assert(l@ =~~= diag3(scale));
        Self::linear(l)
    }
}

impl<S: Field> Mat<4, 4, S> {
    /// The perspective projection for aspect ratio `aspect`, field of view `fov`,
    /// and near and far planes `n` and `f`.
    pub fn perspective_projection(aspect: S, fov: S, n: S, f: S) -> (r: Self)
        ensures
            r@ == perspective_spec(aspect, fov, n, f),
    {
        let (z, o, h) = (S::zero(), S::one(), S::half());
        let view = fov.mul(h).tan();
        let nf = n.sub(f);
        let r = Mat(
            [
                [o.div(aspect.mul(view)), z, z, z],
                [z, o.div(view), z, z],
                [z, z, f.add(n).div(nf).sub(o).mul(h), f.mul(n).div(nf)],
                [z, z, o.neg(), z],
            ],
        );
        assert(r@ =~~= perspective_spec(aspect, fov, n, f));
        r
    }
}

} // verus!
