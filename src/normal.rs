//! Unit-length vectors.
use vstd::prelude::*;

use crate::traits::{le_spec, Field, Ring};
use crate::vector::{
    all_finite, cross2_spec, cross3_spec, div_all, dot_of, dot_spec, mul_seq,
    neg_seq, normal_spec, sub_seq, zeros, Vect,
};

verus! {

/// A unit direction in `S^N`.
///
/// Its components are those of a vector that was divided by its own magnitude, or
/// of a standard axis; the only ways to make one are the checked normalisations of
/// [`Vect`], [`Nrml::axis`], and [`Nrml::new_unchecked`], whose caller vouches for it.
#[derive(Copy, Clone, PartialEq, Eq, Hash, Debug)]
pub struct Nrml<const N: usize, S>(pub(crate) [S; N]);

impl<const N: usize, S> View for Nrml<N, S> {
    type V = Seq<S>;

    closed spec fn view(&self) -> Seq<S> {
        self.0@
    }
}

/// A unit normal has exactly `N` components.
pub broadcast proof fn lemma_nrml_len<const N: usize, S>(n: Nrml<N, S>)
    ensures
        #[trigger] n@.len() == N,
{
}

impl<const N: usize, S: Ring> Nrml<N, S> {
    /// Wraps `array` as a unit normal without checking it. The caller vouches that
    /// the components have just been divided by their magnitude.
    pub fn new_unchecked(array: [S; N]) -> (r: Nrml<N, S>)
        ensures
            r@ == array@,
    {
        Nrml(array)
    }

    /// The components.
    pub fn array(self) -> (r: [S; N])
        ensures
            r@ == self@,
    {
        self.0
    }

    /// The same components as a plain vector.
    pub fn relax(self) -> (r: Vect<N, S>)
        ensures
            r@ == self@,
    {
        Vect(self.0)
    }
}


/// The dot product of two unit normals, limited to `[-1, 1]` so that rounding
/// cannot carry it out of the domain of `acos`.
pub open spec fn nrml_dot_spec<S: Ring>(a: Seq<S>, b: Seq<S>) -> S {
    let d = dot_of(a, b);
    if S::lt_spec(S::one_spec(), d) {
        S::one_spec()
    } else if S::lt_spec(d, S::neg_spec(S::one_spec())) {
        S::neg_spec(S::one_spec())
    } else {
        d
    }
}

/// The unit vector along standard axis `i`.
pub open spec fn axis_spec<S: Ring>(n: nat, i: int) -> Seq<S> {
    zeros::<S>(n).update(i, S::one_spec())
}

impl<const N: usize, S: Ring> Nrml<N, S> {
    /// The unit vector along standard axis `i`.
    pub fn axis(i: usize) -> (r: Self)
        requires
            i < N,
        ensures
            r@ == axis_spec::<S>(N as nat, i as int),
    {
        let mut v = [S::zero(); N];
        v[i] = S::one();
        assert(v@ =~= axis_spec::<S>(N as nat, i as int));
        Nrml(v)
    }

    /// Component `i`.
    pub fn get(&self, i: usize) -> (r: S)
        requires
            i < N,
        ensures
            r == self@[i as int],
    {
        self.0[i]
    }

    /// The first component.
    pub fn x(self) -> (r: S)
        requires
            1 <= N,
        ensures
            r == self@[0],
    {
        self.0[0]
    }

    /// The second component.
    pub fn y(self) -> (r: S)
        requires
            2 <= N,
        ensures
            r == self@[1],
    {
        self.0[1]
    }

    /// The third component.
    pub fn z(self) -> (r: S)
        requires
            3 <= N,
        ensures
            r == self@[2],
    {
        self.0[2]
    }

    /// The fourth component.
    pub fn w(self) -> (r: S)
        requires
            4 <= N,
        ensures
            r == self@[3],
    {
        self.0[3]
    }

    /// The opposite direction.
    pub fn neg(self) -> (r: Self)
        ensures
            r@ == neg_seq(self@),
    {
        let v = self.relax().neg();
        Nrml(v.0)
    }

    /// The dot product with a plain vector, not limited.
    pub fn dot_vect(self, other: Vect<N, S>) -> (r: S)
        ensures
            r == dot_of(self@, other@),
    {
        self.relax().dot(other)
    }

}

impl<S: Ring> Nrml<2, S> {
    /// The cross product of two plane directions.
    pub fn cross(self, other: Self) -> (r: Vect<1, S>)
        ensures
            r@ == seq![cross2_spec(self@, other@)],
    {
        self.relax().cross(other.relax())
    }
}

impl<S: Ring> Nrml<3, S> {
    /// The cross product of two space directions.
    pub fn cross(self, other: Self) -> (r: Vect<3, S>)
        ensures
            r@ == cross3_spec(self@, other@),
    {
        self.relax().cross(other.relax())
    }
}

impl<const N: usize, S: Field> Nrml<N, S> {
    /// The dot product, limited to `[-1, 1]`.
    pub fn dot(self, other: Self) -> (r: S)
        ensures
            r == nrml_dot_spec(self@, other@),
            !S::is_nan_spec(dot_of(self@, other@)) ==> {
                &&& le_spec(S::neg_spec(S::one_spec()), r)
                &&& le_spec(r, S::one_spec())
            },
            S::lt_spec(S::one_spec(), dot_of(self@, other@)) ==> r == S::one_spec(),
            S::lt_spec(dot_of(self@, other@), S::neg_spec(S::one_spec())) ==> r == S::neg_spec(
                S::one_spec(),
            ),
            le_spec(S::neg_spec(S::one_spec()), dot_of(self@, other@)) && le_spec(
                dot_of(self@, other@),
                S::one_spec(),
            ) ==> r == dot_of(self@, other@),
    {
        proof {
            let (d, one, m) = (dot_of(self@, other@), S::one_spec(), S::neg_spec(S::one_spec()));
            S::lemma_sqrt_facts();
            S::lemma_order(one, d, m);
            S::lemma_order(m, one, m);
            S::lemma_order(one, m, one);
            S::lemma_order(d, m, one);
            S::lemma_order(m, d, one);
            S::lemma_order(one, one, one);
            S::lemma_order(m, m, m);
        }
        let dot = self.relax().dot(other.relax());
        let one = S::one();
        if one.lt(&dot) {
            one
        } else if dot.lt(&one.neg()) {
            one.neg()
        } else {
            dot
        }
    }

    /// The projection of this normal onto the unit axis `axis`.
    pub fn proj(self, axis: Nrml<N, S>) -> (r: Vect<N, S>)
        ensures
            r@ == mul_seq(axis@, nrml_dot_spec(self@, axis@)),
    {
        axis.relax().mul(self.dot(axis))
    }

    /// What is left of this normal after taking away its projection onto `axis`.
    pub fn rej(self, axis: Nrml<N, S>) -> (r: Vect<N, S>)
        ensures
            r@ == sub_seq(self@, mul_seq(axis@, nrml_dot_spec(self@, axis@))),
    {
        self.relax().sub(self.proj(axis))
    }

    /// The unit normal in the direction of `value`, where there is one.
    pub fn restrict(value: Vect<N, S>) -> (r: Option<Self>)
        ensures
            match r {
                Some(n) => normal_spec(value@) == Some(n@),
                None => normal_spec(value@) is None,
            },
    {
        value.normal()
    }

    /// The angle between two directions, `acos` of their limited dot product.
    pub fn angle_to(self, other: Self) -> (r: S)
        ensures
            r == S::acos_spec(nrml_dot_spec(self@, other@)),
    {
        self.dot(other).acos()
    }

    /// The angle to `other`, or zero where there is no other direction.
    pub fn angle_to_opt(self, other: Option<Self>) -> (r: S)
        ensures
            r == (match other.nrml_view() {
                Some(o) => S::acos_spec(nrml_dot_spec(self@, o)),
                None => S::zero_spec(),
            }),
    {
        match other {
            Some(other) => self.angle_to(other),
            None => S::zero(),
        }
    }
}

/// Turning an optional unit normal back into a plain vector.
pub trait OptionNrmlRelax<const N: usize, S: Ring>: Sized {
    spec fn nrml_view(self) -> Option<Seq<S>>;

    /// The normal as a vector, or `or` where there is none.
    fn relax_or(self, or: Vect<N, S>) -> (r: Vect<N, S>)
        ensures
            r@ == (match self.nrml_view() {
                Some(v) => v,
                None => or@,
            }),
    ;

    /// The normal as a vector, or the zero vector where there is none.
    fn relax_or_zero(self) -> (r: Vect<N, S>)
        ensures
            r@ == (match self.nrml_view() {
                Some(v) => v,
                None => zeros::<S>(N as nat),
            }),
    ;
}

impl<const N: usize, S: Ring> OptionNrmlRelax<N, S> for Option<Nrml<N, S>> {
    open spec fn nrml_view(self) -> Option<Seq<S>> {
        match self {
            Some(n) => Some(n@),
            None => None,
        }
    }

    fn relax_or(self, or: Vect<N, S>) -> (r: Vect<N, S>) {
        match self {
            None => or,
            Some(n) => n.relax(),
        }
    }

    fn relax_or_zero(self) -> (r: Vect<N, S>) {
        self.relax_or(Vect::zero())
    }
}


proof fn lemma_dot_zeros<S: Ring>(n: nat, k: int)
    requires
        0 <= k <= n,
    ensures
        dot_spec(zeros::<S>(n), zeros::<S>(n), k) == S::zero_spec(),
    decreases k,
{
    S::lemma_unit_facts();
    if k > 0 {
        lemma_dot_zeros::<S>(n, k - 1);
    }
}

proof fn lemma_dot_axis<S: Ring>(n: nat, i: int, k: int)
    requires
        0 <= i < n,
        0 <= k <= n,
    ensures
        dot_spec(axis_spec::<S>(n, i), axis_spec::<S>(n, i), k) == (if k > i {
            S::one_spec()
        } else {
            S::zero_spec()
        }),
    decreases k,
{
    S::lemma_unit_facts();
    if k > 0 {
        lemma_dot_axis::<S>(n, i, k - 1);
    }
}

/// The zero vector has no direction: normalising it gives nothing.
pub proof fn lemma_zero_has_no_normal<S: Field>(n: nat)
    ensures
        normal_spec(zeros::<S>(n)) is None,
{
    S::lemma_unit_facts();
    S::lemma_sqrt_facts();
    lemma_dot_zeros::<S>(n, n as int);
    assert(all_finite(zeros::<S>(n), n as int));
}

/// A standard axis of length one is already a unit vector: normalising it gives it
/// back unchanged.
pub proof fn lemma_axis_is_own_normal<S: Field>(n: nat, i: int)
    requires
        0 <= i < n,
    ensures
        normal_spec(axis_spec::<S>(n, i)) == Some(axis_spec::<S>(n, i)),
{
    S::lemma_unit_facts();
    S::lemma_sqrt_facts();
    let e = axis_spec::<S>(n, i);
    lemma_dot_axis::<S>(n, i, n as int);
    assert(all_finite(e, n as int));
    assert(div_all(e, S::one_spec()) =~= e);
}

} // verus!
