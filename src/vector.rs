//! Fixed-length vectors of scalars.
use vstd::prelude::*;

use crate::normal::{lemma_nrml_len, Nrml};
use crate::traits::{Field, Ring};

verus! {

broadcast use lemma_nrml_len;

/// An ordered tuple of `N` scalars: a point or a displacement in `S^N`.
#[derive(Copy, Clone, PartialEq, Eq, Hash, Debug)]
pub struct Vect<const N: usize, S>(pub [S; N]);

impl<const N: usize, S> View for Vect<N, S> {
    type V = Seq<S>;

    open spec fn view(&self) -> Seq<S> {
        self.0@
    }
}

/// The sum `((0 + a[0]*b[0]) + a[1]*b[1]) + ...` over the first `n` positions.
pub open spec fn dot_spec<S: Ring>(a: Seq<S>, b: Seq<S>, n: int) -> S
    decreases n,
{
    if n <= 0 {
        S::zero_spec()
    } else {
        S::add_spec(dot_spec(a, b, n - 1), S::mul_spec(a[n - 1], b[n - 1]))
    }
}

/// The dot product of two sequences of equal length.
pub open spec fn dot_of<S: Ring>(a: Seq<S>, b: Seq<S>) -> S {
    dot_spec(a, b, a.len() as int)
}

/// Whether some of the first `n` scalars is NaN.
pub open spec fn any_nan<S: Ring>(a: Seq<S>, n: int) -> bool {
    exists|i: int| 0 <= i < n && S::is_nan_spec(#[trigger] a[i])
}

/// Whether every scalar of `a` is zero.
pub open spec fn all_zero<S: Ring>(a: Seq<S>) -> bool {
    forall|i: int| 0 <= i < a.len() ==> S::is_zero_spec(#[trigger] a[i])
}

/// Whether all of the first `n` scalars are finite.
pub open spec fn all_finite<S: Ring>(a: Seq<S>, n: int) -> bool {
    forall|i: int| 0 <= i < n ==> S::is_finite_spec(#[trigger] a[i])
}

/// `n` zeros.
pub open spec fn zeros<S: Ring>(n: nat) -> Seq<S> {
    Seq::new(n, |i: int| S::zero_spec())
}

/// The componentwise sum `a[i] + b[i]`.
pub open spec fn add_seq<S: Ring>(a: Seq<S>, b: Seq<S>) -> Seq<S> {
    Seq::new(a.len(), |i: int| S::add_spec(a[i], b[i]))
}

/// The componentwise difference `a[i] - b[i]`.
pub open spec fn sub_seq<S: Ring>(a: Seq<S>, b: Seq<S>) -> Seq<S> {
    Seq::new(a.len(), |i: int| S::sub_spec(a[i], b[i]))
}

/// The componentwise product `a[i] * b[i]`.
pub open spec fn scale_seq<S: Ring>(a: Seq<S>, b: Seq<S>) -> Seq<S> {
    Seq::new(a.len(), |i: int| S::mul_spec(a[i], b[i]))
}

/// The componentwise negation `-a[i]`.
pub open spec fn neg_seq<S: Ring>(a: Seq<S>) -> Seq<S> {
    a.map_values(|x: S| S::neg_spec(x))
}

/// Each component times `s`: `a[i] * s`.
pub open spec fn mul_seq<S: Ring>(a: Seq<S>, s: S) -> Seq<S> {
    a.map_values(|x: S| S::mul_spec(x, s))
}

/// The componentwise quotient `a[i] / d`.
pub open spec fn div_all<S: Ring>(a: Seq<S>, d: S) -> Seq<S> {
    a.map_values(|x: S| S::div_spec(x, d))
}

impl<const N: usize, S: Ring> Vect<N, S> {
    /// The vector with the components of `array`.
    pub fn new(array: [S; N]) -> (r: Self)
        ensures
            r@ == array@,
    {
        Vect(array)
    }

    /// The vector whose components are all zero.
    pub fn zero() -> (r: Self)
        ensures
            r@ == zeros::<S>(N as nat),
    {
        let r = Vect([S::zero(); N]);
        assert(r@ =~= zeros::<S>(N as nat));
        r
    }

    /// The vector whose components are all `s`.
    pub fn splat(s: S) -> (r: Self)
        ensures
            r@.len() == N,
            forall|i: int| 0 <= i < N ==> r@[i] == s,
    {
        Vect([s; N])
    }

    /// The vector that holds `value` at position `i` and zero elsewhere.
    pub fn axis(i: usize, value: S) -> (r: Self)
        requires
            i < N,
        ensures
            r@.len() == N,
            r@[i as int] == value,
            forall|j: int| 0 <= j < N && j != i ==> r@[j] == S::zero_spec(),
    {
        let mut v = [S::zero(); N];
        v[i] = value;
        Vect(v)
    }

    /// The components.
    pub fn as_array(self) -> (r: [S; N])
        ensures
            r@ == self@,
    {
        self.0
    }

    /// Component `i`.
    pub fn get(&self, i: usize) -> (r: S)
        requires
            i < N,
        ensures
            r == self@[i as int],
    {
        self.0[i]
    }

    /// The vector whose component `i` is `f(i)`.
    pub fn from_fn<F: Fn(usize) -> S>(f: F) -> (r: Self)
        requires
            forall|i: usize| i < N ==> f.requires((i,)),
        ensures
            r@.len() == N,
            forall|i: int| 0 <= i < N ==> f.ensures((i as usize,), r@[i]),
    {
        let mut a = [S::zero(); N];
        let mut k: usize = 0;
        while k < N
            invariant
                k <= N,
                a@.len() == N,
                forall|i: usize| i < N ==> f.requires((i,)),
                forall|i: int| 0 <= i < k ==> f.ensures((i as usize,), a@[i]),
            decreases N - k,
        {
            a[k] = f(k);
            k = k + 1;
        }
        Vect(a)
    }

    /// The vector that `f` makes of this one's components.
    pub fn swiz<const M: usize, F: Fn([S; N]) -> [S; M]>(self, f: F) -> (r: Vect<M, S>)
        requires
            f.requires((self.0,)),
        ensures
            f.ensures((self.0,), r.0),
    {
        Vect(f(self.0))
    }

    /// The componentwise sum.
    pub fn add(self, other: Self) -> (r: Self)
        ensures
            r@ == add_seq(self@, other@),
    {
        let mut a = self.0;
        let mut k: usize = 0;
        while k < N
            invariant
                k <= N,
                a@.len() == N,
                forall|i: int| 0 <= i < k ==> a@[i] == S::add_spec(self@[i], other@[i]),
                forall|i: int| k <= i < N ==> a@[i] == self@[i],
            decreases N - k,
        {
            a[k] = a[k].add(other.0[k]);
            k = k + 1;
        }
        assert(a@ =~= add_seq(self@, other@));
        Vect(a)
    }
}


impl<const N: usize, S: Ring> Vect<N, S> {
    /// The componentwise difference.
    pub fn sub(self, other: Self) -> (r: Self)
        ensures
            r@ == sub_seq(self@, other@),
    {
        let mut a = self.0;
        let mut k: usize = 0;
        while k < N
            invariant
                k <= N,
                a@.len() == N,
                forall|i: int| 0 <= i < k ==> a@[i] == S::sub_spec(self@[i], other@[i]),
                forall|i: int| k <= i < N ==> a@[i] == self@[i],
            decreases N - k,
        {
            a[k] = a[k].sub(other.0[k]);
            k = k + 1;
        }
        assert(a@ =~= sub_seq(self@, other@));
        Vect(a)
    }

    /// The componentwise negation.
    pub fn neg(self) -> (r: Self)
        ensures
            r@ == neg_seq(self@),
    {
        let mut a = self.0;
        let mut k: usize = 0;
        while k < N
            invariant
                k <= N,
                a@.len() == N,
                forall|i: int| 0 <= i < k ==> a@[i] == S::neg_spec(self@[i]),
                forall|i: int| k <= i < N ==> a@[i] == self@[i],
            decreases N - k,
        {
            a[k] = a[k].neg();
            k = k + 1;
        }
        assert(a@ =~= neg_seq(self@));
        Vect(a)
    }

    /// Each component times the scalar `s`.
    pub fn mul(self, s: S) -> (r: Self)
        ensures
            r@ == mul_seq(self@, s),
    {
        let mut a = self.0;
        let mut k: usize = 0;
        while k < N
            invariant
                k <= N,
                a@.len() == N,
                forall|i: int| 0 <= i < k ==> a@[i] == S::mul_spec(self@[i], s),
                forall|i: int| k <= i < N ==> a@[i] == self@[i],
            decreases N - k,
        {
            a[k] = a[k].mul(s);
            k = k + 1;
        }
        assert(a@ =~= mul_seq(self@, s));
        Vect(a)
    }

    /// Each component divided by the scalar `s`.
    pub fn div(self, s: S) -> (r: Self)
        ensures
            r@ == div_all(self@, s),
    {
        let mut a = self.0;
        let mut k: usize = 0;
        while k < N
            invariant
                k <= N,
                a@.len() == N,
                forall|i: int| 0 <= i < k ==> a@[i] == S::div_spec(self@[i], s),
                forall|i: int| k <= i < N ==> a@[i] == self@[i],
            decreases N - k,
        {
            a[k] = a[k].div(s);
            k = k + 1;
        }
        assert(a@ =~= div_all(self@, s));
        Vect(a)
    }

    /// The componentwise product.
    pub fn scale(self, other: Self) -> (r: Self)
        ensures
            r@ == scale_seq(self@, other@),
    {
        let mut a = self.0;
        let mut k: usize = 0;
        while k < N
            invariant
                k <= N,
                a@.len() == N,
                forall|i: int| 0 <= i < k ==> a@[i] == S::mul_spec(self@[i], other@[i]),
                forall|i: int| k <= i < N ==> a@[i] == self@[i],
            decreases N - k,
        {
            a[k] = a[k].mul(other.0[k]);
            k = k + 1;
        }
        assert(a@ =~= scale_seq(self@, other@));
        Vect(a)
    }

    /// The dot product, summed from the first component on.
    pub fn dot(self, other: Self) -> (r: S)
        ensures
            r == dot_of(self@, other@),
    {
        let mut acc = S::zero();
        let mut k: usize = 0;
        while k < N
            invariant
                k <= N,
                self@.len() == N,
                acc == dot_spec(self@, other@, k as int),
            decreases N - k,
        {
            acc = acc.add(self.0[k].mul(other.0[k]));
            k = k + 1;
        }
        acc
    }

    /// The squared magnitude, `self · self`.
    pub fn sqr_magn(self) -> (r: S)
        ensures
            r == dot_of(self@, self@),
    {
        self.dot(self)
    }

    /// Whether every component is zero.
    pub fn is_zero(self) -> (r: bool)
        ensures
            r == all_zero(self@),
    {
        let mut k: usize = 0;
        while k < N
            invariant
                k <= N,
                forall|i: int| 0 <= i < k ==> S::is_zero_spec(#[trigger] self@[i]),
            decreases N - k,
        {
            if !self.0[k].is_zero() {
                return false;
            }
            k = k + 1;
        }
        true
    }

    /// Whether some component is NaN.
    pub fn is_nan(self) -> (r: bool)
        ensures
            r == any_nan(self@, N as int),
    {
        let mut k: usize = 0;
        while k < N
            invariant
                k <= N,
                !any_nan(self@, k as int),
            decreases N - k,
        {
            if self.0[k].is_nan() {
                return true;
            }
            k = k + 1;
        }
        false
    }

    /// Whether every component is finite.
    pub fn is_finite(self) -> (r: bool)
        ensures
            r == all_finite(self@, N as int),
            r ==> !any_nan(self@, N as int),
    {
        let mut k: usize = 0;
        while k < N
            invariant
                k <= N,
                all_finite(self@, k as int),
            decreases N - k,
        {
            if !self.0[k].is_finite() {
                return false;
            }
            k = k + 1;
        }
        assert forall|i: int| 0 <= i < N implies !S::is_nan_spec(#[trigger] self@[i]) by {
            S::lemma_finite_not_nan(self@[i]);
        }
        true
    }
}

/// The direction of a vector with infinite components: each infinite component
/// becomes its sign, each finite one zero, and the result is divided by the square
/// root of the number of infinite components.
pub open spec fn inf_signs<S: Ring>(a: Seq<S>) -> Seq<S> {
    a.map_values(|x: S| if S::is_finite_spec(x) { S::zero_spec() } else { S::sign_spec(x) })
}

/// One added, from zero, for each of the first `n` components that is not finite.
pub open spec fn inf_count<S: Ring>(a: Seq<S>, n: int) -> S
    decreases n,
{
    if n <= 0 {
        S::zero_spec()
    } else if S::is_finite_spec(a[n - 1]) {
        inf_count(a, n - 1)
    } else {
        S::add_spec(inf_count(a, n - 1), S::one_spec())
    }
}

/// The direction of a vector with infinite components, as [`inf_signs`] and
/// [`inf_count`] give it; `None` where a component is NaN or the result is not finite.
pub open spec fn divide_by_infinity_spec<S: Field>(a: Seq<S>) -> Option<Seq<S>> {
    if any_nan(a, a.len() as int) {
        None
    } else {
        let v = div_all(inf_signs(a), S::sqrt_spec(inf_count(a, a.len() as int)));
        if all_finite(v, v.len() as int) {
            Some(v)
        } else {
            None
        }
    }
}

/// Magnitude infinity and the direction of [`divide_by_infinity_spec`], for a vector
/// whose magnitude is not finite; `None` where that has no finite direction.
pub open spec fn infinite_magn_spec<S: Field>(a: Seq<S>) -> Option<(S, Seq<S>)> {
    match divide_by_infinity_spec(a) {
        Some(v) => Some((S::infinity_spec(), v)),
        None => None,
    }
}

/// The magnitude of a vector together with its direction, or `None` where it has
/// no direction (zero, NaN, or infinite with no finite direction).
pub open spec fn magn_normal_spec<S: Field>(a: Seq<S>) -> Option<(S, Seq<S>)> {
    if !all_finite(a, a.len() as int) {
        infinite_magn_spec(a)
    } else {
        let m = S::sqrt_spec(dot_of(a, a));
        if !S::is_finite_spec(m) {
            infinite_magn_spec(a)
        } else if S::is_zero_spec(m) {
            None
        } else {
            Some((m, div_all(a, m)))
        }
    }
}

/// The unit vector in the direction of `a`, where there is one.
pub open spec fn normal_spec<S: Field>(a: Seq<S>) -> Option<Seq<S>> {
    match magn_normal_spec(a) {
        Some(p) => Some(p.1),
        None => None,
    }
}

impl<const N: usize, S: Field> Vect<N, S> {
    /// The magnitude, the square root of `self · self`.
    pub fn magn(self) -> (r: S)
        ensures
            r == S::sqrt_spec(dot_of(self@, self@)),
    {
        self.sqr_magn().sqrt()
    }

    /// The direction of a vector with non-finite components, or `None` where a
    /// component is NaN or the result is not finite.
    pub fn divide_by_infinity(self) -> (r: Option<Vect<N, S>>)
        ensures
            match r {
                Some(v) => divide_by_infinity_spec(self@) == Some(v@),
                None => divide_by_infinity_spec(self@) is None,
            },
    {
        if self.is_nan() {
            return None;
        }
        let mut array = self.0;
        let mut magn = S::zero();
        let mut k: usize = 0;
        while k < N
            invariant
                k <= N,
                array@.len() == N,
                self@.len() == N,
                magn == inf_count(self@, k as int),
                forall|i: int| 0 <= i < k ==> array@[i] == inf_signs(self@)[i],
                forall|i: int| k <= i < N ==> array@[i] == self@[i],
            decreases N - k,
        {
            let e = array[k];
            if e.is_finite() {
                array[k] = S::zero();
            } else {
                array[k] = e.sign();
                magn = magn.add(S::one());
            }
            k = k + 1;
        }
        assert(array@ =~= inf_signs(self@));
        let magn = magn.sqrt();
        let vect = Vect(array).div(magn);
        if vect.is_finite() {
            Some(vect)
        } else {
            None
        }
    }

    fn infinite_magn(self) -> (r: Option<(S, Nrml<N, S>)>)
        ensures
            match r {
                Some(p) => infinite_magn_spec(self@) == Some((p.0, p.1@)),
                None => infinite_magn_spec(self@) is None,
            },
    {
        match self.divide_by_infinity() {
            Some(value) => Some((S::infinity(), Nrml::new_unchecked(value.0))),
            None => None,
        }
    }

    /// The magnitude and the direction, or `None` where there is no direction.
    /// A vector whose magnitude is not finite, because a component is infinite or
    /// because the sum of squares overflows, has magnitude infinity and the
    /// direction that [`Vect::divide_by_infinity`] gives, which treats infinite
    /// components as their sign and finite ones as zero. A vector whose components
    /// are all finite has no such direction, so an overflowing magnitude gives
    /// `None` rather than a direction of length zero.
    pub fn magn_normal(self) -> (r: Option<(S, Nrml<N, S>)>)
        ensures
            match r {
                Some(p) => magn_normal_spec(self@) == Some((p.0, p.1@)),
                None => magn_normal_spec(self@) is None,
            },
    {
        if !self.is_finite() {
            return self.infinite_magn();
        }
        let magn = self.magn();
        if !magn.is_finite() {
            return self.infinite_magn();
        }
        if magn.is_zero() {
            None
        } else {
            Some((magn, Nrml::new_unchecked(self.div(magn).0)))
        }
    }

    /// The unit vector in this direction, or `None` where there is none.
    pub fn normal(self) -> (r: Option<Nrml<N, S>>)
        ensures
            match r {
                Some(n) => normal_spec(self@) == Some(n@),
                None => normal_spec(self@) is None,
            },
    {
        match self.magn_normal() {
            Some(p) => Some(p.1),
            None => None,
        }
    }

    /// The unit vector in this direction, or the zero vector where there is none.
    pub fn normal_or_zero(self) -> (r: Vect<N, S>)
        ensures
            r@.len() == N,
            match normal_spec(self@) {
                Some(v) => r@ == v,
                None => r@ == zeros::<S>(N as nat),
            },
    {
        match self.normal() {
            Some(n) => n.relax(),
            None => Vect::zero(),
        }
    }

    /// The magnitude and the direction, or zero for both where there is no direction.
    pub fn magn_normal_or_zero(self) -> (r: (S, Vect<N, S>))
        ensures
            r.1@.len() == N,
            match magn_normal_spec(self@) {
                Some(p) => r.0 == p.0 && r.1@ == p.1,
                None => r.0 == S::zero_spec() && r.1@ == zeros::<S>(N as nat),
            },
    {
        match self.magn_normal() {
            Some(p) => (p.0, p.1.relax()),
            None => (S::zero(), Vect::zero()),
        }
    }
}


/// `a` with `k` zeros inserted before position `i`.
pub open spec fn zero_extend_spec<S: Ring>(a: Seq<S>, i: int, k: nat) -> Seq<S> {
    a.subrange(0, i) + zeros::<S>(k) + a.subrange(i, a.len() as int)
}

/// The projection of `a` onto the unit axis `n`: `n * (a · n)`.
pub open spec fn proj_spec<S: Ring>(a: Seq<S>, n: Seq<S>) -> Seq<S> {
    mul_seq(n, dot_of(a, n))
}

/// The projection of `a` onto the line of `b`: zero where `b · b` is zero, else
/// `b * ((a · b) / (b · b))`.
pub open spec fn proj_vect_spec<S: Ring>(a: Seq<S>, b: Seq<S>) -> Seq<S> {
    if S::is_zero_spec(dot_of(b, b)) {
        zeros::<S>(a.len())
    } else {
        mul_seq(b, S::div_spec(dot_of(a, b), dot_of(b, b)))
    }
}

/// The sum `((0 + t[0].0 * t[0].1) + t[1].0 * t[1].1) + ...` of the first `k` terms.
pub open spec fn linear_combination_spec<S: Ring>(t: Seq<(Seq<S>, S)>, k: int, n: nat) -> Seq<S>
    decreases k,
{
    if k <= 0 {
        zeros::<S>(n)
    } else {
        add_seq(linear_combination_spec(t, k - 1, n), mul_seq(t[k - 1].0, t[k - 1].1))
    }
}

/// The scalar cross product of two plane vectors, `a[0]*b[1] - b[0]*a[1]`.
pub open spec fn cross2_spec<S: Ring>(a: Seq<S>, b: Seq<S>) -> S {
    S::sub_spec(S::mul_spec(a[0], b[1]), S::mul_spec(b[0], a[1]))
}

/// The cross product of two space vectors.
pub open spec fn cross3_spec<S: Ring>(a: Seq<S>, b: Seq<S>) -> Seq<S> {
    seq![
        S::sub_spec(S::mul_spec(a[1], b[2]), S::mul_spec(b[1], a[2])),
        S::sub_spec(S::mul_spec(a[2], b[0]), S::mul_spec(b[2], a[0])),
        S::sub_spec(S::mul_spec(a[0], b[1]), S::mul_spec(b[0], a[1])),
    ]
}

impl<const N: usize, S: Ring> Vect<N, S> {
    /// The vector with `M - N` zeros inserted before position `i`.
    pub fn zero_extend<const M: usize>(self, i: usize) -> (r: Vect<M, S>)
        requires
            N < M,
            i <= N,
        ensures
            r@ == zero_extend_spec(self@, i as int, (M - N) as nat),
    {
        let mut a = [S::zero(); M];
        let mut j: usize = 0;
        while j < M
            invariant
                N < M,
                i <= N,
                j <= M,
                a@.len() == M,
                self@.len() == N,
                forall|k: int| 0 <= k < j ==> a@[k] == zero_extend_spec(self@, i as int, (M - N) as nat)[k],
            decreases M - j,
        {
            if j < i {
                a[j] = self.0[j];
            } else if j >= i + (M - N) {
                a[j] = self.0[j - (M - N)];
            } else {
                a[j] = S::zero();
            }
            j = j + 1;
        }
        assert(a@ =~= zero_extend_spec(self@, i as int, (M - N) as nat));
        Vect(a)
    }

    /// The vector whose component `i` is `f` of this one's component `i`.
    pub fn map<T: Ring, F: Fn(S) -> T>(self, f: F) -> (r: Vect<N, T>)
        requires
            forall|x: S| f.requires((x,)),
        ensures
            r@.len() == N,
            forall|i: int| 0 <= i < N ==> f.ensures((self@[i],), r@[i]),
    {
        let mut a = [T::zero(); N];
        let mut k: usize = 0;
        while k < N
            invariant
                k <= N,
                a@.len() == N,
                self@.len() == N,
                forall|x: S| f.requires((x,)),
                forall|i: int| 0 <= i < k ==> f.ensures((self@[i],), a@[i]),
            decreases N - k,
        {
            a[k] = f(self.0[k]);
            k = k + 1;
        }
        Vect(a)
    }

    /// The sum of `v * s` over the terms `(v, s)`, added in order onto zero.
    pub fn linear_combination<const L: usize>(terms: [(Self, S); L]) -> (r: Self)
        ensures
            r@ == linear_combination_spec(terms@.map_values(|t: (Self, S)| (t.0@, t.1)), L as int, N as nat),
    {
        let ghost t = terms@.map_values(|t: (Self, S)| (t.0@, t.1));
        let mut acc = Self::zero();
        let mut k: usize = 0;
        while k < L
            invariant
                k <= L,
                t == terms@.map_values(|t: (Self, S)| (t.0@, t.1)),
                acc@ == linear_combination_spec(t, k as int, N as nat),
            decreases L - k,
        {
            let term = terms[k];
            acc = acc.add(term.0.mul(term.1));
            k = k + 1;
        }
        acc
    }

    /// The first component.
    pub fn x(self) -> (r: S)
        requires
            1 <= N,
        ensures
            r == self@[0],
    {
        self.0[0]
    }

    /// The second component.
    pub fn y(self) -> (r: S)
        requires
            2 <= N,
        ensures
            r == self@[1],
    {
        self.0[1]
    }

    /// The third component.
    pub fn z(self) -> (r: S)
        requires
            3 <= N,
        ensures
            r == self@[2],
    {
        self.0[2]
    }

    /// The fourth component.
    pub fn w(self) -> (r: S)
        requires
            4 <= N,
        ensures
            r == self@[3],
    {
        self.0[3]
    }
}

impl<S: Ring> Vect<2, S> {
    /// The cross product of two plane vectors, a bivector of one component.
    pub fn cross(self, other: Self) -> (r: Vect<1, S>)
        ensures
            r@ == seq![cross2_spec(self@, other@)],
    {
        let r = Vect([self.0[0].mul(other.0[1]).sub(other.0[0].mul(self.0[1]))]);
        assert(r@ =~= seq![cross2_spec(self@, other@)]);
        r
    }
}

impl<S: Ring> Vect<3, S> {
    /// The cross product of two space vectors.
    pub fn cross(self, other: Self) -> (r: Vect<3, S>)
        ensures
            r@ == cross3_spec(self@, other@),
    {
        let a = self.0;
        let b = other.0;
        let r = Vect(
            [
                a[1].mul(b[2]).sub(b[1].mul(a[2])),
                a[2].mul(b[0]).sub(b[2].mul(a[0])),
                a[0].mul(b[1]).sub(b[0].mul(a[1])),
            ],
        );
        assert(r@ =~= cross3_spec(self@, other@));
        r
    }
}

impl<const N: usize, S: Field> Vect<N, S> {
    /// The projection onto the unit axis `axis`.
    pub fn proj(self, axis: Nrml<N, S>) -> (r: Self)
        ensures
            r@ == proj_spec(self@, axis@),
    {
        axis.relax().mul(self.dot(axis.relax()))
    }

    /// The projection onto `axis`, or zero where there is no axis.
    pub fn proj_opt(self, axis: Option<Nrml<N, S>>) -> (r: Self)
        ensures
            r@ == (match axis {
                Some(a) => proj_spec(self@, a@),
                None => zeros::<S>(N as nat),
            }),
    {
        match axis {
            Some(a) => self.proj(a),
            None => Vect::zero(),
        }
    }

    /// What is left after taking away the projection onto `axis`.
    pub fn rej(self, axis: Nrml<N, S>) -> (r: Self)
        ensures
            r@ == sub_seq(self@, proj_spec(self@, axis@)),
    {
        self.sub(self.proj(axis))
    }

    /// The projection onto `axis` and what is left beside it.
    pub fn proj_rej(self, axis: Nrml<N, S>) -> (r: (Self, Self))
        ensures
            r.0@ == proj_spec(self@, axis@),
            r.1@ == sub_seq(self@, proj_spec(self@, axis@)),
    {
        let proj = self.proj(axis);
        (proj, self.sub(proj))
    }

    /// The mirror image across the hyperplane orthogonal to `axis`:
    /// `self - proj * 2`.
    pub fn refl(self, axis: Nrml<N, S>) -> (r: Self)
        ensures
            r@ == sub_seq(self@, mul_seq(proj_spec(self@, axis@), S::two_spec())),
    {
        self.sub(self.proj(axis).mul(S::two()))
    }

    /// The projection onto the line of `axis`; zero where `axis · axis` is zero.
    pub fn proj_vect(self, axis: Vect<N, S>) -> (r: Self)
        ensures
            r@ == proj_vect_spec(self@, axis@),
    {
        let magn2 = axis.sqr_magn();
        if magn2.is_zero() {
            Vect::zero()
        } else {
            axis.mul(self.dot(axis).div(magn2))
        }
    }

    /// What is left after taking away the projection onto the line of `axis`.
    pub fn rej_vect(self, axis: Vect<N, S>) -> (r: Self)
        ensures
            r@ == sub_seq(self@, proj_vect_spec(self@, axis@)),
    {
        self.sub(self.proj_vect(axis))
    }

    /// The mirror image across the hyperplane orthogonal to the line of `axis`.
    pub fn refl_vect(self, axis: Vect<N, S>) -> (r: Self)
        ensures
            r@ == sub_seq(self@, mul_seq(proj_vect_spec(self@, axis@), S::two_spec())),
    {
        self.sub(self.proj_vect(axis).mul(S::two()))
    }
}


impl<const N: usize, S: Ring> Default for Vect<N, S> {
    /// The zero vector.
    fn default() -> (r: Self)
        ensures
            r@ == zeros::<S>(N as nat),
    {
        Vect::zero()
    }
}


/// The sum of the first `k` vectors of `v`, added in order onto zero.
pub open spec fn sum_spec<S: Ring>(v: Seq<Seq<S>>, k: int, n: nat) -> Seq<S>
    decreases k,
{
    if k <= 0 {
        zeros::<S>(n)
    } else {
        add_seq(sum_spec(v, k - 1, n), v[k - 1])
    }
}

impl<const N: usize, S: Ring> Vect<N, S> {
    /// The sum of `vects`, added in order onto zero.
    pub fn sum(vects: &[Vect<N, S>]) -> (r: Self)
        ensures
            r@ == sum_spec(vects@.map_values(|v: Vect<N, S>| v@), vects@.len() as int, N as nat),
    {
        let ghost vs = vects@.map_values(|v: Vect<N, S>| v@);
        let mut acc = Self::zero();
        let mut k: usize = 0;
        while k < vects.len()
            invariant
                k <= vects@.len(),
                vs == vects@.map_values(|v: Vect<N, S>| v@),
                acc@ == sum_spec(vs, k as int, N as nat),
            decreases vects@.len() - k,
        {
            acc = acc.add(vects[k]);
            k = k + 1;
        }
        acc
    }
}

} // verus!
