//! The scalar capabilities the library is written against.
use vstd::prelude::*;

verus! {

/// Arithmetic of a scalar type.
///
/// Each operation is described by a spec function of the implementing type, and the
/// executable method returns exactly its value. Nothing more is assumed of them:
/// the library's contracts are stated over these functions, which makes them hold for
/// IEEE floats as well as for exact number types.
pub trait Ring: Copy + Sized {
    spec fn zero_spec() -> Self;
    spec fn one_spec() -> Self;
    spec fn two_spec() -> Self;
    spec fn add_spec(a: Self, b: Self) -> Self;
    spec fn sub_spec(a: Self, b: Self) -> Self;
    spec fn mul_spec(a: Self, b: Self) -> Self;
    spec fn div_spec(a: Self, b: Self) -> Self;
    spec fn neg_spec(a: Self) -> Self;
    spec fn abs_spec(a: Self) -> Self;
    spec fn sign_spec(a: Self) -> Self;
    spec fn pow_spec(a: Self, n: u32) -> Self;
    spec fn rem_euclid_spec(a: Self, b: Self) -> Self;
    spec fn max_spec(a: Self, b: Self) -> Self;
    spec fn min_spec(a: Self, b: Self) -> Self;
    /// The partial order `a < b` (false whenever either side is unordered).
    spec fn lt_spec(a: Self, b: Self) -> bool;
    /// A total order on the scalars.
    spec fn cmp_spec(a: Self, b: Self) -> core::cmp::Ordering;
    spec fn is_zero_spec(a: Self) -> bool;
    spec fn is_nan_spec(a: Self) -> bool;
    spec fn is_finite_spec(a: Self) -> bool;

    /// What every scalar type meets on zero and one: the sums, products,
    /// differences and quotients of the two that stay exact in any number system,
    /// IEEE floats included (with zero as positive zero).
    proof fn lemma_unit_facts()
        ensures
            Self::add_spec(Self::zero_spec(), Self::zero_spec()) == Self::zero_spec(),
            Self::add_spec(Self::zero_spec(), Self::one_spec()) == Self::one_spec(),
            Self::add_spec(Self::one_spec(), Self::zero_spec()) == Self::one_spec(),
            Self::mul_spec(Self::zero_spec(), Self::zero_spec()) == Self::zero_spec(),
            Self::mul_spec(Self::one_spec(), Self::zero_spec()) == Self::zero_spec(),
            Self::mul_spec(Self::zero_spec(), Self::one_spec()) == Self::zero_spec(),
            Self::mul_spec(Self::one_spec(), Self::one_spec()) == Self::one_spec(),
            Self::sub_spec(Self::zero_spec(), Self::zero_spec()) == Self::zero_spec(),
            Self::sub_spec(Self::one_spec(), Self::zero_spec()) == Self::one_spec(),
            Self::div_spec(Self::zero_spec(), Self::one_spec()) == Self::zero_spec(),
            Self::div_spec(Self::one_spec(), Self::one_spec()) == Self::one_spec(),
            Self::abs_spec(Self::zero_spec()) == Self::zero_spec(),
            Self::abs_spec(Self::one_spec()) == Self::one_spec(),
            !Self::lt_spec(Self::one_spec(), Self::zero_spec()),
            Self::is_finite_spec(Self::zero_spec()),
            Self::is_finite_spec(Self::one_spec()),
            Self::is_zero_spec(Self::zero_spec()),
            !Self::is_zero_spec(Self::one_spec()),
    ;

    /// A finite scalar is not NaN.
    proof fn lemma_finite_not_nan(a: Self)
        ensures
            Self::is_finite_spec(a) ==> !Self::is_nan_spec(a),
    ;

    /// The order laws: `<` is irreflexive and transitive and holds only between
    /// values that are not NaN; away from NaN the total order `cmp` agrees with
    /// `<`; and NaN orders below every other value.
    proof fn lemma_order(a: Self, b: Self, c: Self)
        ensures
            !Self::lt_spec(a, a),
            Self::lt_spec(a, b) && Self::lt_spec(b, c) ==> Self::lt_spec(a, c),
            Self::lt_spec(a, b) ==> !Self::is_nan_spec(a) && !Self::is_nan_spec(b),
            !Self::is_nan_spec(a) && !Self::is_nan_spec(b) ==> {
                &&& (Self::cmp_spec(a, b) is Less) == Self::lt_spec(a, b)
                &&& (Self::cmp_spec(a, b) is Greater) == Self::lt_spec(b, a)
            },
            Self::is_nan_spec(a) && !Self::is_nan_spec(b) ==> Self::cmp_spec(a, b) is Less,
    ;

    fn zero() -> (r: Self)
        ensures
            r == Self::zero_spec(),
    ;

    fn one() -> (r: Self)
        ensures
            r == Self::one_spec(),
    ;

    fn two() -> (r: Self)
        ensures
            r == Self::two_spec(),
    ;

    fn add(self, other: Self) -> (r: Self)
        ensures
            r == Self::add_spec(self, other),
    ;

    fn sub(self, other: Self) -> (r: Self)
        ensures
            r == Self::sub_spec(self, other),
    ;

    fn mul(self, other: Self) -> (r: Self)
        ensures
            r == Self::mul_spec(self, other),
    ;

    fn div(self, other: Self) -> (r: Self)
        ensures
            r == Self::div_spec(self, other),
    ;

    fn neg(self) -> (r: Self)
        ensures
            r == Self::neg_spec(self),
    ;

    fn abs(self) -> (r: Self)
        ensures
            r == Self::abs_spec(self),
    ;

    fn sign(self) -> (r: Self)
        ensures
            r == Self::sign_spec(self),
    ;

    fn pow(self, n: u32) -> (r: Self)
        ensures
            r == Self::pow_spec(self, n),
    ;

    fn rem_euclid(self, other: Self) -> (r: Self)
        ensures
            r == Self::rem_euclid_spec(self, other),
    ;

    fn max(self, other: Self) -> (r: Self)
        ensures
            r == Self::max_spec(self, other),
    ;

    fn min(self, other: Self) -> (r: Self)
        ensures
            r == Self::min_spec(self, other),
    ;

    fn lt(&self, other: &Self) -> (r: bool)
        ensures
            r == Self::lt_spec(*self, *other),
    ;

    fn cmp(&self, other: &Self) -> (r: core::cmp::Ordering)
        ensures
            r == Self::cmp_spec(*self, *other),
    ;

    fn is_zero(self) -> (r: bool)
        ensures
            r == Self::is_zero_spec(self),
    ;

    fn is_nan(self) -> (r: bool)
        ensures
            r == Self::is_nan_spec(self),
    ;

    fn is_finite(self) -> (r: bool)
        ensures
            r == Self::is_finite_spec(self),
    ;

    /// `self` limited to `[min, max]` under the total order.
    fn clamp(self, min: Self, max: Self) -> (r: Self)
        ensures
            r == (if Self::cmp_spec(self, min) is Less {
                min
            } else if Self::cmp_spec(self, max) is Greater {
                max
            } else {
                self
            }),
            !Self::is_nan_spec(min) && !Self::is_nan_spec(max) && !Self::lt_spec(max, min) ==> {
                &&& !Self::lt_spec(r, min)
                &&& !Self::lt_spec(max, r)
                &&& !Self::is_nan_spec(self) && Self::lt_spec(self, min) ==> r == min
                &&& !Self::is_nan_spec(self) && Self::lt_spec(max, self) ==> r == max
                &&& !Self::is_nan_spec(self) && !Self::lt_spec(self, min) && !Self::lt_spec(max, self)
                    ==> r == self
            },
    {
        proof {
            Self::lemma_order(self, min, max);
            Self::lemma_order(min, max, self);
            Self::lemma_order(max, self, min);
            Self::lemma_order(min, min, min);
            Self::lemma_order(max, max, max);
            Self::lemma_order(self, max, min);
            Self::lemma_order(max, min, self);
            Self::lemma_order(min, self, max);
        }
        match self.cmp(&min) {
            core::cmp::Ordering::Less => min,
            _ => match self.cmp(&max) {
                core::cmp::Ordering::Greater => max,
                _ => self,
            },
        }
    }
}

/// `a ≤ b` for values that are not NaN: `b` is not below `a`.
pub open spec fn le_spec<S: Ring>(a: S, b: S) -> bool {
    !S::lt_spec(b, a)
}

/// `x` limited to `[lo, hi]`: `lo` when it orders below `lo`, else `hi` when it
/// orders above `hi`, else `x` itself.
pub open spec fn clamp_spec<S: Ring>(x: S, lo: S, hi: S) -> S {
    if S::cmp_spec(x, lo) is Less {
        lo
    } else if S::cmp_spec(x, hi) is Greater {
        hi
    } else {
        x
    }
}

/// The transcendental operations of a scalar type, on top of [`Ring`].
pub trait Field: Ring {
    spec fn half_spec() -> Self;
    spec fn pi_spec() -> Self;
    spec fn infinity_spec() -> Self;
    spec fn sqrt_spec(a: Self) -> Self;
    spec fn exp_spec(a: Self) -> Self;
    spec fn sin_spec(a: Self) -> Self;
    spec fn cos_spec(a: Self) -> Self;
    spec fn tan_spec(a: Self) -> Self;
    spec fn ln_spec(a: Self) -> Self;
    spec fn asin_spec(a: Self) -> Self;
    spec fn acos_spec(a: Self) -> Self;
    spec fn atan_spec(a: Self) -> Self;
    spec fn atan2_spec(y: Self, x: Self) -> Self;

    /// The square roots of zero and one are exact, and minus one is below one.
    proof fn lemma_sqrt_facts()
        ensures
            Self::lt_spec(Self::neg_spec(Self::one_spec()), Self::one_spec()),
            Self::sqrt_spec(Self::zero_spec()) == Self::zero_spec(),
            Self::sqrt_spec(Self::one_spec()) == Self::one_spec(),
    ;

    fn half() -> (r: Self)
        ensures
            r == Self::half_spec(),
    ;

    fn pi() -> (r: Self)
        ensures
            r == Self::pi_spec(),
    ;

    fn infinity() -> (r: Self)
        ensures
            r == Self::infinity_spec(),
    ;

    fn sqrt(self) -> (r: Self)
        ensures
            r == Self::sqrt_spec(self),
    ;

    fn exp(self) -> (r: Self)
        ensures
            r == Self::exp_spec(self),
    ;

    fn sin(self) -> (r: Self)
        ensures
            r == Self::sin_spec(self),
    ;

    fn cos(self) -> (r: Self)
        ensures
            r == Self::cos_spec(self),
    ;

    fn tan(self) -> (r: Self)
        ensures
            r == Self::tan_spec(self),
    ;

    /// The sine and the cosine of `self`, as `sin` and `cos` give them.
    fn sin_cos(self) -> (r: (Self, Self))
        ensures
            r == (Self::sin_spec(self), Self::cos_spec(self)),
    ;

    fn ln(self) -> (r: Self)
        ensures
            r == Self::ln_spec(self),
    ;

    fn asin(self) -> (r: Self)
        ensures
            r == Self::asin_spec(self),
    ;

    fn acos(self) -> (r: Self)
        ensures
            r == Self::acos_spec(self),
    ;

    fn atan(self) -> (r: Self)
        ensures
            r == Self::atan_spec(self),
    ;

    fn atan2(y: Self, x: Self) -> (r: Self)
        ensures
            r == Self::atan2_spec(y, x),
    ;
}


/// Truth values as scalars: `or` as sum, `and` as product.
impl Ring for bool {
    open spec fn zero_spec() -> bool {
        false
    }

    open spec fn one_spec() -> bool {
        true
    }

    open spec fn two_spec() -> bool {
        true
    }

    open spec fn add_spec(a: bool, b: bool) -> bool {
        a || b
    }

    open spec fn sub_spec(a: bool, b: bool) -> bool {
        a != b
    }

    open spec fn mul_spec(a: bool, b: bool) -> bool {
        a && b
    }

    open spec fn div_spec(a: bool, b: bool) -> bool {
        a == b
    }

    open spec fn neg_spec(a: bool) -> bool {
        a
    }

    open spec fn abs_spec(a: bool) -> bool {
        a
    }

    open spec fn sign_spec(a: bool) -> bool {
        a
    }

    open spec fn pow_spec(a: bool, n: u32) -> bool {
        a || n == 0
    }

    open spec fn rem_euclid_spec(a: bool, b: bool) -> bool {
        false
    }

    open spec fn max_spec(a: bool, b: bool) -> bool {
        a || b
    }

    open spec fn min_spec(a: bool, b: bool) -> bool {
        a && b
    }

    open spec fn lt_spec(a: bool, b: bool) -> bool {
        !a && b
    }

    open spec fn cmp_spec(a: bool, b: bool) -> core::cmp::Ordering {
        if a == b {
            core::cmp::Ordering::Equal
        } else if !a {
            core::cmp::Ordering::Less
        } else {
            core::cmp::Ordering::Greater
        }
    }

    open spec fn is_zero_spec(a: bool) -> bool {
        !a
    }

    open spec fn is_nan_spec(a: bool) -> bool {
        false
    }

    open spec fn is_finite_spec(a: bool) -> bool {
        true
    }

    proof fn lemma_unit_facts() {
    }

    proof fn lemma_finite_not_nan(a: bool) {
    }

    proof fn lemma_order(a: bool, b: bool, c: bool) {
    }

    fn zero() -> (r: bool) {
        false
    }

    fn one() -> (r: bool) {
        true
    }

    fn two() -> (r: bool) {
        true
    }

    fn add(self, other: bool) -> (r: bool) {
        self || other
    }

    fn sub(self, other: bool) -> (r: bool) {
        self != other
    }

    fn mul(self, other: bool) -> (r: bool) {
        self && other
    }

    fn div(self, other: bool) -> (r: bool) {
        self == other
    }

    fn neg(self) -> (r: bool) {
        self
    }

    fn abs(self) -> (r: bool) {
        self
    }

    fn sign(self) -> (r: bool) {
        self
    }

    fn pow(self, n: u32) -> (r: bool) {
        self || n == 0
    }

    fn rem_euclid(self, other: bool) -> (r: bool) {
        false
    }

    fn max(self, other: bool) -> (r: bool) {
        self || other
    }

    fn min(self, other: bool) -> (r: bool) {
        self && other
    }

    fn lt(&self, other: &bool) -> (r: bool) {
        !*self && *other
    }

    fn cmp(&self, other: &bool) -> (r: core::cmp::Ordering) {
        if *self == *other {
            core::cmp::Ordering::Equal
        } else if !*self {
            core::cmp::Ordering::Less
        } else {
            core::cmp::Ordering::Greater
        }
    }

    fn is_zero(self) -> (r: bool) {
        !self
    }

    fn is_nan(self) -> (r: bool) {
        false
    }

    fn is_finite(self) -> (r: bool) {
        true
    }
}

/// A scalar wrapped so that its operations read as methods of one type.
#[derive(Copy, Clone, PartialEq, PartialOrd, Debug)]
pub struct Sc<S>(pub S);

impl<S: Ring> Sc<S> {
    pub fn add(self, rhs: Self) -> (r: Self)
        ensures
            r.0 == S::add_spec(self.0, rhs.0),
    {
        Sc(self.0.add(rhs.0))
    }

    pub fn sub(self, rhs: Self) -> (r: Self)
        ensures
            r.0 == S::sub_spec(self.0, rhs.0),
    {
        Sc(self.0.sub(rhs.0))
    }

    pub fn mul(self, rhs: Self) -> (r: Self)
        ensures
            r.0 == S::mul_spec(self.0, rhs.0),
    {
        Sc(self.0.mul(rhs.0))
    }

    pub fn div(self, rhs: Self) -> (r: Self)
        ensures
            r.0 == S::div_spec(self.0, rhs.0),
    {
        Sc(self.0.div(rhs.0))
    }

    pub fn neg(self) -> (r: Self)
        ensures
            r.0 == S::neg_spec(self.0),
    {
        Sc(self.0.neg())
    }

    pub fn pow(self, other: u32) -> (r: Self)
        ensures
            r.0 == S::pow_spec(self.0, other),
    {
        Sc(self.0.pow(other))
    }

    pub fn max(self, other: Self) -> (r: Self)
        ensures
            r.0 == S::max_spec(self.0, other.0),
    {
        Sc(self.0.max(other.0))
    }

    pub fn min(self, other: Self) -> (r: Self)
        ensures
            r.0 == S::min_spec(self.0, other.0),
    {
        Sc(self.0.min(other.0))
    }

    pub fn clamp(self, min: Self, max: Self) -> (r: Self)
        ensures
            r.0 == clamp_spec(self.0, min.0, max.0),
            !S::is_nan_spec(min.0) && !S::is_nan_spec(max.0) && le_spec(min.0, max.0) ==> {
                &&& le_spec(min.0, r.0)
                &&& le_spec(r.0, max.0)
                &&& !S::is_nan_spec(self.0) && S::lt_spec(self.0, min.0) ==> r.0 == min.0
                &&& !S::is_nan_spec(self.0) && S::lt_spec(max.0, self.0) ==> r.0 == max.0
                &&& !S::is_nan_spec(self.0) && le_spec(min.0, self.0) && le_spec(self.0, max.0)
                    ==> r.0 == self.0
            },
    {
        Sc(self.0.clamp(min.0, max.0))
    }
}

impl<S: Field> Sc<S> {
    pub fn sqrt(self) -> (r: Self)
        ensures
            r.0 == S::sqrt_spec(self.0),
    {
        Sc(self.0.sqrt())
    }

    pub fn exp(self) -> (r: Self)
        ensures
            r.0 == S::exp_spec(self.0),
    {
        Sc(self.0.exp())
    }

    pub fn sin(self) -> (r: Self)
        ensures
            r.0 == S::sin_spec(self.0),
    {
        Sc(self.0.sin())
    }

    pub fn cos(self) -> (r: Self)
        ensures
            r.0 == S::cos_spec(self.0),
    {
        Sc(self.0.cos())
    }

    pub fn tan(self) -> (r: Self)
        ensures
            r.0 == S::tan_spec(self.0),
    {
        Sc(self.0.tan())
    }

    pub fn sin_cos(self) -> (r: (Self, Self))
        ensures
            r.0.0 == S::sin_spec(self.0),
            r.1.0 == S::cos_spec(self.0),
    {
        let (sin, cos) = self.0.sin_cos();
        (Sc(sin), Sc(cos))
    }

    pub fn ln(self) -> (r: Self)
        ensures
            r.0 == S::ln_spec(self.0),
    {
        Sc(self.0.ln())
    }

    pub fn asin(self) -> (r: Self)
        ensures
            r.0 == S::asin_spec(self.0),
    {
        Sc(self.0.asin())
    }

    pub fn acos(self) -> (r: Self)
        ensures
            r.0 == S::acos_spec(self.0),
    {
        Sc(self.0.acos())
    }

    pub fn atan(self) -> (r: Self)
        ensures
            r.0 == S::atan_spec(self.0),
    {
        Sc(self.0.atan())
    }

    pub fn atan2(y: Self, x: Self) -> (r: Self)
        ensures
            r.0 == S::atan2_spec(y.0, x.0),
    {
        Sc(S::atan2(y.0, x.0))
    }
}

} // verus!
