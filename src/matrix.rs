//! Matrices of scalars, their products, determinants and inverse.
use vstd::prelude::*;

use crate::traits::Ring;
use crate::vector::{div_all, dot_of, Vect};

verus! {

/// An `N`×`M` grid of scalars, stored row by row: a linear map from `S^M` to `S^N`.
#[derive(Copy, Clone, PartialEq, Eq, Hash, Debug)]
pub struct Mat<const N: usize, const M: usize, S>(pub [[S; M]; N]);

impl<const N: usize, const M: usize, S> View for Mat<N, M, S> {
    type V = Seq<Seq<S>>;

    open spec fn view(&self) -> Seq<Seq<S>> {
        self.0@.map_values(|r: [S; M]| r@)
    }
}

/// Whether `m` has `n` rows of `k` entries each.
pub open spec fn shaped<S>(m: Seq<Seq<S>>, n: nat, k: nat) -> bool {
    m.len() == n && forall|i: int| 0 <= i < n ==> (#[trigger] m[i]).len() == k
}

/// Column `j` of `m`.
pub open spec fn col_of<S>(m: Seq<Seq<S>>, j: int) -> Seq<S> {
    Seq::new(m.len(), |i: int| m[i][j])
}

/// The `n`×`k` matrix whose entry `(i, j)` is `f(i, j)`.
pub open spec fn grid<S>(n: nat, k: nat, f: spec_fn(int, int) -> S) -> Seq<Seq<S>> {
    Seq::new(n, |i: int| Seq::new(k, |j: int| f(i, j)))
}

/// The `n`×`n` identity matrix.
pub open spec fn ident_spec<S: Ring>(n: nat) -> Seq<Seq<S>> {
    grid(n, n, |i: int, j: int| if i == j { S::one_spec() } else { S::zero_spec() })
}

/// The matrix product: entry `(i, j)` is row `i` of `a` dotted with column `j` of `b`.
pub open spec fn mat_mul_spec<S: Ring>(a: Seq<Seq<S>>, b: Seq<Seq<S>>, p: nat) -> Seq<Seq<S>> {
    grid(a.len(), p, |i: int, j: int| dot_of(a[i], col_of(b, j)))
}

proof fn lemma_view_index<const N: usize, const M: usize, S>(m: Mat<N, M, S>, i: int, j: int)
    requires
        0 <= i < N,
        0 <= j < M,
    ensures
        m@[i][j] == m.0[i][j],
        m@[i].len() == M,
        m@.len() == N,
{
}

impl<const N: usize, const M: usize, S: Ring> Mat<N, M, S> {
    /// The matrix with the rows of `array`.
    pub fn new(array: [[S; M]; N]) -> (r: Self)
        ensures
            r.0 == array,
    {
        Mat(array)
    }

    /// The matrix whose entries are all zero.
    pub fn zero() -> (r: Self)
        ensures
            r@ == grid(N as nat, M as nat, |i: int, j: int| S::zero_spec()),
    {
        let r = Mat([[S::zero(); M]; N]);
        assert(r@ =~~= grid(N as nat, M as nat, |i: int, j: int| S::zero_spec()));
        r
    }

    /// Entry `(i, j)`.
    pub fn get(&self, i: usize, j: usize) -> (r: S)
        requires
            i < N,
            j < M,
        ensures
            r == self@[i as int][j as int],
    {
        self.0[i][j]
    }

    /// Entry `(i, j)`, or `None` where it lies outside the matrix.
    pub fn try_index(&self, i: usize, j: usize) -> (r: Option<S>)
        ensures
            r == (if i < N && j < M {
                Some(self@[i as int][j as int])
            } else {
                None
            }),
    {
        if i >= N || j >= M {
            None
        } else {
            Some(self.0[i][j])
        }
    }

    /// The matrix whose entry `(i, j)` is `f(i, j)`.
    pub fn from_fn<F: Fn(usize, usize) -> S>(f: F) -> (r: Self)
        requires
            forall|i: usize, j: usize| i < N && j < M ==> f.requires((i, j)),
        ensures
            shaped(r@, N as nat, M as nat),
            forall|i: int, j: int|
                0 <= i < N && 0 <= j < M ==> f.ensures((i as usize, j as usize), #[trigger] r@[i][j]),
    {
        let mut a = [[S::zero(); M]; N];
        let mut i: usize = 0;
        while i < N
            invariant
                i <= N,
                forall|i: usize, j: usize| i < N && j < M ==> f.requires((i, j)),
                forall|k: int, j: int|
                    0 <= k < i && 0 <= j < M ==> f.ensures((k as usize, j as usize), #[trigger] a[k][j]),
            decreases N - i,
        {
            let mut row = [S::zero(); M];
            let mut j: usize = 0;
            while j < M
                invariant
                    i < N,
                    j <= M,
                    forall|i: usize, j: usize| i < N && j < M ==> f.requires((i, j)),
                    forall|l: int| 0 <= l < j ==> f.ensures((i, l as usize), #[trigger] row[l]),
                decreases M - j,
            {
                row[j] = f(i, j);
                j = j + 1;
            }
            a[i] = row;
            i = i + 1;
        }
        let r = Mat(a);
        assert forall|i: int, j: int| 0 <= i < N && 0 <= j < M implies f.ensures(
            (i as usize, j as usize),
            #[trigger] r@[i][j],
        ) by {
            lemma_view_index(r, i, j);
        }
        r
    }

    /// Row `i` as a vector.
    pub fn row(&self, i: usize) -> (r: Vect<M, S>)
        requires
            i < N,
        ensures
            r@ == self@[i as int],
    {
        Vect(self.0[i])
    }

    /// Column `j` as a vector.
    pub fn col(&self, j: usize) -> (r: Vect<N, S>)
        requires
            j < M,
        ensures
            r@ == col_of(self@, j as int),
    {
        let mut a = [S::zero(); N];
        let mut i: usize = 0;
        while i < N
            invariant
                i <= N,
                j < M,
                forall|k: int| 0 <= k < i ==> a[k] == self.0[k][j as int],
            decreases N - i,
        {
            a[i] = self.0[i][j];
            i = i + 1;
        }
        assert(a@ =~= col_of(self@, j as int));
        Vect(a)
    }

    /// The image of `v`: entry `i` is row `i` dotted with `v`.
    pub fn mul_vect(&self, v: Vect<M, S>) -> (r: Vect<N, S>)
        ensures
            r@ == Seq::new(N as nat, |i: int| dot_of(self@[i], v@)),
    {
        let mut a = [S::zero(); N];
        let mut i: usize = 0;
        while i < N
            invariant
                i <= N,
                forall|k: int| 0 <= k < i ==> a[k] == dot_of(self@[k], v@),
            decreases N - i,
        {
            a[i] = self.row(i).dot(v);
            i = i + 1;
        }
        assert(a@ =~= Seq::new(N as nat, |i: int| dot_of(self@[i], v@)));
        Vect(a)
    }

    /// The matrix product `self * other`.
    pub fn mul<const P: usize>(&self, other: &Mat<M, P, S>) -> (r: Mat<N, P, S>)
        ensures
            r@ == mat_mul_spec(self@, other@, P as nat),
    {
        let mut a = [[S::zero(); P]; N];
        let mut i: usize = 0;
        while i < N
            invariant
                i <= N,
                forall|k: int, j: int|
                    0 <= k < i && 0 <= j < P ==> a[k][j] == dot_of(self@[k], col_of(other@, j)),
            decreases N - i,
        {
            let mut row = [S::zero(); P];
            let mut j: usize = 0;
            while j < P
                invariant
                    i < N,
                    j <= P,
                    forall|l: int| 0 <= l < j ==> row[l] == dot_of(self@[i as int], col_of(other@, l)),
                decreases P - j,
            {
                row[j] = self.row(i).dot(other.col(j));
                j = j + 1;
            }
            a[i] = row;
            i = i + 1;
        }
        let r = Mat(a);
        assert(r@ =~~= mat_mul_spec(self@, other@, P as nat));
        r
    }

    /// Each entry times the scalar `s`.
    pub fn scale(&self, s: S) -> (r: Self)
        ensures
            r@ == grid(N as nat, M as nat, |i: int, j: int| S::mul_spec(self@[i][j], s)),
    {
        let mut a = self.0;
        let mut i: usize = 0;
        while i < N
            invariant
                i <= N,
                forall|k: int, j: int| 0 <= k < i && 0 <= j < M ==> a[k][j] == S::mul_spec(self.0[k][j], s),
                forall|k: int| i <= k < N ==> a[k] == self.0[k],
            decreases N - i,
        {
            a[i] = Vect(a[i]).mul(s).0;
            i = i + 1;
        }
        let r = Mat(a);
        assert(r@ =~~= grid(N as nat, M as nat, |i: int, j: int| S::mul_spec(self@[i][j], s)));
        r
    }

    /// The entrywise sum.
    pub fn add(&self, other: &Self) -> (r: Self)
        ensures
            r@ == grid(N as nat, M as nat, |i: int, j: int| S::add_spec(self@[i][j], other@[i][j])),
    {
        let mut a = self.0;
        let mut i: usize = 0;
        while i < N
            invariant
                i <= N,
                forall|k: int, j: int|
                    0 <= k < i && 0 <= j < M ==> a[k][j] == S::add_spec(self.0[k][j], other.0[k][j]),
                forall|k: int| i <= k < N ==> a[k] == self.0[k],
            decreases N - i,
        {
            a[i] = Vect(a[i]).add(Vect(other.0[i])).0;
            i = i + 1;
        }
        let r = Mat(a);
        assert(r@ =~~= grid(N as nat, M as nat, |i: int, j: int| S::add_spec(self@[i][j], other@[i][j])));
        r
    }

    /// The entrywise difference.
    pub fn sub(&self, other: &Self) -> (r: Self)
        ensures
            r@ == grid(N as nat, M as nat, |i: int, j: int| S::sub_spec(self@[i][j], other@[i][j])),
    {
        let mut a = self.0;
        let mut i: usize = 0;
        while i < N
            invariant
                i <= N,
                forall|k: int, j: int|
                    0 <= k < i && 0 <= j < M ==> a[k][j] == S::sub_spec(self.0[k][j], other.0[k][j]),
                forall|k: int| i <= k < N ==> a[k] == self.0[k],
            decreases N - i,
        {
            a[i] = Vect(a[i]).sub(Vect(other.0[i])).0;
            i = i + 1;
        }
        let r = Mat(a);
        assert(r@ =~~= grid(N as nat, M as nat, |i: int, j: int| S::sub_spec(self@[i][j], other@[i][j])));
        r
    }

    /// The entrywise negation.
    pub fn neg(&self) -> (r: Self)
        ensures
            r@ == grid(N as nat, M as nat, |i: int, j: int| S::neg_spec(self@[i][j])),
    {
        let mut a = self.0;
        let mut i: usize = 0;
        while i < N
            invariant
                i <= N,
                forall|k: int, j: int| 0 <= k < i && 0 <= j < M ==> a[k][j] == S::neg_spec(self.0[k][j]),
                forall|k: int| i <= k < N ==> a[k] == self.0[k],
            decreases N - i,
        {
            a[i] = Vect(a[i]).neg().0;
            i = i + 1;
        }
        let r = Mat(a);
        assert(r@ =~~= grid(N as nat, M as nat, |i: int, j: int| S::neg_spec(self@[i][j])));
        r
    }
}

impl<const N: usize, S: Ring> Mat<N, N, S> {
    /// The identity matrix.
    pub fn ident() -> (r: Self)
        ensures
            r@ == ident_spec::<S>(N as nat),
    {
        let mut a = [[S::zero(); N]; N];
        let mut i: usize = 0;
        while i < N
            invariant
                i <= N,
                forall|k: int, j: int|
                    0 <= k < N && 0 <= j < N ==> a[k][j] == (if k == j && k < i {
                        S::one_spec()
                    } else {
                        S::zero_spec()
                    }),
            decreases N - i,
        {
            let mut row = a[i];
            row[i] = S::one();
            a[i] = row;
            i = i + 1;
        }
        let r = Mat(a);
        assert(r@ =~~= ident_spec::<S>(N as nat));
        r
    }
}

impl<S: Ring> Mat<1, 1, S> {
    /// The determinant of a 1×1 matrix: its entry.
    pub fn det(&self) -> (r: S)
        ensures
            r == self@[0][0],
            self@ == ident_spec::<S>(1) ==> r == S::one_spec(),
    {
        proof {
            lemma_det_of_identity::<S>();
            lemma_view_index(*self, 0, 0);
        }
        self.0[0][0]
    }
}

impl<S: Ring> Mat<2, 2, S> {
    /// The determinant `a*d - b*c`.
    pub fn det(&self) -> (r: S)
        ensures
            r == S::sub_spec(
                S::mul_spec(self@[0][0], self@[1][1]),
                S::mul_spec(self@[0][1], self@[1][0]),
            ),
            self@ == ident_spec::<S>(2) ==> r == S::one_spec(),
    {
        proof {
            lemma_det_of_identity::<S>();
        }
        self.0[0][0].mul(self.0[1][1]).sub(self.0[0][1].mul(self.0[1][0]))
    }
}

/// The cofactor expansion of a 3×3 determinant,
/// `(aei + bfg + cdh) - (ceg + bdi + afh)`, each product and sum taken left to right.
pub open spec fn det3_spec<S: Ring>(m: Seq<Seq<S>>) -> S {
    let (a, b, c) = (m[0][0], m[0][1], m[0][2]);
    let (d, e, f) = (m[1][0], m[1][1], m[1][2]);
    let (g, h, i) = (m[2][0], m[2][1], m[2][2]);
    S::sub_spec(
        S::add_spec(
            S::add_spec(S::mul_spec(S::mul_spec(a, e), i), S::mul_spec(S::mul_spec(b, f), g)),
            S::mul_spec(S::mul_spec(c, d), h),
        ),
        S::add_spec(
            S::add_spec(S::mul_spec(S::mul_spec(c, e), g), S::mul_spec(S::mul_spec(b, d), i)),
            S::mul_spec(S::mul_spec(a, f), h),
        ),
    )
}

impl<S: Ring> Mat<3, 3, S> {
    /// The determinant, by cofactor expansion.
    pub fn det(&self) -> (r: S)
        ensures
            r == det3_spec(self@),
            self@ == ident_spec::<S>(3) ==> r == S::one_spec(),
    {
        proof {
            lemma_det_of_identity::<S>();
        }
        let m = self.0;
        let (a, b, c) = (m[0][0], m[0][1], m[0][2]);
        let (d, e, f) = (m[1][0], m[1][1], m[1][2]);
        let (g, h, i) = (m[2][0], m[2][1], m[2][2]);
        let pos = a.mul(e).mul(i).add(b.mul(f).mul(g)).add(c.mul(d).mul(h));
        let neg = c.mul(e).mul(g).add(b.mul(d).mul(i)).add(a.mul(f).mul(h));
        pos.sub(neg)
    }
}

impl<S: Ring> Mat<4, 4, S> {
    /// The entries column by column: position `k` holds entry `(k % 4, k / 4)`.
    pub fn flatten(&self) -> (r: [S; 16])
        ensures
            forall|k: int| 0 <= k < 16 ==> r[k] == self@[k % 4][k / 4],
    {
        let mut a = [S::zero(); 16];
        let mut k: usize = 0;
        while k < 16
            invariant
                k <= 16,
                forall|l: int| 0 <= l < k ==> a[l] == self.0[l % 4][l / 4],
            decreases 16 - k,
        {
            a[k] = self.0[k % 4][k / 4];
            k = k + 1;
        }
        a
    }
}

impl<const N: usize, S: Ring> Vect<N, S> {
    /// The row vector times a matrix: entry `j` is this vector dotted with column `j`.
    pub fn mul_mat<const M: usize>(self, m: &Mat<N, M, S>) -> (r: Vect<M, S>)
        ensures
            r@ == Seq::new(M as nat, |j: int| dot_of(self@, col_of(m@, j))),
    {
        let mut a = [S::zero(); M];
        let mut j: usize = 0;
        while j < M
            invariant
                j <= M,
                forall|k: int| 0 <= k < j ==> a[k] == dot_of(self@, col_of(m@, k)),
            decreases M - j,
        {
            a[j] = self.dot(m.col(j));
            j = j + 1;
        }
        assert(a@ =~= Seq::new(M as nat, |j: int| dot_of(self@, col_of(m@, j))));
        Vect(a)
    }
}


/// `m` with rows `i1` and `i2` exchanged.
pub open spec fn row_swap_spec<S>(m: Seq<Seq<S>>, i1: int, i2: int) -> Seq<Seq<S>> {
    m.update(i1, m[i2]).update(i2, m[i1])
}

/// `m` with row `i1` replaced by `row i1 - row i2 * c`, entry by entry.
pub open spec fn row_sub_spec<S: Ring>(m: Seq<Seq<S>>, i1: int, c: S, i2: int) -> Seq<Seq<S>> {
    m.update(i1, Seq::new(m[i1].len(), |j: int| S::sub_spec(m[i1][j], S::mul_spec(m[i2][j], c))))
}

/// `m` with row `i` divided by `d`.
pub open spec fn row_div_spec<S: Ring>(m: Seq<Seq<S>>, i: int, d: S) -> Seq<Seq<S>> {
    m.update(i, div_all(m[i], d))
}

/// A matrix beside another with the same number of rows: `[A | B]`.
pub type Aug<S> = (Seq<Seq<S>>, Seq<Seq<S>>);

/// Rows `i1` and `i2` exchanged on both sides.
pub open spec fn aug_swap<S>(g: Aug<S>, i1: int, i2: int) -> Aug<S> {
    (row_swap_spec(g.0, i1, i2), row_swap_spec(g.1, i1, i2))
}

/// Row `i1` reduced by `c` times row `i2` on both sides.
pub open spec fn aug_sub<S: Ring>(g: Aug<S>, i1: int, c: S, i2: int) -> Aug<S> {
    (row_sub_spec(g.0, i1, c, i2), row_sub_spec(g.1, i1, c, i2))
}

/// Row `i` divided by `d` on both sides.
pub open spec fn aug_div<S: Ring>(g: Aug<S>, i: int, d: S) -> Aug<S> {
    (row_div_spec(g.0, i, d), row_div_spec(g.1, i, d))
}

/// The row in `[j, i)` whose entry in column `j` is largest in absolute value;
/// the first such row where several tie.
pub open spec fn pivot_spec<S: Ring>(a: Seq<Seq<S>>, j: int, i: int) -> int
    decreases i - j,
{
    if i <= j + 1 {
        j
    } else {
        let p = pivot_spec(a, j, i - 1);
        if S::lt_spec(S::abs_spec(a[p][j]), S::abs_spec(a[i - 1][j])) {
            i - 1
        } else {
            p
        }
    }
}

/// Rows `j + 1` up to `i` after eliminating column `j` from each of them with row `j`.
pub open spec fn elim_below<S: Ring>(g: Aug<S>, j: int, i: int) -> Aug<S>
    decreases i - j,
{
    if i <= j + 1 {
        g
    } else {
        let h = elim_below(g, j, i - 1);
        aug_sub(h, i - 1, h.0[i - 1][j], j)
    }
}

/// One step of forward elimination on column `j` of an `n`-row pair: bring the
/// pivot row up, divide it by its pivot, and clear the column below it.
pub open spec fn forward_col<S: Ring>(g: Aug<S>, j: int, n: int) -> Aug<S> {
    let p = pivot_spec(g.0, j, n);
    let g1 = if p != j {
        aug_swap(g, j, p)
    } else {
        g
    };
    let g2 = aug_div(g1, j, g1.0[j][j]);
    elim_below(g2, j, n)
}

/// Forward elimination on the first `k` columns.
pub open spec fn forward<S: Ring>(g: Aug<S>, k: int, n: int) -> Aug<S>
    decreases k,
{
    if k <= 0 {
        g
    } else {
        forward_col(forward(g, k - 1, n), k - 1, n)
    }
}

/// Row `i` after clearing its entries in columns `i + 1` up to `j` with the rows below.
pub open spec fn back_row<S: Ring>(g: Aug<S>, i: int, j: int) -> Aug<S>
    decreases j - i,
{
    if j <= i + 1 {
        g
    } else {
        let h = back_row(g, i, j - 1);
        aug_sub(h, i, h.0[i][j - 1], j - 1)
    }
}

/// Back substitution on the `k` rows from `n - 2` upward.
pub open spec fn back<S: Ring>(g: Aug<S>, k: int, n: int) -> Aug<S>
    decreases k,
{
    if k <= 0 {
        g
    } else {
        back_row(back(g, k - 1, n), n - 1 - k, n)
    }
}

/// The Gauss-Jordan inverse of the `n`×`n` matrix `m`: `[m | I]` reduced by forward
/// elimination with partial pivoting and then back substitution; the right half.
pub open spec fn inverse_spec<S: Ring>(m: Seq<Seq<S>>) -> Seq<Seq<S>> {
    let n = m.len() as int;
    if n == 0 {
        m
    } else {
        back(forward((m, ident_spec::<S>(n as nat)), n, n), n - 1, n).1
    }
}

impl<const N: usize, const M: usize, S: Ring> Mat<N, M, S> {
    fn row_swap_assign(&mut self, i1: usize, i2: usize)
        requires
            i1 < N,
            i2 < N,
        ensures
            final(self)@ == row_swap_spec(old(self)@, i1 as int, i2 as int),
    {
        let r1 = self.0[i1];
        let r2 = self.0[i2];
        self.0[i1] = r2;
        self.0[i2] = r1;
        assert(self@ =~= row_swap_spec(old(self)@, i1 as int, i2 as int));
    }

    fn row_sub_assign(&mut self, i1: usize, coefficient: S, i2: usize)
        requires
            i1 < N,
            i2 < N,
        ensures
            final(self)@ == row_sub_spec(old(self)@, i1 as int, coefficient, i2 as int),
    {
        let src = self.0[i2];
        let mut row = self.0[i1];
        let mut j: usize = 0;
        while j < M
            invariant
                j <= M,
                forall|l: int| 0 <= l < j ==> row[l] == S::sub_spec(old(self).0[i1 as int][l], S::mul_spec(src[l], coefficient)),
                forall|l: int| j <= l < M ==> row[l] == old(self).0[i1 as int][l],
            decreases M - j,
        {
            row[j] = row[j].sub(src[j].mul(coefficient));
            j = j + 1;
        }
        self.0[i1] = row;
        assert(self@ =~~= row_sub_spec(old(self)@, i1 as int, coefficient, i2 as int));
    }

    fn row_div_assign(&mut self, i: usize, divisor: S)
        requires
            i < N,
        ensures
            final(self)@ == row_div_spec(old(self)@, i as int, divisor),
    {
        let row = Vect(self.0[i]).div(divisor);
        self.0[i] = row.0;
        assert(self@ =~= row_div_spec(old(self)@, i as int, divisor));
    }
}

/// A matrix and a second one beside it, on which row operations act together.
struct AugMat<const N: usize, const M1: usize, const M2: usize, S>(Mat<N, M1, S>, Mat<N, M2, S>);

impl<const N: usize, const M1: usize, const M2: usize, S: Ring> AugMat<N, M1, M2, S> {
    spec fn aug(self) -> Aug<S> {
        (self.0@, self.1@)
    }

    fn row_swap_assign(&mut self, i1: usize, i2: usize)
        requires
            i1 < N,
            i2 < N,
        ensures
            final(self).aug() == aug_swap(old(self).aug(), i1 as int, i2 as int),
    {
        self.0.row_swap_assign(i1, i2);
        self.1.row_swap_assign(i1, i2);
    }

    fn row_sub_assign(&mut self, i1: usize, coefficient: S, i2: usize)
        requires
            i1 < N,
            i2 < N,
        ensures
            final(self).aug() == aug_sub(old(self).aug(), i1 as int, coefficient, i2 as int),
    {
        self.0.row_sub_assign(i1, coefficient, i2);
        self.1.row_sub_assign(i1, coefficient, i2);
    }

    fn row_div_assign(&mut self, i: usize, divisor: S)
        requires
            i < N,
        ensures
            final(self).aug() == aug_div(old(self).aug(), i as int, divisor),
    {
        self.0.row_div_assign(i, divisor);
        self.1.row_div_assign(i, divisor);
    }
}

impl<const N: usize, S: Ring> Mat<N, N, S> {
    /// The inverse by Gauss-Jordan elimination with partial pivoting. A singular
    /// matrix is not detected: its zero pivot carries non-finite values into the
    /// result.
    pub fn inverse(&self) -> (r: Self)
        ensures
            r@ == inverse_spec(self@),
    {
        let ghost n = N as int;
        let ghost g0: Aug<S> = (self@, ident_spec::<S>(N as nat));
        let mut aug = AugMat(*self, Self::ident());
        if N == 0 {
            assert(aug.1@ =~= self@);
            return aug.1;
        }
        let mut j: usize = 0;
        while j < N
            invariant
                j <= N,
                n == N,
                aug.aug() == forward(g0, j as int, n),
            decreases N - j,
        {
            let ghost start = aug.aug();
            let mut max = aug.0.0[j][j].abs();
            let mut i_max: usize = j;
            let mut i: usize = j + 1;
            while i < N
                invariant
                    j < N,
                    j < i <= N,
                    j <= i_max < N,
                    aug.aug() == start,
                    i_max == pivot_spec(start.0, j as int, i as int),
                    max == S::abs_spec(start.0[i_max as int][j as int]),
                decreases N - i,
            {
                proof {
                    lemma_view_index(aug.0, i as int, j as int);
                }
                let value = aug.0.0[i][j].abs();
                if max.lt(&value) {
                    max = value;
                    i_max = i;
                }
                i = i + 1;
            }
            proof {
                lemma_view_index(aug.0, j as int, j as int);
            }
            if j != i_max {
                aug.row_swap_assign(j, i_max);
            }
            let ghost g1 = aug.aug();
            proof {
                lemma_view_index(aug.0, j as int, j as int);
            }
            let d = aug.0.0[j][j];
            aug.row_div_assign(j, d);
            let ghost g2 = aug.aug();
            let mut i: usize = j + 1;
            while i < N
                invariant
                    j < N,
                    j < i <= N,
                    aug.aug() == elim_below(g2, j as int, i as int),
                decreases N - i,
            {
                proof {
                    lemma_view_index(aug.0, i as int, j as int);
                }
                let c = aug.0.0[i][j];
                aug.row_sub_assign(i, c, j);
                i = i + 1;
            }
            j = j + 1;
        }
        let ghost f = aug.aug();
        let mut k: usize = 0;
        while k < N - 1
            invariant
                N > 0,
                k <= N - 1,
                n == N,
                f == forward(g0, n, n),
                aug.aug() == back(f, k as int, n),
            decreases N - 1 - k,
        {
            let i = N - 2 - k;
            let ghost h = aug.aug();
            let mut j: usize = i + 1;
            while j < N
                invariant
                    i + 1 < N,
                    i < j <= N,
                    aug.aug() == back_row(h, i as int, j as int),
                decreases N - j,
            {
                proof {
                    lemma_view_index(aug.0, i as int, j as int);
                }
                let c = aug.0.0[i][j];
                aug.row_sub_assign(i, c, j);
                j = j + 1;
            }
            k = k + 1;
        }
        aug.1
    }
}


proof fn lemma_ident_entries<S: Ring>(n: nat, i: int, j: int)
    requires
        0 <= i < n,
        0 <= j < n,
    ensures
        ident_spec::<S>(n)[i][j] == (if i == j {
            S::one_spec()
        } else {
            S::zero_spec()
        }),
        ident_spec::<S>(n)[i].len() == n,
        ident_spec::<S>(n).len() == n,
{
}

proof fn lemma_ident_row_sub<S: Ring>(n: nat, i1: int, i2: int)
    requires
        0 <= i1 < n,
        0 <= i2 < n,
    ensures
        row_sub_spec(ident_spec::<S>(n), i1, S::zero_spec(), i2) == ident_spec::<S>(n),
{
    S::lemma_unit_facts();
    let m = ident_spec::<S>(n);
    let r = row_sub_spec(m, i1, S::zero_spec(), i2);
    assert forall|i: int| 0 <= i < n implies #[trigger] r[i] =~= m[i] by {
        if i == i1 {
            assert forall|j: int| 0 <= j < n implies r[i][j] == m[i][j] by {
                lemma_ident_entries::<S>(n, i1, j);
                lemma_ident_entries::<S>(n, i2, j);
            }
        }
    }
    assert(r =~= m);
}

proof fn lemma_ident_pivot<S: Ring>(n: nat, j: int, i: int)
    requires
        0 <= j < i <= n,
    ensures
        pivot_spec(ident_spec::<S>(n), j, i) == j,
    decreases i - j,
{
    S::lemma_unit_facts();
    if i > j + 1 {
        lemma_ident_pivot::<S>(n, j, i - 1);
        lemma_ident_entries::<S>(n, j, j);
        lemma_ident_entries::<S>(n, i - 1, j);
    }
}

proof fn lemma_ident_elim<S: Ring>(n: nat, j: int, i: int)
    requires
        0 <= j < i <= n,
    ensures
        elim_below((ident_spec::<S>(n), ident_spec::<S>(n)), j, i) == (ident_spec::<S>(n), ident_spec::<S>(n)),
    decreases i - j,
{
    if i > j + 1 {
        lemma_ident_elim::<S>(n, j, i - 1);
        lemma_ident_entries::<S>(n, i - 1, j);
        lemma_ident_row_sub::<S>(n, i - 1, j);
    }
}

proof fn lemma_ident_back_row<S: Ring>(n: nat, i: int, j: int)
    requires
        0 <= i < j <= n,
    ensures
        back_row((ident_spec::<S>(n), ident_spec::<S>(n)), i, j) == (ident_spec::<S>(n), ident_spec::<S>(n)),
    decreases j - i,
{
    if j > i + 1 {
        lemma_ident_back_row::<S>(n, i, j - 1);
        lemma_ident_entries::<S>(n, i, j - 1);
        lemma_ident_row_sub::<S>(n, i, j - 1);
    }
}

proof fn lemma_ident_forward<S: Ring>(n: nat, k: int)
    requires
        0 <= k <= n,
    ensures
        forward((ident_spec::<S>(n), ident_spec::<S>(n)), k, n as int) == (ident_spec::<S>(n), ident_spec::<S>(n)),
    decreases k,
{
    S::lemma_unit_facts();
    if k > 0 {
        let id = ident_spec::<S>(n);
        let j = k - 1;
        lemma_ident_forward::<S>(n, j);
        lemma_ident_pivot::<S>(n, j, n as int);
        lemma_ident_entries::<S>(n, j, j);
        assert forall|l: int| 0 <= l < n implies #[trigger] div_all(id[j], S::one_spec())[l] == id[j][l] by {
            lemma_ident_entries::<S>(n, j, l);
        }
        assert(div_all(id[j], S::one_spec()) =~= id[j]);
        assert(row_div_spec(id, j, S::one_spec()) =~= id);
        lemma_ident_elim::<S>(n, j, n as int);
    }
}

proof fn lemma_ident_back<S: Ring>(n: nat, k: int)
    requires
        0 <= k <= n - 1,
    ensures
        back((ident_spec::<S>(n), ident_spec::<S>(n)), k, n as int) == (ident_spec::<S>(n), ident_spec::<S>(n)),
    decreases k,
{
    if k > 0 {
        lemma_ident_back::<S>(n, k - 1);
        lemma_ident_back_row::<S>(n, n - 1 - k, n as int);
    }
}

/// Inverting the identity matrix of any size gives the identity matrix back.
pub proof fn lemma_inverse_of_identity<S: Ring>(n: nat)
    ensures
        inverse_spec(ident_spec::<S>(n)) == ident_spec::<S>(n),
{
    if n > 0 {
        lemma_ident_forward::<S>(n, n as int);
        lemma_ident_back::<S>(n, n - 1);
    }
}


impl<const N: usize, const M: usize, S: Ring> Default for Mat<N, M, S> {
    /// The zero matrix.
    fn default() -> (r: Self)
        ensures
            r@ == grid(N as nat, M as nat, |i: int, j: int| S::zero_spec()),
    {
        Mat::zero()
    }
}


/// The identity matrices of sizes one to three have determinant one.
pub proof fn lemma_det_of_identity<S: Ring>()
    ensures
        ident_spec::<S>(1)[0][0] == S::one_spec(),
        S::sub_spec(
            S::mul_spec(ident_spec::<S>(2)[0][0], ident_spec::<S>(2)[1][1]),
            S::mul_spec(ident_spec::<S>(2)[0][1], ident_spec::<S>(2)[1][0]),
        ) == S::one_spec(),
        det3_spec(ident_spec::<S>(3)) == S::one_spec(),
{
    S::lemma_unit_facts();
}

} // verus!
