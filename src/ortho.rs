//! Orthonormal, properly oriented frames built by Gram-Schmidt.
use vstd::prelude::*;

use crate::matrix::{det3_spec, Mat};
use crate::normal::{axis_spec, lemma_nrml_len, nrml_dot_spec, Nrml};
use crate::rotor::Rot;
use crate::traits::{Field, Ring};
use crate::vector::{mul_seq, neg_seq, normal_spec, sub_seq, Vect};

verus! {

broadcast use lemma_nrml_len;

/// `N` unit normals meant as an orthonormal, right-handed frame: pairwise
/// orthogonal, and with a non-negative determinant as the rows of a matrix.
/// Frames are made only by Gram-Schmidt over candidate directions, completed with
/// standard axes where the candidates run out.
#[derive(Copy, Clone, PartialEq, Debug)]
pub struct Ortho<const N: usize, S>(pub(crate) [Nrml<N, S>; N]);

impl<const N: usize, S> View for Ortho<N, S> {
    type V = Seq<Seq<S>>;

    closed spec fn view(&self) -> Seq<Seq<S>> {
        self.0@.map_values(|n: Nrml<N, S>| n@)
    }
}

/// A frame has `N` axes of `N` components each.
pub broadcast proof fn lemma_ortho_shape<const N: usize, S>(o: Ortho<N, S>)
    ensures
        #[trigger] o@.len() == N,
        forall|i: int| 0 <= i < N ==> (#[trigger] o@[i]).len() == N,
{
}

/// A frame while it is being filled: its axes, the next slot to fill (below zero once
/// all are filled), and the position in the cycle of fallback axes.
pub type GsState<S> = (Seq<Seq<S>>, int, int);

/// `v` rejected in turn against axes `lo` up to `k` of `o`, each rejection
/// normalised; `None` as soon as one has no direction.
pub open spec fn reject_upto<S: Field>(v: Seq<S>, o: Seq<Seq<S>>, lo: int, k: int) -> Option<Seq<S>>
    decreases k - lo,
{
    if k <= lo {
        Some(v)
    } else {
        match reject_upto(v, o, lo, k - 1) {
            None => None,
            Some(u) => normal_spec(sub_seq(u, mul_seq(o[k - 1], nrml_dot_spec(u, o[k - 1])))),
        }
    }
}

/// The standard axes in reverse order, the starting frame.
pub open spec fn gs_init<S: Ring>(n: int) -> GsState<S> {
    (Seq::new(n as nat, |i: int| axis_spec::<S>(n as nat, n - 1 - i)), n - 1, 0)
}

/// One candidate offered to the frame: rejected against the axes already fixed, it
/// fills the next slot unless it has become degenerate. The fallback cycle moves on.
pub open spec fn gs_next<S: Field>(st: GsState<S>, v: Seq<S>, n: int) -> GsState<S> {
    let cyc = if st.2 + 1 >= n {
        0
    } else {
        st.2 + 1
    };
    if st.1 < 0 {
        (st.0, st.1, cyc)
    } else {
        match reject_upto(v, st.0, st.1 + 1, n) {
            None => (st.0, st.1, cyc),
            Some(u) => (st.0.update(st.1, u), st.1 - 1, cyc),
        }
    }
}

/// The frame after the first `k` candidates of `c`.
pub open spec fn gs_cands<S: Field>(c: Seq<Seq<S>>, k: int, n: int) -> GsState<S>
    decreases k,
{
    if k <= 0 {
        gs_init(n)
    } else {
        gs_next(gs_cands(c, k - 1, n), c[k - 1], n)
    }
}

/// The frame after `t` more standard axes from the fallback cycle, which runs
/// through the axes from the last to the first.
pub open spec fn gs_fallback<S: Field>(st: GsState<S>, t: int, n: int) -> GsState<S>
    decreases t,
{
    if t <= 0 {
        st
    } else {
        let s = gs_fallback(st, t - 1, n);
        gs_next(s, axis_spec::<S>(n as nat, n - 1 - s.2), n)
    }
}

/// The filled frame: all candidates, then `n * n` fallback axes.
pub open spec fn frame_spec<S: Field>(c: Seq<Seq<S>>, n: int) -> Seq<Seq<S>> {
    gs_fallback(gs_cands(c, c.len() as int, n), n * n, n).0
}

/// `f` with its first axis negated where `det` of it is negative.
pub open spec fn oriented<S: Ring>(f: Seq<Seq<S>>, det: S) -> Seq<Seq<S>> {
    if S::lt_spec(det, S::zero_spec()) {
        f.update(0, neg_seq(f[0]))
    } else {
        f
    }
}

/// The determinant of a 2×2 matrix, `a*d - b*c`.
pub open spec fn det2_spec<S: Ring>(m: Seq<Seq<S>>) -> S {
    S::sub_spec(S::mul_spec(m[0][0], m[1][1]), S::mul_spec(m[0][1], m[1][0]))
}

/// The frame built from candidate unit normals `c` on a line: its one axis
/// negated where its single component is negative.
pub open spec fn ortho1_spec<S: Field>(c: Seq<Seq<S>>) -> Seq<Seq<S>> {
    oriented(frame_spec(c, 1), frame_spec(c, 1)[0][0])
}

/// The frame built from candidate unit normals `c` in the plane.
pub open spec fn ortho2_spec<S: Field>(c: Seq<Seq<S>>) -> Seq<Seq<S>> {
    oriented(frame_spec(c, 2), det2_spec(frame_spec(c, 2)))
}

/// The frame built from candidate unit normals `c` in space.
pub open spec fn ortho3_spec<S: Field>(c: Seq<Seq<S>>) -> Seq<Seq<S>> {
    oriented(frame_spec(c, 3), det3_spec(frame_spec(c, 3)))
}

/// The unit normals of those vectors of `v` that have a direction, in order.
pub open spec fn normals_of<S: Field>(v: Seq<Seq<S>>) -> Seq<Seq<S>>
    decreases v.len(),
{
    if v.len() == 0 {
        Seq::empty()
    } else {
        let rest = normals_of(v.drop_last());
        match normal_spec(v.last()) {
            Some(n) => rest.push(n),
            None => rest,
        }
    }
}

/// The components of each unit normal of `c`.
pub open spec fn nrml_views<const N: usize, S>(c: Seq<Nrml<N, S>>) -> Seq<Seq<S>> {
    c.map_values(|n: Nrml<N, S>| n@)
}

/// The components of each vector of `c`.
pub open spec fn vect_views<const N: usize, S>(c: Seq<Vect<N, S>>) -> Seq<Seq<S>> {
    c.map_values(|v: Vect<N, S>| v@)
}

impl<const N: usize, S: Field> Ortho<N, S> {
    /// Offers `v` to the frame `o` whose slots above `slot` are fixed: returns
    /// whether it was taken.
    fn offer(o: &mut [Nrml<N, S>; N], slot: usize, v: Nrml<N, S>) -> (taken: bool)
        requires
            slot < N,
        ensures
            ({
                let before = old(o)@.map_values(|n: Nrml<N, S>| n@);
                let after = final(o)@.map_values(|n: Nrml<N, S>| n@);
                match reject_upto(v@, before, slot + 1, N as int) {
                    None => !taken && after == before,
                    Some(u) => taken && after == before.update(slot as int, u),
                }
            }),
    {
        let ghost before = o@.map_values(|n: Nrml<N, S>| n@);
        let mut u = v;
        let mut k: usize = slot + 1;
        while k < N
            invariant
                slot < k <= N,
                o@.map_values(|n: Nrml<N, S>| n@) == before,
                before.len() == N,
                reject_upto(v@, before, slot + 1, k as int) == Some(u@),
            decreases N - k,
        {
            match u.rej(o[k]).normal() {
                Some(n) => {
                    u = n;
                },
                None => {
                    assert(reject_upto(v@, before, slot + 1, (k + 1) as int) is None);
                    proof {
                        lemma_reject_none(v@, before, slot + 1, k + 1, N as int);
                    }
                    return false;
                },
            }
            k = k + 1;
        }
        o[slot] = u;
        assert(o@.map_values(|n: Nrml<N, S>| n@) =~= before.update(slot as int, u@));
        true
    }

    /// The frame filled from the candidates `c` and then from the fallback axes.
    fn fill(c: &Vec<Nrml<N, S>>) -> (r: [Nrml<N, S>; N])
        requires
            1 <= N <= 3,
        ensures
            r@.map_values(|n: Nrml<N, S>| n@) == frame_spec(nrml_views(c@), N as int),
    {
        let ghost n = N as int;
        let ghost cv = nrml_views(c@);
        let mut o = [Nrml::axis(0); N];
        let mut i: usize = 0;
        while i < N
            invariant
                1 <= N,
                i <= N,
                forall|k: int| 0 <= k < i ==> (#[trigger] o@[k])@ == axis_spec::<S>(N as nat, N - 1 - k),
            decreases N - i,
        {
            o[i] = Nrml::axis(N - 1 - i);
            i = i + 1;
        }
        assert(o@.map_values(|n: Nrml<N, S>| n@) =~= gs_init::<S>(n).0);
        let mut filled: usize = 0;
        let mut cyc: usize = 0;
        let mut k: usize = 0;
        while k < c.len()
            invariant
                1 <= N <= 3,
                n == N,
                cv == nrml_views(c@),
                k <= c.len(),
                filled <= N,
                cyc < N,
                gs_cands(cv, k as int, n) == (o@.map_values(|n: Nrml<N, S>| n@), N - 1 - filled, cyc as int),
            decreases c.len() - k,
        {
            if filled < N {
                if Self::offer(&mut o, N - 1 - filled, c[k]) {
                    filled = filled + 1;
                }
            }
            cyc = if cyc + 1 >= N { 0 } else { cyc + 1 };
            k = k + 1;
        }
        let ghost st = gs_cands(cv, cv.len() as int, n);
        let mut t: usize = 0;
        assert(N * N <= 9) by (nonlinear_arith)
            requires
                N <= 3,
        ;
        while t < N * N
            invariant
                1 <= N <= 3,
                N * N <= 9,
                n == N,
                t <= N * N,
                filled <= N,
                cyc < N,
                gs_fallback(st, t as int, n) == (o@.map_values(|n: Nrml<N, S>| n@), N - 1 - filled, cyc as int),
            decreases N * N - t,
        {
            if filled < N {
                if Self::offer(&mut o, N - 1 - filled, Nrml::axis(N - 1 - cyc)) {
                    filled = filled + 1;
                }
            }
            cyc = if cyc + 1 >= N { 0 } else { cyc + 1 };
            t = t + 1;
        }
        o
    }

    /// The frame's axes as the rows of a matrix.
    pub fn as_rows(self) -> (r: Mat<N, N, S>)
        ensures
            r@ == self@,
    {
        let mut a = [[S::zero(); N]; N];
        let mut i: usize = 0;
        while i < N
            invariant
                i <= N,
                forall|k: int| 0 <= k < i ==> (#[trigger] a@[k])@ == self@[k],
            decreases N - i,
        {
            a[i] = self.0[i].array();
            i = i + 1;
        }
        let r = Mat(a);
        assert(r@ =~= self@);
        r
    }

    /// The rotation that carries the standard axes onto this frame.
    pub fn rot<const K: usize, R: Rot<N, K, S>>(self) -> (r: R)
        ensures
            r.rot_view() == R::from_ortho_spec(self@),
    {
        R::from_ortho(self)
    }

    /// Axis `i`.
    pub fn get(&self, i: usize) -> (r: Nrml<N, S>)
        requires
            i < N,
        ensures
            r@ == self@[i as int],
    {
        self.0[i]
    }
}

proof fn lemma_reject_none<S: Field>(v: Seq<S>, o: Seq<Seq<S>>, lo: int, k: int, m: int)
    requires
        lo <= k <= m,
        reject_upto(v, o, lo, k) is None,
    ensures
        reject_upto(v, o, lo, m) is None,
    decreases m - k,
{
    if m > k {
        lemma_reject_none(v, o, lo, k, m - 1);
    }
}

impl<S: Field> Ortho<1, S> {
    /// The frame built from the unit normals `normals`, completed with the standard axis.
    pub fn from_nrmls(normals: &Vec<Nrml<1, S>>) -> (r: Self)
        ensures
            r@ == ortho1_spec(nrml_views(normals@)),
    {
        let mut o = Self::fill(normals);
        let det = Ortho(o).as_rows().det();
        if det.lt(&S::zero()) {
            o[0] = o[0].neg();
        }
        let r = Ortho(o);
        assert(r@ =~= ortho1_spec(nrml_views(normals@)));
        r
    }

    /// The frame built from those of `vectors` that have a direction, completed
    /// with the standard axis.
    pub fn from_vects(vectors: &Vec<Vect<1, S>>) -> (r: Self)
        ensures
            r@ == ortho1_spec(normals_of(vect_views(vectors@))),
    {
        Self::from_nrmls(&normals_vec(vectors))
    }
}

impl<S: Field> Ortho<2, S> {
    /// The frame built from the unit normals `normals`, completed with standard axes.
    pub fn from_nrmls(normals: &Vec<Nrml<2, S>>) -> (r: Self)
        ensures
            r@ == ortho2_spec(nrml_views(normals@)),
    {
        let mut o = Self::fill(normals);
        let det = Ortho(o).as_rows().det();
        if det.lt(&S::zero()) {
            o[0] = o[0].neg();
        }
        let r = Ortho(o);
        assert(r@ =~= ortho2_spec(nrml_views(normals@)));
        r
    }

    /// The frame built from those of `vectors` that have a direction, completed
    /// with standard axes.
    pub fn from_vects(vectors: &Vec<Vect<2, S>>) -> (r: Self)
        ensures
            r@ == ortho2_spec(normals_of(vect_views(vectors@))),
    {
        Self::from_nrmls(&normals_vec(vectors))
    }
}

impl<S: Field> Ortho<3, S> {
    /// The frame built from the unit normals `normals`, completed with standard axes.
    pub fn from_nrmls(normals: &Vec<Nrml<3, S>>) -> (r: Self)
        ensures
            r@ == ortho3_spec(nrml_views(normals@)),
    {
        let mut o = Self::fill(normals);
        let det = Ortho(o).as_rows().det();
        if det.lt(&S::zero()) {
            o[0] = o[0].neg();
        }
        let r = Ortho(o);
        assert(r@ =~= ortho3_spec(nrml_views(normals@)));
        r
    }

    /// The frame built from those of `vectors` that have a direction, completed
    /// with standard axes.
    pub fn from_vects(vectors: &Vec<Vect<3, S>>) -> (r: Self)
        ensures
            r@ == ortho3_spec(normals_of(vect_views(vectors@))),
    {
        Self::from_nrmls(&normals_vec(vectors))
    }
}

/// The unit normals of those of `vectors` that have a direction, in order.
fn normals_vec<const N: usize, S: Field>(vectors: &Vec<Vect<N, S>>) -> (r: Vec<Nrml<N, S>>)
    ensures
        nrml_views(r@) == normals_of(vect_views(vectors@)),
{
    let mut r: Vec<Nrml<N, S>> = Vec::new();
    let mut k: usize = 0;
    while k < vectors.len()
        invariant
            k <= vectors.len(),
            nrml_views(r@) == normals_of(vect_views(vectors@.subrange(0, k as int))),
        decreases vectors.len() - k,
    {
        proof {
            assert(vect_views(vectors@.subrange(0, k + 1)).drop_last() =~= vect_views(vectors@.subrange(0, k as int)));
        }
        let ghost prev = r@;
        match vectors[k].normal() {
            Some(n) => {
                r.push(n);
                assert(nrml_views(r@) =~= nrml_views(prev).push(n@));
            },
            None => {},
        }
        k = k + 1;
    }
    assert(vectors@.subrange(0, vectors.len() as int) =~= vectors@);
    r
}


impl<const N: usize, S: Ring> Default for Ortho<N, S> {
    /// The standard axes in order.
    fn default() -> (r: Self)
        ensures
            r@ == Seq::new(N as nat, |i: int| axis_spec::<S>(N as nat, i)),
    {
        let mut o = [Nrml::new_unchecked([S::zero(); N]); N];
        let mut i: usize = 0;
        while i < N
            invariant
                i <= N,
                forall|k: int| 0 <= k < i ==> (#[trigger] o@[k])@ == axis_spec::<S>(N as nat, k),
            decreases N - i,
        {
            o[i] = Nrml::axis(i);
            i = i + 1;
        }
        let r = Ortho(o);
        assert(r@ =~= Seq::new(N as nat, |i: int| axis_spec::<S>(N as nat, i)));
        r
    }
}

} // verus!
