//! Dense vectors and matrices over a scalar.
use crate::scalar::Scalar;
use vstd::prelude::*;

verus! {

/// A vector as specifications see it: a finite sequence of scalars.
pub type IdealVector<R> = Seq<R>;

/// A matrix as specifications see it: a finite sequence of rows.
pub type IdealMatrix<R> = Seq<Seq<R>>;

/// A size as specifications see it: a natural number.
pub type IdealSize = nat;

/// The vector of `n` zeros.
pub open spec fn spec_zeros<R: Scalar>(n: nat) -> Seq<R> {
    Seq::new(n, |i: int| R::spec_zero())
}

/// `c * v[i]` at every position.
pub open spec fn spec_scale<R: Scalar>(c: R, v: Seq<R>) -> Seq<R> {
    Seq::new(v.len(), |i: int| c.spec_times(v[i]))
}

/// `a[i] + b[i]` at every position of `a`.
pub open spec fn spec_sum<R: Scalar>(a: Seq<R>, b: Seq<R>) -> Seq<R> {
    Seq::new(a.len(), |i: int| a[i].spec_plus(b[i]))
}

/// `a[i] - b[i]` at every position of `a`.
pub open spec fn spec_difference<R: Scalar>(a: Seq<R>, b: Seq<R>) -> Seq<R> {
    Seq::new(a.len(), |i: int| a[i].spec_minus(b[i]))
}

/// The inner product of the first `n` positions, accumulated from zero in
/// index order: `((0 + a[0]*b[0]) + a[1]*b[1]) + ...`.
pub open spec fn spec_dot_prefix<R: Scalar>(a: Seq<R>, b: Seq<R>, n: nat) -> R
    decreases n,
{
    if n == 0 {
        R::spec_zero()
    } else {
        spec_dot_prefix(a, b, (n - 1) as nat).spec_plus(a[n - 1].spec_times(b[n - 1]))
    }
}

/// The inner product of `a` and `b`.
pub open spec fn spec_dot<R: Scalar>(a: Seq<R>, b: Seq<R>) -> R {
    spec_dot_prefix(a, b, a.len())
}

/// A vector of `n` zeros.
pub fn zeros<R: Scalar>(n: usize) -> (v: Vec<R>)
    ensures
        v@ == spec_zeros::<R>(n as nat),
{
    let mut v: Vec<R> = Vec::new();
    let mut i: usize = 0;
    while i < n
        invariant
            i <= n,
            v@.len() == i,
            forall|k: int| 0 <= k < i ==> v@[k] == R::spec_zero(),
        decreases n - i,
    {
        v.push(R::zero());
        i = i + 1;
    }
    v
}

/// The vector `v` with every entry multiplied by `c` from the left.
pub fn scale<R: Scalar>(c: R, v: &Vec<R>) -> (out: Vec<R>)
    ensures
        out@ == spec_scale(c, v@),
{
    let mut out: Vec<R> = Vec::new();
    let mut i: usize = 0;
    while i < v.len()
        invariant
            i <= v@.len(),
            out@.len() == i,
            forall|k: int| 0 <= k < i ==> out@[k] == c.spec_times(v@[k]),
        decreases v@.len() - i,
    {
        out.push(c.times(v[i]));
        i = i + 1;
    }
    out
}

/// The entrywise sum of two vectors of the same length.
pub fn sum<R: Scalar>(a: &Vec<R>, b: &Vec<R>) -> (out: Vec<R>)
    requires
        a@.len() == b@.len(),
    ensures
        out@ == spec_sum(a@, b@),
{
    let mut out: Vec<R> = Vec::new();
    let mut i: usize = 0;
    while i < a.len()
        invariant
            a@.len() == b@.len(),
            i <= a@.len(),
            out@.len() == i,
            forall|k: int| 0 <= k < i ==> out@[k] == a@[k].spec_plus(b@[k]),
        decreases a@.len() - i,
    {
        out.push(a[i].plus(b[i]));
        i = i + 1;
    }
    out
}

/// The entrywise difference of two vectors of the same length.
pub fn difference<R: Scalar>(a: &Vec<R>, b: &Vec<R>) -> (out: Vec<R>)
    requires
        a@.len() == b@.len(),
    ensures
        out@ == spec_difference(a@, b@),
{
    let mut out: Vec<R> = Vec::new();
    let mut i: usize = 0;
    while i < a.len()
        invariant
            a@.len() == b@.len(),
            i <= a@.len(),
            out@.len() == i,
            forall|k: int| 0 <= k < i ==> out@[k] == a@[k].spec_minus(b@[k]),
        decreases a@.len() - i,
    {
        out.push(a[i].minus(b[i]));
        i = i + 1;
    }
    out
}

/// The inner product of two vectors of the same length.
pub fn dot<R: Scalar>(a: &Vec<R>, b: &Vec<R>) -> (r: R)
    requires
        a@.len() == b@.len(),
    ensures
        r == spec_dot(a@, b@),
{
    let mut acc: R = R::zero();
    let mut i: usize = 0;
    while i < a.len()
        invariant
            a@.len() == b@.len(),
            i <= a@.len(),
            acc == spec_dot_prefix(a@, b@, i as nat),
        decreases a@.len() - i,
    {
        acc = acc.plus(a[i].times(b[i]));
        i = i + 1;
    }
    acc
}

/// A copy of `v`.
pub fn copied<R: Scalar>(v: &Vec<R>) -> (out: Vec<R>)
    ensures
        out@ == v@,
{
    let mut out: Vec<R> = Vec::new();
    let mut i: usize = 0;
    while i < v.len()
        invariant
            i <= v@.len(),
            out@ == v@.take(i as int),
        decreases v@.len() - i,
    {
        out.push(v[i]);
        i = i + 1;
    }
    out
}

/// `v` brought to length `n`: cut where it is longer, filled with zeros
/// where it is shorter.
pub open spec fn spec_expanded<R: Scalar>(v: Seq<R>, n: nat) -> Seq<R> {
    Seq::new(
        n,
        |i: int|
            if i < v.len() {
                v[i]
            } else {
                R::spec_zero()
            },
    )
}

/// Brings `v` to length `n`, cutting it or filling it with zeros.
pub fn expanded<R: Scalar>(v: &Vec<R>, n: usize) -> (out: Vec<R>)
    ensures
        out@ == spec_expanded(v@, n as nat),
{
    let mut out: Vec<R> = Vec::new();
    let mut i: usize = 0;
    while i < n
        invariant
            i <= n,
            out@.len() == i,
            forall|k: int| 0 <= k < i ==> out@[k] == spec_expanded(v@, n as nat)[k],
        decreases n - i,
    {
        if i < v.len() {
            out.push(v[i]);
        } else {
            out.push(R::zero());
        }
        i = i + 1;
    }
    out
}

/// The rows of a matrix as sequences.
pub open spec fn rows<R>(m: Seq<Vec<R>>) -> Seq<Seq<R>> {
    Seq::new(m.len(), |i: int| m[i]@)
}

/// Two matrices have as many rows, and row by row as many entries.
pub open spec fn same_shape<R>(a: Seq<Seq<R>>, b: Seq<Seq<R>>) -> bool {
    &&& a.len() == b.len()
    &&& forall|i: int| 0 <= i < a.len() ==> (#[trigger] a[i]).len() == b[i].len()
}

/// The matrix of zeros with the given shape.
pub open spec fn spec_mat_zeros<R: Scalar>(n_rows: nat, n_cols: nat) -> Seq<Seq<R>> {
    Seq::new(n_rows, |i: int| spec_zeros::<R>(n_cols))
}

/// The matrix of zeros with the shape of `m`.
pub open spec fn spec_mat_cleared<R: Scalar>(m: Seq<Seq<R>>) -> Seq<Seq<R>> {
    Seq::new(m.len(), |i: int| spec_zeros::<R>(m[i].len()))
}

/// `c * m[i][j]` at every position.
pub open spec fn spec_mat_scale<R: Scalar>(c: R, m: Seq<Seq<R>>) -> Seq<Seq<R>> {
    Seq::new(m.len(), |i: int| spec_scale(c, m[i]))
}

/// `a[i][j] + b[i][j]` at every position of `a`.
pub open spec fn spec_mat_sum<R: Scalar>(a: Seq<Seq<R>>, b: Seq<Seq<R>>) -> Seq<Seq<R>> {
    Seq::new(a.len(), |i: int| spec_sum(a[i], b[i]))
}

/// A matrix of zeros with the given shape.
pub fn mat_zeros<R: Scalar>(n_rows: usize, n_cols: usize) -> (m: Vec<Vec<R>>)
    ensures
        rows(m@) == spec_mat_zeros::<R>(n_rows as nat, n_cols as nat),
{
    let mut m: Vec<Vec<R>> = Vec::new();
    let mut i: usize = 0;
    while i < n_rows
        invariant
            i <= n_rows,
            m@.len() == i,
            forall|k: int| 0 <= k < i ==> (#[trigger] m@[k])@ == spec_zeros::<R>(n_cols as nat),
        decreases n_rows - i,
    {
        m.push(zeros(n_cols));
        i = i + 1;
    }
    m
}

/// A matrix of zeros with the shape of `m`.
pub fn mat_cleared<R: Scalar>(m: &Vec<Vec<R>>) -> (out: Vec<Vec<R>>)
    ensures
        rows(out@) == spec_mat_cleared(rows(m@)),
{
    let mut out: Vec<Vec<R>> = Vec::new();
    let mut i: usize = 0;
    while i < m.len()
        invariant
            i <= m@.len(),
            out@.len() == i,
            forall|k: int| 0 <= k < i ==> (#[trigger] out@[k])@ == spec_zeros::<R>(m@[k]@.len()),
        decreases m@.len() - i,
    {
        out.push(zeros(m[i].len()));
        i = i + 1;
    }
    out
}

/// The matrix `m` with every entry multiplied by `c` from the left.
pub fn mat_scale<R: Scalar>(c: R, m: &Vec<Vec<R>>) -> (out: Vec<Vec<R>>)
    ensures
        rows(out@) == spec_mat_scale(c, rows(m@)),
{
    let mut out: Vec<Vec<R>> = Vec::new();
    let mut i: usize = 0;
    while i < m.len()
        invariant
            i <= m@.len(),
            out@.len() == i,
            forall|k: int| 0 <= k < i ==> (#[trigger] out@[k])@ == spec_scale(c, m@[k]@),
        decreases m@.len() - i,
    {
        out.push(scale(c, &m[i]));
        i = i + 1;
    }
    out
}

/// Whether two matrices have the same shape.
pub fn shapes_agree<R: Scalar>(a: &Vec<Vec<R>>, b: &Vec<Vec<R>>) -> (ok: bool)
    ensures
        ok == same_shape(rows(a@), rows(b@)),
{
    if a.len() != b.len() {
        return false;
    }
    let mut i: usize = 0;
    while i < a.len()
        invariant
            a@.len() == b@.len(),
            i <= a@.len(),
            forall|k: int| 0 <= k < i ==> (#[trigger] rows(a@)[k]).len() == rows(b@)[k].len(),
        decreases a@.len() - i,
    {
        if a[i].len() != b[i].len() {
            proof {
                assert(rows(a@)[i as int].len() != rows(b@)[i as int].len());
            }
            return false;
        }
        i = i + 1;
    }
    true
}

/// The entrywise sum of two matrices of the same shape.
pub fn mat_sum<R: Scalar>(a: &Vec<Vec<R>>, b: &Vec<Vec<R>>) -> (out: Vec<Vec<R>>)
    requires
        same_shape(rows(a@), rows(b@)),
    ensures
        rows(out@) == spec_mat_sum(rows(a@), rows(b@)),
{
    let mut out: Vec<Vec<R>> = Vec::new();
    let mut i: usize = 0;
    while i < a.len()
        invariant
            same_shape(rows(a@), rows(b@)),
            i <= a@.len(),
            out@.len() == i,
            forall|k: int| 0 <= k < i ==> (#[trigger] out@[k])@ == spec_sum(a@[k]@, b@[k]@),
        decreases a@.len() - i,
    {
        proof {
            assert(rows(a@)[i as int].len() == rows(b@)[i as int].len());
        }
        out.push(sum(&a[i], &b[i]));
        i = i + 1;
    }
    out
}

} // verus!
