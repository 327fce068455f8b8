//! Mathematical model of vectors and matrices.
//!
//! A vector is a `Seq<int>`; a matrix is a `Seq<Seq<int>>` of its columns,
//! so `m[c][r]` is the entry at column `c`, row `r`.
use vstd::prelude::*;

verus! {

/// Tolerance of fuzzy equality. Integer scalars carry no round-off, so two
/// scalars are fuzzy-equal only when they are equal.
pub const EPSILON: i32 = 0;

/// A value that an `i32` can hold.
pub open spec fn fits(x: int) -> bool {
    i32::MIN <= x <= i32::MAX
}

/// Every component of `v` fits in an `i32`.
pub open spec fn fits_vec(v: Seq<int>) -> bool {
    forall|i: int| 0 <= i < v.len() ==> fits(#[trigger] v[i])
}

/// Every entry of `m` fits in an `i32`.
pub open spec fn fits_mat(m: Seq<Seq<int>>) -> bool {
    forall|c: int| 0 <= c < m.len() ==> fits_vec(#[trigger] m[c])
}

/// Scalar equality up to `EPSILON`.
pub open spec fn approx_eq(a: int, b: int) -> bool {
    -(EPSILON as int) <= a - b <= EPSILON as int
}

/// Componentwise fuzzy equality of two vectors of one length.
pub open spec fn approx_eq_vec(u: Seq<int>, v: Seq<int>) -> bool {
    u.len() == v.len() && forall|i: int| 0 <= i < u.len() ==> approx_eq(#[trigger] u[i], v[i])
}

/// Entrywise fuzzy equality of two matrices of one shape.
pub open spec fn approx_eq_mat(a: Seq<Seq<int>>, b: Seq<Seq<int>>) -> bool {
    a.len() == b.len() && forall|c: int| 0 <= c < a.len() ==> approx_eq_vec(#[trigger] a[c], b[c])
}

/// Sum of `u[t] * v[t]` for `t < k`.
pub open spec fn dot_upto(u: Seq<int>, v: Seq<int>, k: nat) -> int
    decreases k,
{
    if k == 0 {
        0
    } else {
        dot_upto(u, v, (k - 1) as nat) + u[k - 1] * v[k - 1]
    }
}

/// Dot product of two vectors of one length.
pub open spec fn dot(u: Seq<int>, v: Seq<int>) -> int {
    dot_upto(u, v, u.len())
}

/// The vector `c * v`.
pub open spec fn scale_vec(v: Seq<int>, c: int) -> Seq<int> {
    Seq::new(v.len(), |i: int| v[i] * c)
}

/// The vector `u + v`.
pub open spec fn add_vec(u: Seq<int>, v: Seq<int>) -> Seq<int> {
    Seq::new(u.len(), |i: int| u[i] + v[i])
}

/// The vector `u - v`.
pub open spec fn sub_vec(u: Seq<int>, v: Seq<int>) -> Seq<int> {
    Seq::new(u.len(), |i: int| u[i] - v[i])
}

/// The vector `-v`.
pub open spec fn neg_vec(v: Seq<int>) -> Seq<int> {
    Seq::new(v.len(), |i: int| -v[i])
}

/// Row `i` of `m`: entry `i` of every column.
pub open spec fn row(m: Seq<Seq<int>>, i: int) -> Seq<int> {
    Seq::new(m.len(), |c: int| m[c][i])
}

/// The `n` by `n` matrix whose entries are all zero.
pub open spec fn zero_mat(n: nat) -> Seq<Seq<int>> {
    Seq::new(n, |c: int| Seq::new(n, |r: int| 0int))
}

/// The `n` by `n` identity matrix.
pub open spec fn identity_mat(n: nat) -> Seq<Seq<int>> {
    Seq::new(n, |c: int| Seq::new(n, |r: int| if c == r { 1int } else { 0int }))
}

/// Every entry of `m` multiplied by `t`.
pub open spec fn scale_mat(m: Seq<Seq<int>>, t: int) -> Seq<Seq<int>> {
    Seq::new(m.len(), |c: int| scale_vec(m[c], t))
}

/// Entrywise sum.
pub open spec fn add_mat(a: Seq<Seq<int>>, b: Seq<Seq<int>>) -> Seq<Seq<int>> {
    Seq::new(a.len(), |c: int| add_vec(a[c], b[c]))
}

/// Entrywise difference.
pub open spec fn sub_mat(a: Seq<Seq<int>>, b: Seq<Seq<int>>) -> Seq<Seq<int>> {
    Seq::new(a.len(), |c: int| sub_vec(a[c], b[c]))
}

/// Entrywise negation.
pub open spec fn neg_mat(m: Seq<Seq<int>>) -> Seq<Seq<int>> {
    Seq::new(m.len(), |c: int| neg_vec(m[c]))
}

/// Matrix-vector product: component `i` is the dot product of row `i` with `v`.
pub open spec fn mat_vec(m: Seq<Seq<int>>, v: Seq<int>) -> Seq<int> {
    Seq::new(m.len(), |i: int| dot(row(m, i), v))
}

/// Matrix product `a * b`: column `j` is `a` applied to column `j` of `b`,
/// so entry `[j][i]` is the sum over `k` of `a[k][i] * b[j][k]`.
pub open spec fn mat_mul(a: Seq<Seq<int>>, b: Seq<Seq<int>>) -> Seq<Seq<int>> {
    Seq::new(b.len(), |j: int| mat_vec(a, b[j]))
}

/// Transpose: column `j` of the result is row `j` of `m`.
pub open spec fn transpose(m: Seq<Seq<int>>) -> Seq<Seq<int>> {
    Seq::new(m.len(), |j: int| row(m, j))
}

/// Every off-diagonal entry is fuzzy-equal to its mirror image.
pub open spec fn symmetric(m: Seq<Seq<int>>) -> bool {
    forall|c: int, r: int|
        0 <= c < m.len() && 0 <= r < m.len() && c != r ==> approx_eq(#[trigger] m[c][r], m[r][c])
}

/// Every off-diagonal entry is fuzzy-equal to zero.
pub open spec fn diagonal(m: Seq<Seq<int>>) -> bool {
    forall|c: int, r: int|
        0 <= c < m.len() && 0 <= r < m.len() && c != r ==> approx_eq(#[trigger] m[c][r], 0)
}

/// Scalar fuzzy equality.
pub fn fuzzy_eq_scalar(a: i32, b: i32) -> (r: bool)
    ensures
        r == approx_eq(a as int, b as int),
{
    let d: i64 = a as i64 - b as i64;
    -(EPSILON as i64) <= d && d <= EPSILON as i64
}


/// The product of two `i32` values lies within `2^62` of zero.
pub proof fn lemma_mul_bound(a: int, b: int)
    requires
        fits(a),
        fits(b),
    ensures
        -0x4000_0000_0000_0000 <= a * b <= 0x4000_0000_0000_0000,
{
    assert(-0x4000_0000_0000_0000 <= a * b <= 0x4000_0000_0000_0000) by (nonlinear_arith)
        requires
            -0x8000_0000 <= a <= 0x7fff_ffff,
            -0x8000_0000 <= b <= 0x7fff_ffff,
    ;
}


/// The square matrix with `d` on its diagonal and zero elsewhere.
pub open spec fn diag_mat(d: Seq<int>) -> Seq<Seq<int>> {
    Seq::new(d.len(), |c: int| Seq::new(d.len(), |r: int| if c == r { d[c] } else { 0int }))
}

/// `m` embedded in the upper-left corner of a matrix one larger, whose last
/// row and column are those of the identity.
pub open spec fn homogeneous(m: Seq<Seq<int>>) -> Seq<Seq<int>> {
    Seq::new(
        m.len() + 1,
        |c: int|
            Seq::new(
                m.len() + 1,
                |r: int|
                    if c < m.len() && r < m.len() {
                        m[c][r]
                    } else if c == r {
                        1int
                    } else {
                        0int
                    },
            ),
    )
}

} // verus!
