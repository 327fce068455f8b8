//! Algebraic laws of the matrix operations, proved over the model and stated
//! for each matrix type.
use vstd::prelude::*;

use crate::mat2::Mat2;
use crate::mat3::Mat3;
use crate::mat4::Mat4;
use crate::model::{
    add_mat, approx_eq_mat, diag_mat, diagonal, scale_vec, dot_upto, fits, fits_mat, fits_vec, homogeneous, identity_mat, mat_mul,
    mat_vec, neg_mat, row, symmetric, transpose, zero_mat, add_vec,
};
use crate::vector::Vec3;

verus! {

/// `m` has `n` columns of `n` entries each.
pub open spec fn is_square(m: Seq<Seq<int>>, n: nat) -> bool {
    m.len() == n && forall|c: int| 0 <= c < n ==> (#[trigger] m[c]).len() == n
}

proof fn lemma_dot_unit_right(u: Seq<int>, n: nat, j: int, k: nat)
    requires
        0 <= j < n,
        k <= n,
        u.len() == n,
    ensures
        dot_upto(u, identity_mat(n)[j], k) == if j < k { u[j] } else { 0 },
    decreases k,
{
    if k > 0 {
        lemma_dot_unit_right(u, n, j, (k - 1) as nat);
    }
}

proof fn lemma_dot_unit_left(v: Seq<int>, n: nat, i: int, k: nat)
    requires
        0 <= i < n,
        k <= n,
        v.len() == n,
    ensures
        dot_upto(row(identity_mat(n), i), v, k) == if i < k { v[i] } else { 0 },
    decreases k,
{
    if k > 0 {
        lemma_dot_unit_left(v, n, i, (k - 1) as nat);
    }
}

/// The identity is a two-sided unit of the matrix product.
pub proof fn lemma_mat_mul_identity(m: Seq<Seq<int>>, n: nat)
    requires
        is_square(m, n),
    ensures
        mat_mul(m, identity_mat(n)) == m,
        mat_mul(identity_mat(n), m) == m,
{
    assert forall|j: int, i: int| 0 <= j < n && 0 <= i < n implies mat_mul(
        m,
        identity_mat(n),
    )[j][i] == m[j][i] by {
        lemma_dot_unit_right(row(m, i), n, j, n);
    }
    assert forall|j: int, i: int| 0 <= j < n && 0 <= i < n implies mat_mul(
        identity_mat(n),
        m,
    )[j][i] == m[j][i] by {
        lemma_dot_unit_left(m[j], n, i, n);
    }
    assert(mat_mul(m, identity_mat(n)) =~~= m);
    assert(mat_mul(identity_mat(n), m) =~~= m);
}

/// Transposing twice gives the matrix back.
pub proof fn lemma_transpose_involution(m: Seq<Seq<int>>, n: nat)
    requires
        is_square(m, n),
    ensures
        transpose(transpose(m)) == m,
{
    assert(transpose(transpose(m)) =~~= m);
}

/// Adding the negation gives the zero matrix.
pub proof fn lemma_add_neg(m: Seq<Seq<int>>, n: nat)
    requires
        is_square(m, n),
    ensures
        add_mat(m, neg_mat(m)) == zero_mat(n),
{
    assert(add_mat(m, neg_mat(m)) =~~= zero_mat(n));
}


/// Multiplying a `Mat2` by the identity, on either side, gives it back.
pub proof fn lemma_identity_laws_mat2(m: Mat2)
    ensures
        fits_mat(mat_mul(m@, identity_mat(2))),
        fits_mat(mat_mul(identity_mat(2), m@)),
        mat_mul(m@, identity_mat(2)) == m@,
        mat_mul(identity_mat(2), m@) == m@,
        approx_eq_mat(mat_mul(m@, identity_mat(2)), m@),
{
    lemma_mat_mul_identity(m@, 2);
    lemma_fits_mat2(m);
    lemma_approx_eq_refl(m@);
}

/// Transposing a `Mat2` twice gives it back.
pub proof fn lemma_transpose_involution_mat2(m: Mat2)
    ensures
        transpose(transpose(m@)) == m@,
        approx_eq_mat(transpose(transpose(m@)), m@),
{
    lemma_transpose_involution(m@, 2);
    lemma_approx_eq_refl(m@);
}

/// Column `i` of the transpose of a `Mat2` is its row `i`.
pub proof fn lemma_transpose_col_is_row_mat2(m: Mat2, i: int)
    requires
        0 <= i < 2,
    ensures
        transpose(m@)[i] == row(m@, i),
{
}

/// A `Mat2` plus its negation is the zero matrix.
pub proof fn lemma_add_neg_mat2(m: Mat2)
    ensures
        fits_mat(add_mat(m@, neg_mat(m@))),
        add_mat(m@, neg_mat(m@)) == zero_mat(2),
        approx_eq_mat(add_mat(m@, neg_mat(m@)), zero_mat(2)),
{
    lemma_add_neg(m@, 2);
    lemma_approx_eq_refl(zero_mat(2));
}

proof fn lemma_fits_mat2(m: Mat2)
    ensures
        fits_mat(m@),
{
    assert forall|c: int| 0 <= c < 2 implies fits_vec(#[trigger] m@[c]) by {
        assert forall|i: int| 0 <= i < 2 implies fits(#[trigger] m@[c][i]) by {}
    }
}

/// Multiplying a `Mat3` by the identity, on either side, gives it back.
pub proof fn lemma_identity_laws_mat3(m: Mat3)
    ensures
        fits_mat(mat_mul(m@, identity_mat(3))),
        fits_mat(mat_mul(identity_mat(3), m@)),
        mat_mul(m@, identity_mat(3)) == m@,
        mat_mul(identity_mat(3), m@) == m@,
        approx_eq_mat(mat_mul(m@, identity_mat(3)), m@),
{
    lemma_mat_mul_identity(m@, 3);
    lemma_fits_mat3(m);
    lemma_approx_eq_refl(m@);
}

/// Transposing a `Mat3` twice gives it back.
pub proof fn lemma_transpose_involution_mat3(m: Mat3)
    ensures
        transpose(transpose(m@)) == m@,
        approx_eq_mat(transpose(transpose(m@)), m@),
{
    lemma_transpose_involution(m@, 3);
    lemma_approx_eq_refl(m@);
}

/// Column `i` of the transpose of a `Mat3` is its row `i`.
pub proof fn lemma_transpose_col_is_row_mat3(m: Mat3, i: int)
    requires
        0 <= i < 3,
    ensures
        transpose(m@)[i] == row(m@, i),
{
}

/// A `Mat3` plus its negation is the zero matrix.
pub proof fn lemma_add_neg_mat3(m: Mat3)
    ensures
        fits_mat(add_mat(m@, neg_mat(m@))),
        add_mat(m@, neg_mat(m@)) == zero_mat(3),
        approx_eq_mat(add_mat(m@, neg_mat(m@)), zero_mat(3)),
{
    lemma_add_neg(m@, 3);
    lemma_approx_eq_refl(zero_mat(3));
}

proof fn lemma_fits_mat3(m: Mat3)
    ensures
        fits_mat(m@),
{
    assert forall|c: int| 0 <= c < 3 implies fits_vec(#[trigger] m@[c]) by {
        assert forall|i: int| 0 <= i < 3 implies fits(#[trigger] m@[c][i]) by {}
    }
}

/// Multiplying a `Mat4` by the identity, on either side, gives it back.
pub proof fn lemma_identity_laws_mat4(m: Mat4)
    ensures
        fits_mat(mat_mul(m@, identity_mat(4))),
        fits_mat(mat_mul(identity_mat(4), m@)),
        mat_mul(m@, identity_mat(4)) == m@,
        mat_mul(identity_mat(4), m@) == m@,
        approx_eq_mat(mat_mul(m@, identity_mat(4)), m@),
{
    lemma_mat_mul_identity(m@, 4);
    lemma_fits_mat4(m);
    lemma_approx_eq_refl(m@);
}

/// Transposing a `Mat4` twice gives it back.
pub proof fn lemma_transpose_involution_mat4(m: Mat4)
    ensures
        transpose(transpose(m@)) == m@,
        approx_eq_mat(transpose(transpose(m@)), m@),
{
    lemma_transpose_involution(m@, 4);
    lemma_approx_eq_refl(m@);
}

/// Column `i` of the transpose of a `Mat4` is its row `i`.
pub proof fn lemma_transpose_col_is_row_mat4(m: Mat4, i: int)
    requires
        0 <= i < 4,
    ensures
        transpose(m@)[i] == row(m@, i),
{
}

/// A `Mat4` plus its negation is the zero matrix.
pub proof fn lemma_add_neg_mat4(m: Mat4)
    ensures
        fits_mat(add_mat(m@, neg_mat(m@))),
        add_mat(m@, neg_mat(m@)) == zero_mat(4),
        approx_eq_mat(add_mat(m@, neg_mat(m@)), zero_mat(4)),
{
    lemma_add_neg(m@, 4);
    lemma_approx_eq_refl(zero_mat(4));
}

proof fn lemma_fits_mat4(m: Mat4)
    ensures
        fits_mat(m@),
{
    assert forall|c: int| 0 <= c < 4 implies fits_vec(#[trigger] m@[c]) by {
        assert forall|i: int| 0 <= i < 4 implies fits(#[trigger] m@[c][i]) by {}
    }
}

/// Fuzzy equality is reflexive.
pub proof fn lemma_approx_eq_refl(m: Seq<Seq<int>>)
    ensures
        approx_eq_mat(m, m),
{
}

/// The identity is fuzzy-equal to itself, diagonal and symmetric.
pub proof fn lemma_identity_predicates(n: nat)
    ensures
        approx_eq_mat(identity_mat(n), identity_mat(n)),
        diagonal(identity_mat(n)),
        symmetric(identity_mat(n)),
{
}

/// A matrix with a nonzero entry off the diagonal is not diagonal.
pub proof fn lemma_off_diagonal_not_diagonal(m: Seq<Seq<int>>, c: int, r: int)
    requires
        0 <= c < m.len(),
        0 <= r < m.len(),
        c != r,
        m[c][r] != 0,
    ensures
        !diagonal(m),
{
}

/// Promoting a `Mat3` gives `(0, 0, 0, 1)` as the last column, and keeps the
/// first three entries of each of the other columns.
pub proof fn lemma_to_mat4_promotion(m: Mat3)
    ensures
        homogeneous(m@)[3] == seq![0int, 0int, 0int, 1int],
        forall|i: int| 0 <= i < 3 ==> (#[trigger] homogeneous(m@)[i]).subrange(0, 3) == m@[i],
{
    assert(homogeneous(m@)[3] =~= seq![0int, 0int, 0int, 1int]);
    assert forall|i: int| 0 <= i < 3 implies (#[trigger] homogeneous(m@)[i]).subrange(0, 3)
        == m@[i] by {
        assert(homogeneous(m@)[i].subrange(0, 3) =~= m@[i]);
    }
}

/// The identity translated by `v` maps the origin `(0, 0, 0, 1)` to
/// `(v.x, v.y, v.z, 1)`.
pub proof fn lemma_translate_origin(v: Vec3)
    ensures
        ({
            let col = add_vec(identity_mat(4)[3], v@.push(0));
            let t = identity_mat(4).update(3, col);
            &&& fits_vec(col)
            &&& fits_vec(mat_vec(t, seq![0int, 0int, 0int, 1int]))
            &&& mat_vec(t, seq![0int, 0int, 0int, 1int]) == seq![
                v.x as int,
                v.y as int,
                v.z as int,
                1int,
            ]
        }),
{
    let col = add_vec(identity_mat(4)[3], v@.push(0));
    let t = identity_mat(4).update(3, col);
    let o = seq![0int, 0int, 0int, 1int];
    assert(col =~= seq![v.x as int, v.y as int, v.z as int, 1int]);
    assert(o =~= identity_mat(4)[3]);
    assert forall|i: int| 0 <= i < 4 implies #[trigger] mat_vec(t, o)[i] == col[i] by {
        lemma_dot_unit_right(row(t, i), 4, 3, 4);
    }
    assert(mat_vec(t, o) =~= seq![v.x as int, v.y as int, v.z as int, 1int]);
    assert forall|i: int| 0 <= i < 4 implies fits(#[trigger] col[i]) by {}
}


proof fn lemma_dot_diag_col(u: Seq<int>, d: Seq<int>, j: int, k: nat)
    requires
        0 <= j < d.len(),
        k <= d.len(),
        u.len() == d.len(),
    ensures
        dot_upto(u, diag_mat(d)[j], k) == if j < k { u[j] * d[j] } else { 0 },
    decreases k,
{
    if k > 0 {
        lemma_dot_diag_col(u, d, j, (k - 1) as nat);
    }
}

/// Multiplying by a diagonal matrix on the right scales column `j` by the
/// diagonal entry `d[j]`: this is what `scale` does to a matrix's basis.
pub proof fn lemma_mul_diag_scales_columns(m: Seq<Seq<int>>, d: Seq<int>)
    requires
        is_square(m, d.len()),
    ensures
        mat_mul(m, diag_mat(d)) == Seq::new(d.len(), |j: int| scale_vec(m[j], d[j])),
{
    let n = d.len();
    assert forall|j: int, i: int| 0 <= j < n && 0 <= i < n implies mat_mul(m, diag_mat(d))[j][i]
        == m[j][i] * d[j] by {
        lemma_dot_diag_col(row(m, i), d, j, n);
    }
    assert(mat_mul(m, diag_mat(d)) =~~= Seq::new(n, |j: int| scale_vec(m[j], d[j])));
}

} // verus!
