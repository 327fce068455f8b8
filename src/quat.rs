//! Quaternions, and the conversion of a 3x3 rotation matrix into one.
//!
//! The conversion follows the trace-based branch selection: when the trace
//! is non-negative, `w` is derived from `sqrt(trace + 1)`; otherwise the
//! component that matches the largest diagonal entry is derived from
//! `sqrt(1 + d_i - d_j - d_k)`. That leading component is `sqrt(r) / 2`, and
//! the other three, in `(w, x, y, z)` order, are off-diagonal differences
//! divided by `2 * sqrt(r)`. Scalars are integers, so every component is the
//! exact real value truncated toward zero.
use vstd::prelude::*;

use crate::model::identity_mat;

verus! {

/// A quaternion `w + xi + yj + zk`.
#[derive(Clone, Copy, Debug, PartialEq, Eq, Structural)]
pub struct Quat {
    pub w: i32,
    pub x: i32,
    pub y: i32,
    pub z: i32,
}

impl View for Quat {
    type V = Seq<int>;

    open spec fn view(&self) -> Seq<int> {
        seq![self.w as int, self.x as int, self.y as int, self.z as int]
    }
}

impl Quat {
    /// The quaternion with the given components, `w` first.
    pub fn new(w: i32, x: i32, y: i32, z: i32) -> (r: Quat)
        ensures
            r@ == seq![w as int, x as int, y as int, z as int],
    {
        Quat { w, x, y, z }
    }
}

/// Trace of a 3x3 matrix.
pub open spec fn trace3(m: Seq<Seq<int>>) -> int {
    m[0][0] + m[1][1] + m[2][2]
}

/// Which component leads the conversion: 0 (`w`) when the trace is
/// non-negative, else 1, 2 or 3 (`x`, `y`, `z`) for the largest diagonal
/// entry, ties going to the later one.
pub open spec fn quat_branch(m: Seq<Seq<int>>) -> int {
    if trace3(m) >= 0 {
        0
    } else if m[0][0] > m[1][1] && m[0][0] > m[2][2] {
        1
    } else if m[1][1] > m[2][2] {
        2
    } else {
        3
    }
}

/// The value whose square root scales the conversion.
pub open spec fn quat_radicand(m: Seq<Seq<int>>) -> int {
    let b = quat_branch(m);
    if b == 0 {
        trace3(m) + 1
    } else if b == 1 {
        1 + m[0][0] - m[1][1] - m[2][2]
    } else if b == 2 {
        1 + m[1][1] - m[0][0] - m[2][2]
    } else {
        1 + m[2][2] - m[0][0] - m[1][1]
    }
}

/// The three off-diagonal differences of the branch, in the order in which
/// they fill the non-leading components.
pub open spec fn quat_diffs(m: Seq<Seq<int>>) -> Seq<int> {
    let b = quat_branch(m);
    let a = m[1][2] - m[2][1];
    let p = m[2][0] - m[0][2];
    let c = m[0][1] - m[1][0];
    if b == 0 {
        seq![a, p, c]
    } else if b == 1 {
        seq![c, p, a]
    } else if b == 2 {
        seq![c, a, p]
    } else {
        seq![p, a, c]
    }
}

/// Index, among `(w, x, y, z)`, of the `k`-th component other than `lead`.
pub open spec fn other_component(lead: int, k: int) -> int {
    if k < lead {
        k
    } else {
        k + 1
    }
}

/// `l` is `sqrt(r) / 2` truncated.
pub open spec fn is_half_root(r: int, l: int) -> bool {
    0 <= l && 4 * l * l <= r < 4 * (l + 1) * (l + 1)
}

/// `q` is `d / (2 * sqrt(r))` truncated toward zero.
pub open spec fn is_scaled_quotient(d: int, r: int, q: int) -> bool {
    let a = if d < 0 { -d } else { d };
    let b = if q < 0 { -q } else { q };
    (d >= 0 ==> q >= 0) && (d <= 0 ==> q <= 0) && 4 * b * b * r <= a * a < 4 * (b + 1) * (b + 1)
        * r
}

/// `q` is the quaternion that the conversion gives for the 3x3 matrix `m`.
pub open spec fn is_quat_of(m: Seq<Seq<int>>, q: Seq<int>) -> bool {
    let b = quat_branch(m);
    let r = quat_radicand(m);
    let d = quat_diffs(m);
    q.len() == 4 && is_half_root(r, q[b]) && is_scaled_quotient(d[0], r, q[other_component(b, 0)])
        && is_scaled_quotient(d[1], r, q[other_component(b, 1)]) && is_scaled_quotient(
        d[2],
        r,
        q[other_component(b, 2)],
    )
}

/// Integer square root: the largest `s` with `s * s <= n`.
pub fn isqrt(n: u64) -> (s: u64)
    ensures
        s * s <= n < (s + 1) * (s + 1),
{
    let mut lo: u64 = 0;
    let mut hi: u64 = 0x1_0000_0000;
    assert(n < hi * hi) by (nonlinear_arith)
        requires
            hi == 0x1_0000_0000,
            n <= u64::MAX,
    ;
    while hi - lo > 1
        invariant
            lo < hi <= 0x1_0000_0000,
            lo * lo <= n < hi * hi,
        decreases hi - lo,
    {
        let mid: u64 = lo + (hi - lo) / 2;
        assert(mid * mid < 0x1_0000_0000_0000_0000) by (nonlinear_arith)
            requires
                mid < 0x1_0000_0000,
        ;
        let sq: u128 = mid as u128 * mid as u128;
        if sq <= n as u128 {
            lo = mid;
        } else {
            hi = mid;
        }
    }
    assert(hi == lo + 1);
    lo
}

/// `sqrt(r) / 2`, truncated.
pub fn half_root(r: u64) -> (l: i32)
    requires
        r <= 0x2_0000_0000,
    ensures
        is_half_root(r as int, l as int),
{
    let s = isqrt(r);
    assert(s <= 0x2_0000) by (nonlinear_arith)
        requires
            s * s <= r,
            r <= 0x2_0000_0000,
    ;
    let l: u64 = s / 2;
    assert(is_half_root(r as int, l as int)) by (nonlinear_arith)
        requires
            s * s <= r < (s + 1) * (s + 1),
            l == s / 2,
    ;
    l as i32
}

/// `d / (2 * sqrt(r))`, truncated toward zero.
pub fn scaled_quotient(d: i64, r: i64) -> (q: i32)
    requires
        1 <= r <= 0x2_0000_0000,
        -0x1_0000_0000 < d < 0x1_0000_0000,
    ensures
        is_scaled_quotient(d as int, r as int, q as int),
{
    let a: u64 = if d < 0 { (-d) as u64 } else { d as u64 };
    assert(a * a < 0x1_0000_0000_0000_0000) by (nonlinear_arith)
        requires
            a < 0x1_0000_0000,
    ;
    let sq: u64 = a * a;
    let den: u64 = 4 * (r as u64);
    let t: u64 = sq / den;
    let b = isqrt(t);
    proof {
        let ti = t as int;
        let di = den as int;
        let si = sq as int;
        let bi = b as int;
        assert(ti * di <= si < (ti + 1) * di) by (nonlinear_arith)
            requires
                ti == si / di,
                di > 0,
        ;
        assert(4 * bi * bi * r <= si) by (nonlinear_arith)
            requires
                bi * bi <= ti,
                ti * di <= si,
                di == 4 * r,
                r >= 1,
        ;
        assert(si < 4 * (bi + 1) * (bi + 1) * r) by (nonlinear_arith)
            requires
                ti + 1 <= (bi + 1) * (bi + 1),
                si < (ti + 1) * di,
                di == 4 * r,
                r >= 1,
        ;
        assert(bi < 0x8000_0000) by (nonlinear_arith)
            requires
                4 * bi * bi * r <= si,
                si == a * a,
                a < 0x1_0000_0000,
                r >= 1,
                bi >= 0,
        ;
        assert(a as int == if d < 0 { -(d as int) } else { d as int });
        assert(4 * bi * bi * r <= a * a < 4 * (bi + 1) * (bi + 1) * r);
    }
    if d == 0 {
        assert(b == 0) by (nonlinear_arith)
            requires
                4 * b * b * r <= a * a,
                a == 0,
                r >= 1,
        ;
    }
    if d < 0 {
        -(b as i32)
    } else {
        b as i32
    }
}


/// The radicand is at least one for every integer matrix, so the conversion
/// never takes the square root of a negative value nor divides by zero.
pub proof fn lemma_radicand_positive(m: Seq<Seq<int>>)
    ensures
        quat_radicand(m) >= 1,
{
}

proof fn lemma_half_root_unique(r: int, l1: int, l2: int)
    requires
        is_half_root(r, l1),
        is_half_root(r, l2),
    ensures
        l1 == l2,
{
    if l1 < l2 {
        assert(4 * (l1 + 1) * (l1 + 1) <= 4 * l2 * l2) by (nonlinear_arith)
            requires
                0 <= l1 + 1 <= l2,
        ;
    } else if l2 < l1 {
        assert(4 * (l2 + 1) * (l2 + 1) <= 4 * l1 * l1) by (nonlinear_arith)
            requires
                0 <= l2 + 1 <= l1,
        ;
    }
}

proof fn lemma_scaled_quotient_unique(d: int, r: int, q1: int, q2: int)
    requires
        r >= 1,
        is_scaled_quotient(d, r, q1),
        is_scaled_quotient(d, r, q2),
    ensures
        q1 == q2,
{
    let a = if d < 0 { -d } else { d };
    let b1 = if q1 < 0 { -q1 } else { q1 };
    let b2 = if q2 < 0 { -q2 } else { q2 };
    if b1 < b2 {
        assert(4 * (b1 + 1) * (b1 + 1) * r <= 4 * b2 * b2 * r) by (nonlinear_arith)
            requires
                0 <= b1 + 1 <= b2,
                r >= 1,
        ;
    } else if b2 < b1 {
        assert(4 * (b2 + 1) * (b2 + 1) * r <= 4 * b1 * b1 * r) by (nonlinear_arith)
            requires
                0 <= b2 + 1 <= b1,
                r >= 1,
        ;
    }
}

/// A matrix has exactly one quaternion under the conversion.
pub proof fn lemma_quat_of_unique(m: Seq<Seq<int>>, q1: Seq<int>, q2: Seq<int>)
    requires
        is_quat_of(m, q1),
        is_quat_of(m, q2),
    ensures
        q1 == q2,
{
    let b = quat_branch(m);
    let r = quat_radicand(m);
    let d = quat_diffs(m);
    lemma_radicand_positive(m);
    lemma_half_root_unique(r, q1[b], q2[b]);
    lemma_scaled_quotient_unique(d[0], r, q1[other_component(b, 0)], q2[other_component(b, 0)]);
    lemma_scaled_quotient_unique(d[1], r, q1[other_component(b, 1)], q2[other_component(b, 1)]);
    lemma_scaled_quotient_unique(d[2], r, q1[other_component(b, 2)], q2[other_component(b, 2)]);
    assert(q1 =~= q2);
}

/// The identity converts to the identity quaternion `(1, 0, 0, 0)`, and the
/// half turn about z, `diag(-1, -1, 1)`, to `(0, 0, 0, 1)`: the branch for the
/// largest diagonal entry `m[2][2]` is taken.
pub proof fn lemma_quat_of_identity_and_half_turn()
    ensures
        is_quat_of(identity_mat(3), seq![1int, 0int, 0int, 0int]),
        quat_branch(seq![seq![-1int, 0int, 0int], seq![0int, -1int, 0int], seq![0int, 0int, 1int]])
            == 3,
        is_quat_of(
            seq![seq![-1int, 0int, 0int], seq![0int, -1int, 0int], seq![0int, 0int, 1int]],
            seq![0int, 0int, 0int, 1int],
        ),
{
    let i = identity_mat(3);
    assert(i[0][0] == 1 && i[1][1] == 1 && i[2][2] == 1);
    assert(i[0][1] == 0 && i[1][0] == 0 && i[0][2] == 0 && i[2][0] == 0);
    assert(i[1][2] == 0 && i[2][1] == 0);
}

} // verus!
