use lmath::mat2::Mat2;
use lmath::mat3::Mat3;
use lmath::mat4::Mat4;
use lmath::matrix::{Matrix, Matrix3, Matrix4};
use lmath::quat::Quat;
use lmath::vector::{Vec2, Vec3, Vec4};

#[test]
fn mat2_mul_v_column_major() {
    let m = Mat2::new(1, 2, 3, 4);
    assert_eq!(m.mul_v(&Vec2::new(1, 1)), Vec2::new(1 * 1 + 3 * 1, 2 * 1 + 4 * 1));
    assert_eq!(m.mul_v(&Vec2::new(1, 1)), Vec2::new(4, 6));
}

#[test]
fn mat2_mul_m_order_matters() {
    let a = Mat2::new(1, 2, 3, 4);
    let b = Mat2::new(5, 6, 7, 8);
    assert!(a.mul_m(&b).exact_eq(&Mat2::new(23, 34, 31, 46)));
    assert!(b.mul_m(&a).exact_eq(&Mat2::new(19, 22, 43, 50)));
}

#[test]
fn identity_laws_each_dimension() {
    let m2 = Mat2::new(1, -2, 3, 4);
    assert!(m2.mul_m(&Mat2::identity()).exact_eq(&m2));
    assert!(Mat2::identity().mul_m(&m2).exact_eq(&m2));
    let m3 = Mat3::new(1, 2, 3, 4, 5, 6, 7, 8, -9);
    assert!(m3.mul_m(&Mat3::identity()) == m3);
    assert!(Mat3::identity().mul_m(&m3) == m3);
    let m4 = Mat4::new(1, 2, 3, 4, 5, 6, 7, 8, 9, 10, 11, 12, 13, 14, 15, -16);
    assert!(m4.mul_m(&Mat4::identity()) == m4);
    assert!(Mat4::identity().mul_m(&m4) == m4);
}

#[test]
fn transpose_twice_gives_back() {
    let m2 = Mat2::new(1, 2, 3, 4);
    assert!(m2.transpose().exact_eq(&Mat2::new(1, 3, 2, 4)));
    assert!(m2.transpose().transpose().fuzzy_eq(&m2));
    let m3 = Mat3::new(1, 2, 3, 4, 5, 6, 7, 8, 9);
    assert!(m3.transpose().exact_eq(&Mat3::new(1, 4, 7, 2, 5, 8, 3, 6, 9)));
    assert!(m3.transpose().transpose().fuzzy_eq(&m3));
    let m4 = Mat4::new(1, 2, 3, 4, 5, 6, 7, 8, 9, 10, 11, 12, 13, 14, 15, 16);
    assert!(m4.transpose().exact_eq(&Mat4::new(1, 5, 9, 13, 2, 6, 10, 14, 3, 7, 11, 15, 4, 8, 12, 16)));
    assert!(m4.transpose().transpose().fuzzy_eq(&m4));
}

#[test]
fn transpose_col_is_row() {
    let m3 = Mat3::new(1, 2, 3, 4, 5, 6, 7, 8, 9);
    for i in 0..3 {
        assert_eq!(m3.transpose().col(i), m3.row(i));
    }
    assert_eq!(m3.row(1), Vec3::new(2, 5, 8));
    let m4 = Mat4::new(1, 2, 3, 4, 5, 6, 7, 8, 9, 10, 11, 12, 13, 14, 15, 16);
    for i in 0..4 {
        assert_eq!(m4.transpose().col(i), m4.row(i));
    }
    let m2 = Mat2::new(1, 2, 3, 4);
    for i in 0..2 {
        assert_eq!(m2.transpose().col(i), m2.row(i));
    }
}

#[test]
fn add_negation_is_zero() {
    let m2 = Mat2::new(1, -2, 3, 4);
    assert!(m2.add_m(&m2.neg()).fuzzy_eq(&Mat2::zero()));
    let m3 = Mat3::new(1, 2, 3, 4, 5, 6, 7, 8, 9);
    assert!(m3.add_m(&m3.neg()).fuzzy_eq(&Mat3::zero()));
    let m4 = Mat4::new(1, 2, 3, 4, 5, 6, 7, 8, 9, 10, 11, 12, 13, 14, 15, 16);
    assert!(m4.add_m(&m4.neg()).fuzzy_eq(&Mat4::zero()));
    assert!(m4.neg().exact_eq(&Mat4::new(-1, -2, -3, -4, -5, -6, -7, -8, -9, -10, -11, -12, -13, -14, -15, -16)));
}

#[test]
fn sub_and_scalar_multiplication() {
    let a = Mat3::new(1, 2, 3, 4, 5, 6, 7, 8, 9);
    let b = Mat3::new(9, 8, 7, 6, 5, 4, 3, 2, 1);
    assert!(a.sub_m(&b).exact_eq(&Mat3::new(-8, -6, -4, -2, 0, 2, 4, 6, 8)));
    assert!(a.add_m(&b).exact_eq(&Mat3::new(10, 10, 10, 10, 10, 10, 10, 10, 10)));
    assert!(a.mul_t(2).exact_eq(&Mat3::new(2, 4, 6, 8, 10, 12, 14, 16, 18)));
    assert!(Mat2::new(1, 2, 3, 4).mul_t(-3).exact_eq(&Mat2::new(-3, -6, -9, -12)));
}

#[test]
fn identity_predicates() {
    assert!(Mat2::identity().is_identity());
    assert!(Mat2::identity().is_diagonal());
    assert!(Mat2::identity().is_symmetric());
    assert!(!Mat2::identity().is_rotated());
    assert!(Mat3::identity().is_identity());
    assert!(Mat3::identity().is_diagonal());
    assert!(Mat3::identity().is_symmetric());
    assert!(!Mat3::identity().is_rotated());
    assert!(Mat4::identity().is_identity());
    assert!(Mat4::identity().is_diagonal());
    assert!(Mat4::identity().is_symmetric());
    assert!(!Mat4::identity().is_rotated());
}

#[test]
fn off_diagonal_entry_not_diagonal() {
    let m2 = Mat2::new(1, 0, 5, 1);
    assert!(!m2.is_diagonal());
    assert!(!m2.is_symmetric());
    assert!(m2.is_rotated());
    let m3 = Mat3::new(1, 0, 0, 0, 1, 0, 0, 7, 1);
    assert!(!m3.is_diagonal());
    assert!(!m3.is_identity());
    let s3 = Mat3::new(1, 2, 3, 2, 4, 5, 3, 5, 6);
    assert!(s3.is_symmetric());
    assert!(!s3.is_diagonal());
    let d4 = Mat4::new(2, 0, 0, 0, 0, 3, 0, 0, 0, 0, 4, 0, 0, 0, 0, 5);
    assert!(d4.is_diagonal());
    assert!(!d4.is_identity());
    let m4 = Mat4::new(1, 0, 0, 0, 0, 1, 0, 0, 0, 0, 1, 0, 0, 0, -1, 1);
    assert!(!m4.is_diagonal());
    assert!(!m4.is_symmetric());
}

#[test]
fn zero_matrix_is_diagonal_not_identity() {
    assert!(Mat3::zero().is_diagonal());
    assert!(Mat3::zero().is_symmetric());
    assert!(!Mat3::zero().is_identity());
    assert!(Mat4::zero().is_rotated());
}

#[test]
fn exact_and_fuzzy_equality() {
    let a = Mat2::new(1, 2, 3, 4);
    let b = Mat2::new(1, 2, 3, 5);
    assert!(a.exact_eq(&a));
    assert!(a.fuzzy_eq(&a));
    assert!(!a.exact_eq(&b));
    assert!(!a.fuzzy_eq(&b));
    assert!(a == Mat2::new(1, 2, 3, 4));
    assert!(a != b);
}

#[test]
fn shape_and_columns() {
    let m3 = Mat3::new(1, 2, 3, 4, 5, 6, 7, 8, 9);
    assert_eq!(m3.rows(), 3);
    assert_eq!(m3.cols(), 3);
    assert!(m3.is_col_major());
    assert_eq!(m3.col(2), Vec3::new(7, 8, 9));
    assert_eq!(m3.index(0), Vec3::new(1, 2, 3));
    assert_eq!(Mat2::identity().rows(), 2);
    assert_eq!(Mat4::identity().cols(), 4);
    assert_eq!(Mat4::identity().col(3), Vec4::unit_w());
    let c = Mat2::from_cols(&Vec2::new(1, 2), &Vec2::new(3, 4));
    assert!(c.exact_eq(&Mat2::new(1, 2, 3, 4)));
}

#[test]
fn mat3_mul_v_and_scale() {
    let m = Mat3::new(1, 2, 3, 4, 5, 6, 7, 8, 9);
    assert_eq!(m.mul_v(&Vec3::new(1, 0, -1)), Vec3::new(-6, -6, -6));
    assert!(m.scale(&Vec3::new(2, 3, 4)).exact_eq(&Mat3::new(2, 4, 6, 12, 15, 18, 28, 32, 36)));
}

#[test]
fn mat4_scale_and_translate() {
    let s = Mat4::identity().scale(&Vec3::new(2, 3, 4));
    assert!(s.exact_eq(&Mat4::new(2, 0, 0, 0, 0, 3, 0, 0, 0, 0, 4, 0, 0, 0, 0, 1)));
    let t = Mat4::identity().translate(&Vec3::new(5, 6, 7));
    assert!(t.exact_eq(&Mat4::new(1, 0, 0, 0, 0, 1, 0, 0, 0, 0, 1, 0, 5, 6, 7, 1)));
    let m = Mat4::new(1, 2, 3, 4, 5, 6, 7, 8, 9, 10, 11, 12, 13, 14, 15, 16);
    assert!(m.translate(&Vec3::new(1, 1, 1)).exact_eq(&Mat4::new(1, 2, 3, 4, 5, 6, 7, 8, 9, 10, 11, 12, 14, 15, 16, 16)));
}

#[test]
fn translate_moves_origin() {
    let v = Vec3::new(3, -4, 5);
    let p = Mat4::identity().translate(&v).mul_v(&Vec4::new(0, 0, 0, 1));
    assert_eq!(p, Vec4::new(v.x, v.y, v.z, 1));
}

#[test]
fn mat3_to_mat4_promotion() {
    let m = Mat3::new(1, 2, 3, 4, 5, 6, 7, 8, 9);
    let p = m.to_Mat4();
    assert_eq!(p.index(3), Vec4::new(0, 0, 0, 1));
    for i in 0..3 {
        let c = p.col(i);
        assert_eq!(Vec3::new(c.x, c.y, c.z), m.col(i));
        assert_eq!(c.w, 0);
    }
    assert!(Mat3::identity().to_Mat4().is_identity());
}

#[test]
fn quat_of_identity() {
    assert_eq!(Mat3::identity().to_Quat(), Quat::new(1, 0, 0, 0));
}

#[test]
fn quat_of_half_turn_about_z() {
    let m = Mat3::new(-1, 0, 0, 0, -1, 0, 0, 0, 1);
    let q = m.to_Quat();
    assert_eq!(q, Quat::new(0, 0, 0, 1));
}

#[test]
fn quat_of_half_turns_about_x_and_y() {
    let rx = Mat3::new(1, 0, 0, 0, -1, 0, 0, 0, -1);
    assert_eq!(rx.to_Quat(), Quat::new(0, 1, 0, 0));
    let ry = Mat3::new(-1, 0, 0, 0, 1, 0, 0, 0, -1);
    assert_eq!(ry.to_Quat(), Quat::new(0, 0, 1, 0));
}

#[test]
fn quat_truncates_toward_zero() {
    // Trace 0: radicand 1, w = 0.5 truncated, z = 10 / 2.
    assert_eq!(Mat3::new(0, 5, 0, -5, 0, 0, 0, 0, 0).to_Quat(), Quat::new(0, 0, 0, 5));
    assert_eq!(Mat3::new(0, -5, 0, 5, 0, 0, 0, 0, 0).to_Quat(), Quat::new(0, 0, 0, -5));
    // z = 3 / 2 and -3 / 2, truncated.
    assert_eq!(Mat3::new(0, 3, 0, 0, 0, 0, 0, 0, 0).to_Quat(), Quat::new(0, 0, 0, 1));
    assert_eq!(Mat3::new(0, -3, 0, 0, 0, 0, 0, 0, 0).to_Quat(), Quat::new(0, 0, 0, -1));
    // Trace 15: radicand 16, w = 2, x = (m12 - m21) / 8 = 16 / 8.
    assert_eq!(Mat3::new(5, 0, 0, 0, 5, 8, 0, -8, 5).to_Quat(), Quat::new(2, 2, 0, 0));
}

#[test]
fn quat_branch_ties_go_to_later_diagonal() {
    // Trace -3, all diagonal entries equal: the z branch, radicand 2.
    let m = Mat3::new(-1, 0, 0, 0, -1, 0, 0, 0, -1);
    assert_eq!(m.to_Quat(), Quat::new(0, 0, 0, 0));
    // m[1][1] largest: y branch, radicand 1 + 0 + 2 + 2 = 5, y = 1.
    let n = Mat3::new(-2, 0, 0, 0, 0, 0, 0, 0, -2);
    assert_eq!(n.to_Quat(), Quat::new(0, 0, 1, 0));
}

#[test]
fn vector_operations() {
    let a = Vec3::new(1, 2, 3);
    let b = Vec3::new(4, 5, 6);
    assert_eq!(a.dot(&b), 32);
    assert_eq!(a.add_v(&b), Vec3::new(5, 7, 9));
    assert_eq!(b.sub_v(&a), Vec3::new(3, 3, 3));
    assert_eq!(a.mul_t(3), Vec3::new(3, 6, 9));
    assert_eq!(a.neg(), Vec3::new(-1, -2, -3));
    assert_eq!(a.index(2), 3);
    assert!(a.exact_eq(&a) && !a.exact_eq(&b));
    assert!(a.fuzzy_eq(&a) && !a.fuzzy_eq(&b));
    assert_eq!(Vec4::zero(), Vec4::new(0, 0, 0, 0));
    assert_eq!(Vec2::unit_y(), Vec2::new(0, 1));
}

#[test]
fn large_entries_computed_exactly() {
    let big = 2_000_000_000;
    let m = Mat2::new(big, 0, 0, 1);
    assert_eq!(m.mul_v(&Vec2::new(1, 147_483_647)), Vec2::new(big, 147_483_647));
    let q = Mat3::new(i32::MAX, 0, 0, 0, i32::MIN, 0, 0, 0, i32::MIN).to_Quat();
    // Radicand 1 + (2^31 - 1) + 2^31 + 2^31, the x branch.
    assert_eq!(q, Quat::new(0, 40132, 0, 0));
}

#[test]
fn mat3_mul_m_exact_values() {
    let a = Mat3::new(1, 2, 3, 4, 5, 6, 7, 8, 9);
    let b = Mat3::new(2, 0, 1, 1, 3, -1, 0, -2, 4);
    assert!(a.mul_m(&b).exact_eq(&Mat3::new(9, 12, 15, 6, 9, 12, 20, 22, 24)));
}

#[test]
fn mat4_mul_m_and_mul_v_exact_values() {
    let a = Mat4::new(1, 2, 3, 4, 5, 6, 7, 8, 9, 10, 11, 12, 13, 14, 15, 16);
    let b = Mat4::new(1, 0, 2, 0, 0, 1, 0, 3, -1, 0, 1, 0, 2, 2, 2, 2);
    let p = a.mul_m(&b);
    assert!(p.exact_eq(&Mat4::new(19, 22, 25, 28, 44, 48, 52, 56, 8, 8, 8, 8, 56, 64, 72, 80)));
    assert_eq!(a.mul_v(&Vec4::new(1, -1, 2, 0)), Vec4::new(14, 16, 18, 20));
    assert_eq!(a.row(2), Vec4::new(3, 7, 11, 15));
}

#[test]
fn shared_contract_across_dimensions() {
    assert_eq!((Mat2::zero().rows(), Mat2::zero().cols()), (2, 2));
    assert_eq!((Mat3::zero().rows(), Mat3::zero().cols()), (3, 3));
    assert_eq!((Mat4::zero().rows(), Mat4::zero().cols()), (4, 4));
    assert!(Mat2::zero().is_col_major() && Mat4::zero().is_col_major());
}
