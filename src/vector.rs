//! Column vectors of two, three and four `i32` components.
use vstd::prelude::*;

use crate::model::{
    add_vec, approx_eq, approx_eq_vec, dot, dot_upto, fits, fits_vec, fuzzy_eq_scalar, lemma_mul_bound, neg_vec, scale_vec,
    sub_vec,
};

verus! {

/// A column vector of 2 components.
#[derive(Clone, Copy, Debug, PartialEq, Eq, Structural)]
pub struct Vec2 {
    pub x: i32,
    pub y: i32,
}

impl View for Vec2 {
    type V = Seq<int>;

    open spec fn view(&self) -> Seq<int> {
        seq![self.x as int, self.y as int]
    }
}

impl Vec2 {
    /// The vector with the given components.
    pub fn new(x: i32, y: i32) -> (r: Vec2)
        ensures
            r@ == seq![x as int, y as int],
    {
        Vec2 { x, y }
    }

    /// The vector whose components are all zero.
    pub fn zero() -> (r: Vec2)
        ensures
            r@ == Seq::new(2, |i: int| 0int),
    {
        let r = Vec2 { x: 0, y: 0 };
        assert(r@ =~= Seq::new(2, |i: int| 0int));
        r
    }

    /// The unit vector along axis x.
    pub fn unit_x() -> (r: Vec2)
        ensures
            r@ == Seq::new(2, |i: int| if i == 0 { 1int } else { 0int }),
    {
        let r = Vec2 { x: 1, y: 0 };
        assert(r@ =~= Seq::new(2, |i: int| if i == 0 { 1int } else { 0int }));
        r
    }

    /// The unit vector along axis y.
    pub fn unit_y() -> (r: Vec2)
        ensures
            r@ == Seq::new(2, |i: int| if i == 1 { 1int } else { 0int }),
    {
        let r = Vec2 { x: 0, y: 1 };
        assert(r@ =~= Seq::new(2, |i: int| if i == 1 { 1int } else { 0int }));
        r
    }

    /// Component `i`.
    pub fn index(&self, i: usize) -> (r: i32)
        requires
            i < 2,
        ensures
            r as int == self@[i as int],
    {
        if i == 0 {
            self.x
        } else {
            self.y
        }
    }

    /// Dot product, computed exactly.
    pub fn dot(&self, other: &Vec2) -> (r: i32)
        requires
            fits(dot(self@, other@)),
        ensures
            r as int == dot(self@, other@),
    {
        proof {
            reveal_with_fuel(dot_upto, 3);
            lemma_mul_bound(self.x as int, other.x as int);
            lemma_mul_bound(self.y as int, other.y as int);
        }
        let s: i128 = self.x as i128 * other.x as i128 + self.y as i128 * other.y as i128;
        s as i32
    }

    /// Componentwise sum.
    pub fn add_v(&self, other: &Vec2) -> (r: Vec2)
        requires
            fits_vec(add_vec(self@, other@)),
        ensures
            r@ == add_vec(self@, other@),
    {
        assert(fits(add_vec(self@, other@)[0]));
        assert(fits(add_vec(self@, other@)[1]));
        let r = Vec2 { x: self.x + other.x, y: self.y + other.y };
        assert(r@ =~= add_vec(self@, other@));
        r
    }

    /// Componentwise difference.
    pub fn sub_v(&self, other: &Vec2) -> (r: Vec2)
        requires
            fits_vec(sub_vec(self@, other@)),
        ensures
            r@ == sub_vec(self@, other@),
    {
        assert(fits(sub_vec(self@, other@)[0]));
        assert(fits(sub_vec(self@, other@)[1]));
        let r = Vec2 { x: self.x - other.x, y: self.y - other.y };
        assert(r@ =~= sub_vec(self@, other@));
        r
    }

    /// Every component multiplied by `value`.
    pub fn mul_t(&self, value: i32) -> (r: Vec2)
        requires
            fits_vec(scale_vec(self@, value as int)),
        ensures
            r@ == scale_vec(self@, value as int),
    {
        assert(fits(scale_vec(self@, value as int)[0]));
        assert(fits(scale_vec(self@, value as int)[1]));
        let r = Vec2 { x: self.x * value, y: self.y * value };
        assert(r@ =~= scale_vec(self@, value as int));
        r
    }

    /// Componentwise negation.
    pub fn neg(&self) -> (r: Vec2)
        requires
            fits_vec(neg_vec(self@)),
        ensures
            r@ == neg_vec(self@),
    {
        assert(fits(neg_vec(self@)[0]));
        assert(fits(neg_vec(self@)[1]));
        let r = Vec2 { x: -self.x, y: -self.y };
        assert(r@ =~= neg_vec(self@));
        r
    }

    /// Exact componentwise equality.
    pub fn exact_eq(&self, other: &Vec2) -> (r: bool)
        ensures
            r == (self@ == other@),
    {
        let r = self.x == other.x && self.y == other.y;
        assert(r ==> self@ =~= other@);
        assert(self@ == other@ ==> self@[0] == other@[0] && self@[1] == other@[1]);
        r
    }

    /// Componentwise equality up to the scalar tolerance.
    pub fn fuzzy_eq(&self, other: &Vec2) -> (r: bool)
        ensures
            r == approx_eq_vec(self@, other@),
    {
        let r = fuzzy_eq_scalar(self.x, other.x) && fuzzy_eq_scalar(self.y, other.y);
        assert(approx_eq_vec(self@, other@) ==> approx_eq(self@[0], other@[0]) && approx_eq(self@[1], other@[1]));
        r
    }
}

/// A column vector of 3 components.
#[derive(Clone, Copy, Debug, PartialEq, Eq, Structural)]
pub struct Vec3 {
    pub x: i32,
    pub y: i32,
    pub z: i32,
}

impl View for Vec3 {
    type V = Seq<int>;

    open spec fn view(&self) -> Seq<int> {
        seq![self.x as int, self.y as int, self.z as int]
    }
}

impl Vec3 {
    /// The vector with the given components.
    pub fn new(x: i32, y: i32, z: i32) -> (r: Vec3)
        ensures
            r@ == seq![x as int, y as int, z as int],
    {
        Vec3 { x, y, z }
    }

    /// The vector whose components are all zero.
    pub fn zero() -> (r: Vec3)
        ensures
            r@ == Seq::new(3, |i: int| 0int),
    {
        let r = Vec3 { x: 0, y: 0, z: 0 };
        assert(r@ =~= Seq::new(3, |i: int| 0int));
        r
    }

    /// The unit vector along axis x.
    pub fn unit_x() -> (r: Vec3)
        ensures
            r@ == Seq::new(3, |i: int| if i == 0 { 1int } else { 0int }),
    {
        let r = Vec3 { x: 1, y: 0, z: 0 };
        assert(r@ =~= Seq::new(3, |i: int| if i == 0 { 1int } else { 0int }));
        r
    }

    /// The unit vector along axis y.
    pub fn unit_y() -> (r: Vec3)
        ensures
            r@ == Seq::new(3, |i: int| if i == 1 { 1int } else { 0int }),
    {
        let r = Vec3 { x: 0, y: 1, z: 0 };
        assert(r@ =~= Seq::new(3, |i: int| if i == 1 { 1int } else { 0int }));
        r
    }

    /// The unit vector along axis z.
    pub fn unit_z() -> (r: Vec3)
        ensures
            r@ == Seq::new(3, |i: int| if i == 2 { 1int } else { 0int }),
    {
        let r = Vec3 { x: 0, y: 0, z: 1 };
        assert(r@ =~= Seq::new(3, |i: int| if i == 2 { 1int } else { 0int }));
        r
    }

    /// Component `i`.
    pub fn index(&self, i: usize) -> (r: i32)
        requires
            i < 3,
        ensures
            r as int == self@[i as int],
    {
        if i == 0 {
            self.x
        } else if i == 1 {
            self.y
        } else {
            self.z
        }
    }

    /// Dot product, computed exactly.
    pub fn dot(&self, other: &Vec3) -> (r: i32)
        requires
            fits(dot(self@, other@)),
        ensures
            r as int == dot(self@, other@),
    {
        proof {
            reveal_with_fuel(dot_upto, 4);
            lemma_mul_bound(self.x as int, other.x as int);
            lemma_mul_bound(self.y as int, other.y as int);
            lemma_mul_bound(self.z as int, other.z as int);
        }
        let s: i128 = self.x as i128 * other.x as i128 + self.y as i128 * other.y as i128 + self.z as i128 * other.z as i128;
        s as i32
    }

    /// Componentwise sum.
    pub fn add_v(&self, other: &Vec3) -> (r: Vec3)
        requires
            fits_vec(add_vec(self@, other@)),
        ensures
            r@ == add_vec(self@, other@),
    {
        assert(fits(add_vec(self@, other@)[0]));
        assert(fits(add_vec(self@, other@)[1]));
        assert(fits(add_vec(self@, other@)[2]));
        let r = Vec3 { x: self.x + other.x, y: self.y + other.y, z: self.z + other.z };
        assert(r@ =~= add_vec(self@, other@));
        r
    }

    /// Componentwise difference.
    pub fn sub_v(&self, other: &Vec3) -> (r: Vec3)
        requires
            fits_vec(sub_vec(self@, other@)),
        ensures
            r@ == sub_vec(self@, other@),
    {
        assert(fits(sub_vec(self@, other@)[0]));
        assert(fits(sub_vec(self@, other@)[1]));
        assert(fits(sub_vec(self@, other@)[2]));
        let r = Vec3 { x: self.x - other.x, y: self.y - other.y, z: self.z - other.z };
        assert(r@ =~= sub_vec(self@, other@));
        r
    }

    /// Every component multiplied by `value`.
    pub fn mul_t(&self, value: i32) -> (r: Vec3)
        requires
            fits_vec(scale_vec(self@, value as int)),
        ensures
            r@ == scale_vec(self@, value as int),
    {
        assert(fits(scale_vec(self@, value as int)[0]));
        assert(fits(scale_vec(self@, value as int)[1]));
        assert(fits(scale_vec(self@, value as int)[2]));
        let r = Vec3 { x: self.x * value, y: self.y * value, z: self.z * value };
        assert(r@ =~= scale_vec(self@, value as int));
        r
    }

    /// Componentwise negation.
    pub fn neg(&self) -> (r: Vec3)
        requires
            fits_vec(neg_vec(self@)),
        ensures
            r@ == neg_vec(self@),
    {
        assert(fits(neg_vec(self@)[0]));
        assert(fits(neg_vec(self@)[1]));
        assert(fits(neg_vec(self@)[2]));
        let r = Vec3 { x: -self.x, y: -self.y, z: -self.z };
        assert(r@ =~= neg_vec(self@));
        r
    }

    /// Exact componentwise equality.
    pub fn exact_eq(&self, other: &Vec3) -> (r: bool)
        ensures
            r == (self@ == other@),
    {
        let r = self.x == other.x && self.y == other.y && self.z == other.z;
        assert(r ==> self@ =~= other@);
        assert(self@ == other@ ==> self@[0] == other@[0] && self@[1] == other@[1] && self@[2] == other@[2]);
        r
    }

    /// Componentwise equality up to the scalar tolerance.
    pub fn fuzzy_eq(&self, other: &Vec3) -> (r: bool)
        ensures
            r == approx_eq_vec(self@, other@),
    {
        let r = fuzzy_eq_scalar(self.x, other.x) && fuzzy_eq_scalar(self.y, other.y) && fuzzy_eq_scalar(self.z, other.z);
        assert(approx_eq_vec(self@, other@) ==> approx_eq(self@[0], other@[0]) && approx_eq(self@[1], other@[1]) && approx_eq(self@[2], other@[2]));
        r
    }
}

/// A column vector of 4 components.
#[derive(Clone, Copy, Debug, PartialEq, Eq, Structural)]
pub struct Vec4 {
    pub x: i32,
    pub y: i32,
    pub z: i32,
    pub w: i32,
}

impl View for Vec4 {
    type V = Seq<int>;

    open spec fn view(&self) -> Seq<int> {
        seq![self.x as int, self.y as int, self.z as int, self.w as int]
    }
}

impl Vec4 {
    /// The vector with the given components.
    pub fn new(x: i32, y: i32, z: i32, w: i32) -> (r: Vec4)
        ensures
            r@ == seq![x as int, y as int, z as int, w as int],
    {
        Vec4 { x, y, z, w }
    }

    /// The vector whose components are all zero.
    pub fn zero() -> (r: Vec4)
        ensures
            r@ == Seq::new(4, |i: int| 0int),
    {
        let r = Vec4 { x: 0, y: 0, z: 0, w: 0 };
        assert(r@ =~= Seq::new(4, |i: int| 0int));
        r
    }

    /// The unit vector along axis x.
    pub fn unit_x() -> (r: Vec4)
        ensures
            r@ == Seq::new(4, |i: int| if i == 0 { 1int } else { 0int }),
    {
        let r = Vec4 { x: 1, y: 0, z: 0, w: 0 };
        assert(r@ =~= Seq::new(4, |i: int| if i == 0 { 1int } else { 0int }));
        r
    }

    /// The unit vector along axis y.
    pub fn unit_y() -> (r: Vec4)
        ensures
            r@ == Seq::new(4, |i: int| if i == 1 { 1int } else { 0int }),
    {
        let r = Vec4 { x: 0, y: 1, z: 0, w: 0 };
        assert(r@ =~= Seq::new(4, |i: int| if i == 1 { 1int } else { 0int }));
        r
    }

    /// The unit vector along axis z.
    pub fn unit_z() -> (r: Vec4)
        ensures
            r@ == Seq::new(4, |i: int| if i == 2 { 1int } else { 0int }),
    {
        let r = Vec4 { x: 0, y: 0, z: 1, w: 0 };
        assert(r@ =~= Seq::new(4, |i: int| if i == 2 { 1int } else { 0int }));
        r
    }

    /// The unit vector along axis w.
    pub fn unit_w() -> (r: Vec4)
        ensures
            r@ == Seq::new(4, |i: int| if i == 3 { 1int } else { 0int }),
    {
        let r = Vec4 { x: 0, y: 0, z: 0, w: 1 };
        assert(r@ =~= Seq::new(4, |i: int| if i == 3 { 1int } else { 0int }));
        r
    }

    /// Component `i`.
    pub fn index(&self, i: usize) -> (r: i32)
        requires
            i < 4,
        ensures
            r as int == self@[i as int],
    {
        if i == 0 {
            self.x
        } else if i == 1 {
            self.y
        } else if i == 2 {
            self.z
        } else {
            self.w
        }
    }

    /// Dot product, computed exactly.
    pub fn dot(&self, other: &Vec4) -> (r: i32)
        requires
            fits(dot(self@, other@)),
        ensures
            r as int == dot(self@, other@),
    {
        proof {
            reveal_with_fuel(dot_upto, 5);
            lemma_mul_bound(self.x as int, other.x as int);
            lemma_mul_bound(self.y as int, other.y as int);
            lemma_mul_bound(self.z as int, other.z as int);
            lemma_mul_bound(self.w as int, other.w as int);
        }
        let s: i128 = self.x as i128 * other.x as i128 + self.y as i128 * other.y as i128 + self.z as i128 * other.z as i128 + self.w as i128 * other.w as i128;
        s as i32
    }

    /// Componentwise sum.
    pub fn add_v(&self, other: &Vec4) -> (r: Vec4)
        requires
            fits_vec(add_vec(self@, other@)),
        ensures
            r@ == add_vec(self@, other@),
    {
        assert(fits(add_vec(self@, other@)[0]));
        assert(fits(add_vec(self@, other@)[1]));
        assert(fits(add_vec(self@, other@)[2]));
        assert(fits(add_vec(self@, other@)[3]));
        let r = Vec4 { x: self.x + other.x, y: self.y + other.y, z: self.z + other.z, w: self.w + other.w };
        assert(r@ =~= add_vec(self@, other@));
        r
    }

    /// Componentwise difference.
    pub fn sub_v(&self, other: &Vec4) -> (r: Vec4)
        requires
            fits_vec(sub_vec(self@, other@)),
        ensures
            r@ == sub_vec(self@, other@),
    {
        assert(fits(sub_vec(self@, other@)[0]));
        assert(fits(sub_vec(self@, other@)[1]));
        assert(fits(sub_vec(self@, other@)[2]));
        assert(fits(sub_vec(self@, other@)[3]));
        let r = Vec4 { x: self.x - other.x, y: self.y - other.y, z: self.z - other.z, w: self.w - other.w };
        assert(r@ =~= sub_vec(self@, other@));
        r
    }

    /// Every component multiplied by `value`.
    pub fn mul_t(&self, value: i32) -> (r: Vec4)
        requires
            fits_vec(scale_vec(self@, value as int)),
        ensures
            r@ == scale_vec(self@, value as int),
    {
        assert(fits(scale_vec(self@, value as int)[0]));
        assert(fits(scale_vec(self@, value as int)[1]));
        assert(fits(scale_vec(self@, value as int)[2]));
        assert(fits(scale_vec(self@, value as int)[3]));
        let r = Vec4 { x: self.x * value, y: self.y * value, z: self.z * value, w: self.w * value };
        assert(r@ =~= scale_vec(self@, value as int));
        r
    }

    /// Componentwise negation.
    pub fn neg(&self) -> (r: Vec4)
        requires
            fits_vec(neg_vec(self@)),
        ensures
            r@ == neg_vec(self@),
    {
        assert(fits(neg_vec(self@)[0]));
        assert(fits(neg_vec(self@)[1]));
        assert(fits(neg_vec(self@)[2]));
        assert(fits(neg_vec(self@)[3]));
        let r = Vec4 { x: -self.x, y: -self.y, z: -self.z, w: -self.w };
        assert(r@ =~= neg_vec(self@));
        r
    }

    /// Exact componentwise equality.
    pub fn exact_eq(&self, other: &Vec4) -> (r: bool)
        ensures
            r == (self@ == other@),
    {
        let r = self.x == other.x && self.y == other.y && self.z == other.z && self.w == other.w;
        assert(r ==> self@ =~= other@);
        assert(self@ == other@ ==> self@[0] == other@[0] && self@[1] == other@[1] && self@[2] == other@[2] && self@[3] == other@[3]);
        r
    }

    /// Componentwise equality up to the scalar tolerance.
    pub fn fuzzy_eq(&self, other: &Vec4) -> (r: bool)
        ensures
            r == approx_eq_vec(self@, other@),
    {
        let r = fuzzy_eq_scalar(self.x, other.x) && fuzzy_eq_scalar(self.y, other.y) && fuzzy_eq_scalar(self.z, other.z) && fuzzy_eq_scalar(self.w, other.w);
        assert(approx_eq_vec(self@, other@) ==> approx_eq(self@[0], other@[0]) && approx_eq(self@[1], other@[1]) && approx_eq(self@[2], other@[2]) && approx_eq(self@[3], other@[3]));
        r
    }
}

} // verus!
