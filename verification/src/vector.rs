//! 2D and 3D fixed-point vectors and their arithmetic.
//!
//! Executable vectors hold `i64` fixed-point components; their mathematical
//! models ([`V2`], [`V3`]) hold unbounded integers. Every executable
//! operation returns exactly the model value its spec-level counterpart
//! computes, so contracts upstream can be stated purely over the models.

use vstd::prelude::*;

use crate::fixed::{add_fp, div_fp, mul_fp, neg_fp, sqrt_fp, sub_fp};
use crate::fixed::{fp_add, fp_div, fp_mul, fp_neg, fp_sqrt, fp_sub};

verus! {

/// Mathematical model of a 2D fixed-point vector.
pub ghost struct V2 {
    pub x: int,
    pub y: int,
}

/// Mathematical model of a 3D fixed-point vector.
pub ghost struct V3 {
    pub x: int,
    pub y: int,
    pub z: int,
}

/// A 2D vector of fixed-point coordinates (a horizontal position).
#[derive(Clone, Copy, PartialEq, Eq, Structural, Debug)]
pub struct Vec2 {
    pub x: i64,
    pub y: i64,
}

/// A 3D vector of fixed-point coordinates (a position, velocity or force).
#[derive(Clone, Copy, PartialEq, Eq, Structural, Debug)]
pub struct Vec3 {
    pub x: i64,
    pub y: i64,
    pub z: i64,
}

impl View for Vec2 {
    type V = V2;

    open spec fn view(&self) -> V2 {
        V2 { x: self.x as int, y: self.y as int }
    }
}

impl View for Vec3 {
    type V = V3;

    open spec fn view(&self) -> V3 {
        V3 { x: self.x as int, y: self.y as int, z: self.z as int }
    }
}

/// Component-wise 2D sum.
pub open spec fn add2(a: V2, b: V2) -> V2 {
    V2 { x: add_fp(a.x, b.x), y: add_fp(a.y, b.y) }
}

/// Component-wise 2D difference.
pub open spec fn sub2(a: V2, b: V2) -> V2 {
    V2 { x: sub_fp(a.x, b.x), y: sub_fp(a.y, b.y) }
}

/// Squared length of a 2D vector.
pub open spec fn len_sq2(a: V2) -> int {
    add_fp(mul_fp(a.x, a.x), mul_fp(a.y, a.y))
}

/// Squared distance between two 2D points.
pub open spec fn dist_sq2(a: V2, b: V2) -> int {
    len_sq2(sub2(a, b))
}

/// The horizontal coordinates of a 3D model vector.
pub open spec fn xy3(a: V3) -> V2 {
    V2 { x: a.x, y: a.y }
}

/// Component-wise 3D sum.
pub open spec fn add3(a: V3, b: V3) -> V3 {
    V3 { x: add_fp(a.x, b.x), y: add_fp(a.y, b.y), z: add_fp(a.z, b.z) }
}

/// Component-wise 3D difference.
pub open spec fn sub3(a: V3, b: V3) -> V3 {
    V3 { x: sub_fp(a.x, b.x), y: sub_fp(a.y, b.y), z: sub_fp(a.z, b.z) }
}

/// Component-wise 3D negation.
pub open spec fn neg3(a: V3) -> V3 {
    V3 { x: neg_fp(a.x), y: neg_fp(a.y), z: neg_fp(a.z) }
}

/// A 3D vector scaled by a fixed-point factor.
pub open spec fn scale3(a: V3, k: int) -> V3 {
    V3 { x: mul_fp(a.x, k), y: mul_fp(a.y, k), z: mul_fp(a.z, k) }
}

/// 3D dot product.
pub open spec fn dot3(a: V3, b: V3) -> int {
    add_fp(add_fp(mul_fp(a.x, b.x), mul_fp(a.y, b.y)), mul_fp(a.z, b.z))
}

/// Squared length of a 3D vector.
pub open spec fn len_sq3(a: V3) -> int {
    dot3(a, a)
}

/// Length of a 3D vector.
pub open spec fn len3(a: V3) -> int {
    sqrt_fp(len_sq3(a))
}

/// The unit vector along `a`, or the zero vector when `a` has zero length.
pub open spec fn norm3(a: V3) -> V3 {
    let l = len3(a);
    if l == 0 {
        V3 { x: 0, y: 0, z: 0 }
    } else {
        V3 { x: div_fp(a.x, l), y: div_fp(a.y, l), z: div_fp(a.z, l) }
    }
}

/// The component of `f` along `axis`: `(f · axis / |axis|²) · axis`.
pub open spec fn project3(f: V3, axis: V3) -> V3 {
    scale3(axis, div_fp(dot3(f, axis), len_sq3(axis)))
}

impl Vec2 {
    /// Component-wise sum.
    pub fn plus(&self, o: &Vec2) -> (r: Vec2)
        ensures
            r@ == add2(self@, o@),
    {
        Vec2 { x: fp_add(self.x, o.x), y: fp_add(self.y, o.y) }
    }

    /// Component-wise difference.
    pub fn minus(&self, o: &Vec2) -> (r: Vec2)
        ensures
            r@ == sub2(self@, o@),
    {
        Vec2 { x: fp_sub(self.x, o.x), y: fp_sub(self.y, o.y) }
    }

    /// Squared length.
    pub fn length_squared(&self) -> (r: i64)
        ensures
            r as int == len_sq2(self@),
    {
        fp_add(fp_mul(self.x, self.x), fp_mul(self.y, self.y))
    }

    /// Squared distance to another point.
    pub fn distance_squared(&self, o: &Vec2) -> (r: i64)
        ensures
            r as int == dist_sq2(self@, o@),
    {
        self.minus(o).length_squared()
    }
}

impl Vec3 {
    /// The zero vector.
    pub fn zero() -> (r: Vec3)
        ensures
            r@ == (V3 { x: 0, y: 0, z: 0 }),
    {
        Vec3 { x: 0, y: 0, z: 0 }
    }

    /// The horizontal part of this vector.
    pub fn xy(&self) -> (r: Vec2)
        ensures
            r@ == (V2 { x: self@.x, y: self@.y }),
    {
        Vec2 { x: self.x, y: self.y }
    }

    /// Component-wise sum.
    pub fn plus(&self, o: &Vec3) -> (r: Vec3)
        ensures
            r@ == add3(self@, o@),
    {
        Vec3 { x: fp_add(self.x, o.x), y: fp_add(self.y, o.y), z: fp_add(self.z, o.z) }
    }

    /// Component-wise difference.
    pub fn minus(&self, o: &Vec3) -> (r: Vec3)
        ensures
            r@ == sub3(self@, o@),
    {
        Vec3 { x: fp_sub(self.x, o.x), y: fp_sub(self.y, o.y), z: fp_sub(self.z, o.z) }
    }

    /// Component-wise negation.
    pub fn negate(&self) -> (r: Vec3)
        ensures
            r@ == neg3(self@),
    {
        Vec3 { x: fp_neg(self.x), y: fp_neg(self.y), z: fp_neg(self.z) }
    }

    /// This vector scaled by a fixed-point factor.
    pub fn scaled(&self, k: i64) -> (r: Vec3)
        ensures
            r@ == scale3(self@, k as int),
    {
        Vec3 { x: fp_mul(self.x, k), y: fp_mul(self.y, k), z: fp_mul(self.z, k) }
    }

    /// Dot product.
    pub fn dot(&self, o: &Vec3) -> (r: i64)
        ensures
            r as int == dot3(self@, o@),
    {
        fp_add(fp_add(fp_mul(self.x, o.x), fp_mul(self.y, o.y)), fp_mul(self.z, o.z))
    }

    /// Squared length.
    pub fn length_squared(&self) -> (r: i64)
        ensures
            r as int == len_sq3(self@),
    {
        self.dot(self)
    }

    /// Length.
    pub fn length(&self) -> (r: i64)
        ensures
            r as int == len3(self@),
    {
        fp_sqrt(self.length_squared())
    }

    /// The unit vector pointing along this vector, or the zero vector when
    /// the length is zero; coincident points exert no pull by this policy.
    pub fn normalize_or_zero(&self) -> (r: Vec3)
        ensures
            r@ == norm3(self@),
    {
        let l = self.length();
        if l == 0 {
            Vec3 { x: 0, y: 0, z: 0 }
        } else {
            Vec3 { x: fp_div(self.x, l), y: fp_div(self.y, l), z: fp_div(self.z, l) }
        }
    }

    /// The component of this force along `axis`.
    pub fn project_onto(&self, axis: &Vec3) -> (r: Vec3)
        ensures
            r@ == project3(self@, axis@),
    {
        let s = fp_div(self.dot(axis), axis.length_squared());
        axis.scaled(s)
    }
}

} // verus!
