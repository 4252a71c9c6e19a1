//! Fixed-point bounding volumes and the view volumes they are tested against.
//!
//! Positions and plane coefficients are integers in a common fixed-point
//! scale, so that every visibility decision is exact and repeatable.

use vstd::prelude::*;

verus! {

/// A sphere that encloses one object, in world space.
#[derive(Clone, Copy, Debug, PartialEq, Eq, Structural)]
pub struct BoundingSphere {
    pub x: i32,
    pub y: i32,
    pub z: i32,
    pub radius: u32,
}

/// The half-space `a*x + b*y + c*z + d >= 0`. The normal `(a, b, c)` need not
/// have unit length.
#[derive(Clone, Copy, Debug, PartialEq, Eq, Structural)]
pub struct Plane {
    pub a: i32,
    pub b: i32,
    pub c: i32,
    pub d: i64,
}

impl Plane {
    /// Signed distance of the sphere's centre from the plane, scaled by the
    /// length of the normal.
    pub open spec fn scaled_distance(self, s: BoundingSphere) -> int {
        self.a * s.x + self.b * s.y + self.c * s.z + self.d
    }

    /// Squared length of the normal.
    pub open spec fn normal_sq(self) -> int {
        self.a * self.a + self.b * self.b + self.c * self.c
    }

    /// The sphere has at least one point in the half-space: its centre lies
    /// inside, or no further outside than its radius.
    pub open spec fn spec_admits(self, s: BoundingSphere) -> bool {
        let dist = self.scaled_distance(s);
        dist >= 0 || dist * dist <= (s.radius * s.radius) * self.normal_sq()
    }

    /// Tests whether the sphere reaches into the half-space.
    pub fn admits(&self, s: &BoundingSphere) -> (r: bool)
        ensures
            r == self.spec_admits(*s),
    {
        let a: i128 = self.a as i128;
        let b: i128 = self.b as i128;
        let c: i128 = self.c as i128;
        let x: i128 = s.x as i128;
        let y: i128 = s.y as i128;
        let z: i128 = s.z as i128;
        proof {
            lemma_product_bound(a as int, x as int);
            lemma_product_bound(b as int, y as int);
            lemma_product_bound(c as int, z as int);
            lemma_product_bound(a as int, a as int);
            lemma_product_bound(b as int, b as int);
            lemma_product_bound(c as int, c as int);
        }
        let dist: i128 = a * x + b * y + c * z + (self.d as i128);
        if dist >= 0 {
            return true;
        }
        let away: u128 = (-dist) as u128;
        let r: u128 = s.radius as u128;
        assert(r * r <= 0xffff_ffff * 0xffff_ffff) by (nonlinear_arith)
            requires
                0 <= r <= 0xffff_ffff,
        ;
        let r_sq: u128 = r * r;
        let n_sq: u128 = (a * a + b * b + c * c) as u128;
        assert(r_sq * n_sq <= 0xffff_fffe_0000_0001 * 0xc000_0000_0000_0000) by (nonlinear_arith)
            requires
                0 <= r_sq <= 0xffff_fffe_0000_0001,
                0 <= n_sq <= 0xc000_0000_0000_0000,
        ;
        let reach: u128 = r_sq * n_sq;
        if away >= 0x1_0000_0000_0000_0000 {
            assert(away * away >= 0x1_0000_0000_0000_0000 * 0x1_0000_0000_0000_0000)
                by (nonlinear_arith)
                requires
                    away >= 0x1_0000_0000_0000_0000,
            ;
            assert(dist * dist == away * away) by (nonlinear_arith)
                requires
                    away == -dist,
            ;
            return false;
        }
        assert(away * away <= 0xffff_ffff_ffff_ffff * 0xffff_ffff_ffff_ffff) by (nonlinear_arith)
            requires
                0 <= away <= 0xffff_ffff_ffff_ffff,
        ;
        assert(dist * dist == away * away) by (nonlinear_arith)
            requires
                away == -dist,
        ;
        away * away <= reach
    }
}

/// The product of two 32-bit signed values stays within 62 bits, and a square
/// is never negative.
proof fn lemma_product_bound(p: int, q: int)
    requires
        -0x8000_0000 <= p <= 0x7fff_ffff,
        -0x8000_0000 <= q <= 0x7fff_ffff,
    ensures
        -0x4000_0000_0000_0000 <= p * q <= 0x4000_0000_0000_0000,
        p == q ==> p * q >= 0,
{
    assert(-0x4000_0000_0000_0000 <= p * q <= 0x4000_0000_0000_0000) by (nonlinear_arith)
        requires
            -0x8000_0000 <= p <= 0x7fff_ffff,
            -0x8000_0000 <= q <= 0x7fff_ffff,
    ;
    assert(p == q ==> p * q >= 0) by (nonlinear_arith);
}

/// A convex view volume: the intersection of its planes' half-spaces. Both a
/// camera and a shadow-casting light see through one.
#[derive(Clone, Debug)]
pub struct Frustum {
    pub planes: Vec<Plane>,
}

impl Frustum {
    /// The sphere reaches into every half-space of the volume.
    pub open spec fn spec_contains_sphere(self, s: BoundingSphere) -> bool {
        forall|i: int| 0 <= i < self.planes@.len() ==> (#[trigger] self.planes@[i]).spec_admits(s)
    }

    /// Tests the sphere against each plane in turn.
    pub fn contains_sphere(&self, s: &BoundingSphere) -> (r: bool)
        ensures
            r == self.spec_contains_sphere(*s),
    {
        let mut i: usize = 0;
        while i < self.planes.len()
            invariant
                i <= self.planes@.len(),
                forall|j: int| 0 <= j < i ==> (#[trigger] self.planes@[j]).spec_admits(*s),
            decreases self.planes@.len() - i,
        {
            if !self.planes[i].admits(s) {
                return false;
            }
            i += 1;
        }
        true
    }
}

} // verus!
