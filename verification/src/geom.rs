//! Points, directions, normals and rays over fixed-point scalars.
//!
//! One component type serves for points, directions and surface normals; the
//! aliases keep the geometric role visible in signatures. All operations are
//! componentwise fixed-point arithmetic with exactly stated results.

use vstd::prelude::*;
use crate::fixed::{Fixed, fx_add, fx_sub, fx_neg, fx_abs, fx_mul};

verus! {

/// A triple of fixed-point scalars.
#[derive(Clone, Copy, PartialEq, Eq, Structural, Debug)]
pub struct Vec3 {
    pub x: Fixed,
    pub y: Fixed,
    pub z: Fixed,
}

/// A position in the scene.
pub type Point3 = Vec3;

/// A geometric or shading normal.
pub type Normal3 = Vec3;

/// A pair of fixed-point scalars, used for film and sampler coordinates.
#[derive(Clone, Copy, PartialEq, Eq, Structural, Debug)]
pub struct Point2 {
    pub x: Fixed,
    pub y: Fixed,
}

/// An integer raster coordinate.
#[derive(Clone, Copy, PartialEq, Eq, Structural, Debug)]
pub struct Point2i {
    pub x: i32,
    pub y: i32,
}

/// An integer raster rectangle.
#[derive(Clone, Copy, PartialEq, Eq, Structural, Debug)]
pub struct Bounds2i {
    pub p_min: Point2i,
    pub p_max: Point2i,
}

/// A ray: origin, direction, extent and time.
#[derive(Clone, Copy, PartialEq, Eq, Structural, Debug)]
pub struct Ray {
    pub o: Point3,
    pub d: Vec3,
    pub t_max: Fixed,
    pub time: Fixed,
}

/// A film, lens and time sample driving camera ray generation.
#[derive(Clone, Copy, PartialEq, Eq, Structural, Debug)]
pub struct CameraSample {
    pub p_film: Point2,
    pub p_lens: Point2,
    pub time: Fixed,
}

/// The zero triple.
pub open spec fn v3_zero() -> Vec3 {
    Vec3 { x: Fixed { v: 0 }, y: Fixed { v: 0 }, z: Fixed { v: 0 } }
}

/// Componentwise sum.
pub open spec fn spec_vadd(a: Vec3, b: Vec3) -> Vec3 {
    Vec3 {
        x: Fixed { v: fx_add(a.x.v, b.x.v) },
        y: Fixed { v: fx_add(a.y.v, b.y.v) },
        z: Fixed { v: fx_add(a.z.v, b.z.v) },
    }
}

/// Componentwise difference.
pub open spec fn spec_vsub(a: Vec3, b: Vec3) -> Vec3 {
    Vec3 {
        x: Fixed { v: fx_sub(a.x.v, b.x.v) },
        y: Fixed { v: fx_sub(a.y.v, b.y.v) },
        z: Fixed { v: fx_sub(a.z.v, b.z.v) },
    }
}

/// Componentwise negation.
pub open spec fn spec_vneg(a: Vec3) -> Vec3 {
    Vec3 {
        x: Fixed { v: fx_neg(a.x.v) },
        y: Fixed { v: fx_neg(a.y.v) },
        z: Fixed { v: fx_neg(a.z.v) },
    }
}

/// Componentwise absolute value.
pub open spec fn spec_vabs(a: Vec3) -> Vec3 {
    Vec3 {
        x: Fixed { v: fx_abs(a.x.v) },
        y: Fixed { v: fx_abs(a.y.v) },
        z: Fixed { v: fx_abs(a.z.v) },
    }
}

/// Componentwise scaling.
pub open spec fn spec_vscale(a: Vec3, s: Fixed) -> Vec3 {
    Vec3 {
        x: Fixed { v: fx_mul(a.x.v, s.v) },
        y: Fixed { v: fx_mul(a.y.v, s.v) },
        z: Fixed { v: fx_mul(a.z.v, s.v) },
    }
}

/// Inner product.
pub open spec fn spec_dot(a: Vec3, b: Vec3) -> i64 {
    fx_add(fx_add(fx_mul(a.x.v, b.x.v), fx_mul(a.y.v, b.y.v)), fx_mul(a.z.v, b.z.v))
}

/// Squared length.
pub open spec fn spec_len2(a: Vec3) -> i64 {
    spec_dot(a, a)
}

/// Absolute inner product, the unsigned cosine factor between a normal and a
/// unit direction.
pub open spec fn spec_abs_dot(a: Vec3, b: Vec3) -> i64 {
    fx_abs(spec_dot(a, b))
}

/// The origin offset used when spawning a ray from a point with an error
/// bound: step along the normal by the projected error, away from the side the
/// new direction leaves.
pub open spec fn spec_offset_origin(p: Point3, p_error: Vec3, n: Normal3, d: Vec3) -> Point3 {
    let dist = Fixed { v: spec_dot(spec_vabs(n), p_error) };
    let off = spec_vscale(n, dist);
    if spec_dot(d, n) < 0 {
        spec_vadd(p, spec_vneg(off))
    } else {
        spec_vadd(p, off)
    }
}

impl Vec3 {
    /// The zero triple.
    pub fn zero() -> (r: Vec3)
        ensures
            r == (Vec3 { x: Fixed { v: 0i64 }, y: Fixed { v: 0i64 }, z: Fixed { v: 0i64 } }),
    {
        Vec3 { x: Fixed { v: 0 }, y: Fixed { v: 0 }, z: Fixed { v: 0 } }
    }

    /// True iff all components are zero.
    pub fn is_zero(self) -> (r: bool)
        ensures
            r == (self.x.v == 0 && self.y.v == 0 && self.z.v == 0),
    {
        self.x.v == 0 && self.y.v == 0 && self.z.v == 0
    }

    /// Componentwise sum.
    pub fn vadd(self, o: Vec3) -> (r: Vec3)
        ensures
            r == spec_vadd(self, o),
    {
        Vec3 { x: self.x.add(o.x), y: self.y.add(o.y), z: self.z.add(o.z) }
    }

    /// Componentwise difference.
    pub fn vsub(self, o: Vec3) -> (r: Vec3)
        ensures
            r == spec_vsub(self, o),
    {
        Vec3 { x: self.x.sub(o.x), y: self.y.sub(o.y), z: self.z.sub(o.z) }
    }

    /// Componentwise negation.
    pub fn vneg(self) -> (r: Vec3)
        ensures
            r == spec_vneg(self),
    {
        Vec3 { x: self.x.neg(), y: self.y.neg(), z: self.z.neg() }
    }

    /// Componentwise absolute value.
    pub fn vabs(self) -> (r: Vec3)
        ensures
            r == spec_vabs(self),
    {
        Vec3 { x: self.x.abs(), y: self.y.abs(), z: self.z.abs() }
    }

    /// Componentwise scaling.
    pub fn vscale(self, s: Fixed) -> (r: Vec3)
        ensures
            r == spec_vscale(self, s),
    {
        Vec3 { x: self.x.mul(s), y: self.y.mul(s), z: self.z.mul(s) }
    }

    /// Inner product.
    pub fn dot(self, o: Vec3) -> (r: Fixed)
        ensures
            r.v == spec_dot(self, o),
    {
        self.x.mul(o.x).add(self.y.mul(o.y)).add(self.z.mul(o.z))
    }

    /// Squared length.
    pub fn length_squared(self) -> (r: Fixed)
        ensures
            r.v == spec_len2(self),
    {
        self.dot(self)
    }

    /// Absolute inner product.
    pub fn abs_dot(self, o: Vec3) -> (r: Fixed)
        ensures
            r.v == spec_abs_dot(self, o),
    {
        self.dot(o).abs()
    }
}

/// A squared length is never negative.
pub proof fn lemma_len2_nonneg(a: Vec3)
    ensures
        0 <= spec_len2(a),
{
    crate::fixed::lemma_fx_mul_self_nonneg(a.x.v);
    crate::fixed::lemma_fx_mul_self_nonneg(a.y.v);
    crate::fixed::lemma_fx_mul_self_nonneg(a.z.v);
}

/// Offset a spawned ray's origin along the normal, as
/// [`spec_offset_origin`] states.
pub fn offset_ray_origin(p: Point3, p_error: Vec3, n: Normal3, d: Vec3) -> (r: Point3)
    ensures
        r == spec_offset_origin(p, p_error, n, d),
{
    let dist = n.vabs().dot(p_error);
    let off = n.vscale(dist);
    if d.dot(n).v < 0 {
        p.vadd(off.vneg())
    } else {
        p.vadd(off)
    }
}

} // verus!
