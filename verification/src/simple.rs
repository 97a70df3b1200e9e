//! Minimal deterministic collaborators.
//!
//! Each type here implements one of the external interfaces with the
//! simplest behaviour that honours its contract: a sample source that cycles
//! through a stored list, a scattering function with fixed lobes and a fixed
//! sample, an intersector that reports one constant hit or none, a camera
//! that maps the film plane straight to directions, and a light that emits a
//! stored sample. They are enough to drive the integrator end to end on an
//! analytic scene.

use vstd::prelude::*;
use crate::fixed::{Fixed, fx_max0};
use crate::geom::{Vec3, Point3, Normal3, Point2, Ray, CameraSample};
use crate::spectrum::{Spectrum, spec_clamp_nonneg};
use crate::interfaces::{
    Bsdf, BsdfSample, BxdfFlags, Camera, Intersector, LeSample, Light, LightFlags, SampleSource,
    SurfaceHit, TransportMode,
};

verus! {

/// A sample source that cycles through a stored list of values; an empty
/// list yields zero forever.
pub struct CycleSampler {
    pub values: Vec<Fixed>,
    pub next: usize,
}

impl SampleSource for CycleSampler {
    fn get_1d(&mut self) -> Fixed {
        if self.values.len() == 0 {
            return Fixed::zero();
        }
        let i = self.next % self.values.len();
        let v = self.values[i];
        self.next = if self.next == usize::MAX {
            0
        } else {
            self.next + 1
        };
        v
    }

    fn get_2d(&mut self) -> Point2 {
        let x = self.get_1d();
        let y = self.get_1d();
        Point2 { x, y }
    }
}

/// A scattering function described by lobe counts and one fixed sample: every
/// sampling query returns the stored sample (channels and density clamped
/// non-negative), and every density query returns the stored sample's
/// density, so sampling and evaluation agree by construction.
#[derive(Clone, Copy, PartialEq, Eq, Structural, Debug)]
pub struct LobeBsdf {
    pub diffuse_lobes: u32,
    pub glossy_lobes: u32,
    pub specular_lobes: u32,
    pub sample: BsdfSample,
}

impl LobeBsdf {
    /// The stored sample with its weight and density clamped non-negative.
    pub open spec fn spec_clean_sample(self) -> BsdfSample {
        BsdfSample {
            f: spec_clamp_nonneg(self.sample.f),
            wi: self.sample.wi,
            pdf: Fixed { v: fx_max0(self.sample.pdf.v) },
            specular: self.sample.specular,
        }
    }
}

impl Bsdf for LobeBsdf {
    open spec fn spec_num_components(&self, flags: BxdfFlags) -> u32 {
        let t = (if flags.diffuse {
            self.diffuse_lobes as int
        } else {
            0
        }) + (if flags.glossy {
            self.glossy_lobes as int
        } else {
            0
        }) + (if flags.specular {
            self.specular_lobes as int
        } else {
            0
        });
        if t > u32::MAX {
            u32::MAX
        } else {
            t as u32
        }
    }

    open spec fn spec_sample_f(&self, wo: Vec3, u: Point2) -> BsdfSample {
        self.spec_clean_sample()
    }

    open spec fn spec_pdf(&self, wo: Vec3, wi: Vec3) -> Fixed {
        Fixed { v: fx_max0(self.sample.pdf.v) }
    }

    fn num_components(&self, flags: BxdfFlags) -> (n: u32) {
        let t: u64 = (if flags.diffuse {
            self.diffuse_lobes as u64
        } else {
            0
        }) + (if flags.glossy {
            self.glossy_lobes as u64
        } else {
            0
        }) + (if flags.specular {
            self.specular_lobes as u64
        } else {
            0
        });
        if t > u32::MAX as u64 {
            u32::MAX
        } else {
            t as u32
        }
    }

    fn sample_f(&self, wo: &Vec3, u: Point2) -> (s: BsdfSample) {
        BsdfSample {
            f: self.sample.f.clamp_nonneg(),
            wi: self.sample.wi,
            pdf: self.sample.pdf.max0(),
            specular: self.sample.specular,
        }
    }

    fn pdf(&self, wo: &Vec3, wi: &Vec3) -> (p: Fixed) {
        self.sample.pdf.max0()
    }

    proof fn sample_density_agrees(&self, wo: Vec3, u: Point2) {
    }
}

/// An intersector that reports the same hit for every ray, or never hits.
pub struct ConstIntersector {
    pub hit: Option<SurfaceHit<LobeBsdf>>,
}

impl Intersector<LobeBsdf> for ConstIntersector {
    open spec fn spec_intersect(&self, ray: Ray, mode: TransportMode) -> Option<
        SurfaceHit<LobeBsdf>,
    > {
        self.hit
    }

    fn intersect(&self, ray: &Ray, mode: TransportMode) -> (h: Option<SurfaceHit<LobeBsdf>>) {
        self.hit
    }
}

/// A camera at a fixed origin that maps the film point straight to a
/// direction on the unit-depth plane, with a fixed response weight and fixed
/// ray densities.
pub struct PlaneCamera {
    pub o: Point3,
    pub weight: Fixed,
    pub pdf_pos: Fixed,
    pub pdf_dir: Fixed,
}

impl Camera for PlaneCamera {
    open spec fn spec_generate_ray(&self, s: CameraSample) -> (Ray, Fixed) {
        (
            Ray {
                o: self.o,
                d: Vec3 { x: s.p_film.x, y: s.p_film.y, z: Fixed { v: crate::fixed::FX_SCALE } },
                t_max: Fixed { v: i64::MAX },
                time: s.time,
            },
            Fixed { v: fx_max0(self.weight.v) },
        )
    }

    open spec fn spec_pdf_we(&self, ray: Ray) -> (Fixed, Fixed) {
        (Fixed { v: fx_max0(self.pdf_pos.v) }, Fixed { v: fx_max0(self.pdf_dir.v) })
    }

    fn generate_ray(&self, s: &CameraSample) -> (r: (Ray, Fixed)) {
        (
            Ray {
                o: self.o,
                d: Vec3 { x: s.p_film.x, y: s.p_film.y, z: Fixed::one() },
                t_max: Fixed::greatest(),
                time: s.time,
            },
            self.weight.max0(),
        )
    }

    fn pdf_we(&self, ray: &Ray) -> (p: (Fixed, Fixed)) {
        (self.pdf_pos.max0(), self.pdf_dir.max0())
    }
}

/// A light that emits one stored sample: every emission query returns the
/// stored exitance, ray frame and densities, and the stored exitance also
/// serves as its escaped-ray radiance.
pub struct SimpleLight {
    pub flags: LightFlags,
    pub emit: Spectrum,
    pub p: Point3,
    pub dir: Vec3,
    pub n: Normal3,
    pub pdf_pos: Fixed,
    pub pdf_dir: Fixed,
    pub pdf_li_val: Fixed,
}

impl Light for SimpleLight {
    open spec fn spec_flags(&self) -> LightFlags {
        self.flags
    }

    open spec fn spec_sample_le(&self, u1: Point2, u2: Point2, time: Fixed) -> LeSample {
        LeSample {
            le: spec_clamp_nonneg(self.emit),
            ray: Ray { o: self.p, d: self.dir, t_max: Fixed { v: i64::MAX }, time },
            n_light: self.n,
            pdf_pos: Fixed { v: fx_max0(self.pdf_pos.v) },
            pdf_dir: Fixed { v: fx_max0(self.pdf_dir.v) },
        }
    }

    open spec fn spec_pdf_li(&self, w: Vec3) -> Fixed {
        Fixed { v: fx_max0(self.pdf_li_val.v) }
    }

    open spec fn spec_le(&self, w: Vec3) -> Spectrum {
        spec_clamp_nonneg(self.emit)
    }

    fn flags(&self) -> (f: LightFlags) {
        self.flags
    }

    fn sample_le(&self, u1: Point2, u2: Point2, time: Fixed) -> (s: LeSample) {
        LeSample {
            le: self.emit.clamp_nonneg(),
            ray: Ray { o: self.p, d: self.dir, t_max: Fixed::greatest(), time },
            n_light: self.n,
            pdf_pos: self.pdf_pos.max0(),
            pdf_dir: self.pdf_dir.max0(),
        }
    }

    fn pdf_li(&self, w: &Vec3) -> (p: Fixed) {
        self.pdf_li_val.max0()
    }

    fn le(&self, w: &Vec3) -> (s: Spectrum) {
        self.emit.clamp_nonneg()
    }
}

} // verus!
