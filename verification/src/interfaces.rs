//! Contracts of the external collaborators.
//!
//! Scene intersection, camera response, light emission sampling, surface
//! scattering and the pseudo-random sample source are consumed through the
//! traits here and never reimplemented. Each deterministic query carries a
//! specification twin, so that the integrator's own contracts can speak about
//! what a collaborator answered; a sample source is stateful and promises
//! nothing about its stream. Implementations must keep physical densities and
//! weights non-negative, which is what the throughput invariant rests on.

use vstd::prelude::*;
use crate::fixed::Fixed;
use crate::geom::{Vec3, Point3, Normal3, Point2, Ray, CameraSample};
use crate::spectrum::{Spectrum, spec_is_nonneg};

verus! {

/// The direction a random walk carries its quantity: radiance spreads from
/// lights toward the camera, importance from the camera toward lights.
#[derive(Clone, Copy, PartialEq, Eq, Structural, Debug)]
pub enum TransportMode {
    Radiance,
    Importance,
}

/// Capability flags of a light source.
#[derive(Clone, Copy, PartialEq, Eq, Structural, Debug)]
pub struct LightFlags {
    /// Emission from a single point.
    pub delta_position: bool,
    /// Emission along a single direction.
    pub delta_direction: bool,
    /// Emission from a surface of finite area.
    pub area: bool,
    /// Emission from infinitely far away.
    pub infinite: bool,
}

/// Lobe classification mask for a scattering function.
#[derive(Clone, Copy, PartialEq, Eq, Structural, Debug)]
pub struct BxdfFlags {
    pub diffuse: bool,
    pub glossy: bool,
    pub specular: bool,
    pub reflection: bool,
    pub transmission: bool,
}

/// Every lobe kind.
pub open spec fn spec_all_lobes() -> BxdfFlags {
    BxdfFlags { diffuse: true, glossy: true, specular: true, reflection: true, transmission: true }
}

/// The non-specular lobe kinds: what a stochastic connection can evaluate.
pub open spec fn spec_non_specular_lobes() -> BxdfFlags {
    BxdfFlags { diffuse: true, glossy: true, specular: false, reflection: true, transmission: true }
}

impl BxdfFlags {
    /// Every lobe kind.
    pub fn all() -> (f: BxdfFlags)
        ensures
            f == spec_all_lobes(),
    {
        BxdfFlags {
            diffuse: true,
            glossy: true,
            specular: true,
            reflection: true,
            transmission: true,
        }
    }

    /// The non-specular lobe kinds.
    pub fn non_specular() -> (f: BxdfFlags)
        ensures
            f == spec_non_specular_lobes(),
    {
        BxdfFlags {
            diffuse: true,
            glossy: true,
            specular: false,
            reflection: true,
            transmission: true,
        }
    }
}

/// One emission sample drawn from a light: the seeded ray, the emitting
/// normal, the positional and directional sampling densities, and the
/// radiant exitance.
#[derive(Clone, Copy, PartialEq, Eq, Structural, Debug)]
pub struct LeSample {
    pub le: Spectrum,
    pub ray: Ray,
    pub n_light: Normal3,
    pub pdf_pos: Fixed,
    pub pdf_dir: Fixed,
}

/// One scattering sample drawn from a surface: the incoming direction, the
/// scattered weight, its sampling density, and whether a specular (Dirac)
/// lobe produced it.
#[derive(Clone, Copy, PartialEq, Eq, Structural, Debug)]
pub struct BsdfSample {
    pub f: Spectrum,
    pub wi: Vec3,
    pub pdf: Fixed,
    pub specular: bool,
}

/// A surface scattering function attached to an intersection.
pub trait Bsdf: Sized {
    /// How many lobes match the given mask.
    spec fn spec_num_components(&self, flags: BxdfFlags) -> u32;

    /// The sample drawn for an outgoing direction and a 2-D random value.
    spec fn spec_sample_f(&self, wo: Vec3, u: Point2) -> BsdfSample;

    /// The sampling density this function assigns to scattering from `wo`
    /// into `wi`.
    spec fn spec_pdf(&self, wo: Vec3, wi: Vec3) -> Fixed;

    /// Count the lobes matching a mask.
    fn num_components(&self, flags: BxdfFlags) -> (n: u32)
        ensures
            n == self.spec_num_components(flags),
    ;

    /// Sample an incoming direction for the outgoing direction `wo`.
    fn sample_f(&self, wo: &Vec3, u: Point2) -> (s: BsdfSample)
        ensures
            s == self.spec_sample_f(*wo, u),
            s.pdf.v >= 0,
            spec_is_nonneg(s.f),
    ;

    /// Evaluate the scattering density for a fixed direction pair.
    fn pdf(&self, wo: &Vec3, wi: &Vec3) -> (p: Fixed)
        ensures
            p == self.spec_pdf(*wo, *wi),
            p.v >= 0,
    ;

    /// A non-specular sample's density agrees with the density evaluated on
    /// the same direction pair: forward densities obtained through sampling
    /// and through evaluation are the same quantity.
    proof fn sample_density_agrees(&self, wo: Vec3, u: Point2)
        ensures
            !self.spec_sample_f(wo, u).specular ==> self.spec_pdf(
                wo,
                self.spec_sample_f(wo, u).wi,
            ) == self.spec_sample_f(wo, u).pdf,
    ;
}

/// A surface intersection with its local shading frame and, when the boundary
/// scatters at all, its scattering function. A missing scattering function
/// marks a transparent medium boundary that a walk passes through.
#[derive(Clone, Copy, PartialEq, Eq, Structural, Debug)]
pub struct SurfaceHit<B> {
    pub p: Point3,
    pub time: Fixed,
    pub p_error: Vec3,
    pub wo: Vec3,
    pub n: Normal3,
    pub shading_n: Normal3,
    pub bsdf: Option<B>,
}

impl<B> SurfaceHit<B> {
    /// Spawn a continuation ray leaving this intersection along `d`.
    pub fn spawn_ray(&self, d: &Vec3) -> (r: Ray)
        ensures
            r.o == crate::geom::spec_offset_origin(self.p, self.p_error, self.n, *d),
            r.d == *d,
            r.time == self.time,
            r.t_max.v == i64::MAX,
    {
        Ray {
            o: crate::geom::offset_ray_origin(self.p, self.p_error, self.n, *d),
            d: *d,
            t_max: Fixed::greatest(),
            time: self.time,
        }
    }
}

/// The scene's geometry: a deterministic intersection query that also
/// resolves the local scattering behaviour for the given transport mode.
pub trait Intersector<B>: Sized {
    /// The intersection the scene reports for a ray, if any.
    spec fn spec_intersect(&self, ray: Ray, mode: TransportMode) -> Option<SurfaceHit<B>>;

    /// Intersect a ray against the scene.
    fn intersect(&self, ray: &Ray, mode: TransportMode) -> (h: Option<SurfaceHit<B>>)
        ensures
            h == self.spec_intersect(*ray, mode),
    ;
}

/// A light source.
pub trait Light: Sized {
    /// The light's capability flags.
    spec fn spec_flags(&self) -> LightFlags;

    /// The emission sample for the given random values and time.
    spec fn spec_sample_le(&self, u1: Point2, u2: Point2, time: Fixed) -> LeSample;

    /// The directional density with which this light's emission sampling
    /// would produce the direction `w` toward the reference region.
    spec fn spec_pdf_li(&self, w: Vec3) -> Fixed;

    /// The radiance this light emits along escaped rays travelling in
    /// direction `w`; meaningful for infinite lights.
    spec fn spec_le(&self, w: Vec3) -> Spectrum;

    /// Read the capability flags.
    fn flags(&self) -> (f: LightFlags)
        ensures
            f == self.spec_flags(),
    ;

    /// Draw an emission sample.
    fn sample_le(&self, u1: Point2, u2: Point2, time: Fixed) -> (s: LeSample)
        ensures
            s == self.spec_sample_le(u1, u2, time),
            s.pdf_pos.v >= 0,
            s.pdf_dir.v >= 0,
            spec_is_nonneg(s.le),
    ;

    /// Evaluate the incident-direction density.
    fn pdf_li(&self, w: &Vec3) -> (p: Fixed)
        ensures
            p == self.spec_pdf_li(*w),
            p.v >= 0,
    ;

    /// Evaluate escaped-ray radiance.
    fn le(&self, w: &Vec3) -> (s: Spectrum)
        ensures
            s == self.spec_le(*w),
            spec_is_nonneg(s),
    ;
}

/// The camera model.
pub trait Camera: Sized {
    /// The ray and response weight generated for a camera sample.
    spec fn spec_generate_ray(&self, s: CameraSample) -> (Ray, Fixed);

    /// The positional and directional densities of generating a ray.
    spec fn spec_pdf_we(&self, ray: Ray) -> (Fixed, Fixed);

    /// Generate the primary ray for a film, lens and time sample.
    fn generate_ray(&self, s: &CameraSample) -> (r: (Ray, Fixed))
        ensures
            r == self.spec_generate_ray(*s),
            r.1.v >= 0,
    ;

    /// The densities with which this camera samples the given ray.
    fn pdf_we(&self, ray: &Ray) -> (p: (Fixed, Fixed))
        ensures
            p == self.spec_pdf_we(*ray),
            p.0.v >= 0,
            p.1.v >= 0,
    ;
}

/// An exclusive, stateful pseudo-random sample source. Nothing is promised
/// about the values it produces; every contract in this crate holds for
/// whatever stream an implementation yields.
pub trait SampleSource: Sized {
    /// Draw the next 1-D sample value.
    fn get_1d(&mut self) -> Fixed;

    /// Draw the next 2-D sample value.
    fn get_2d(&mut self) -> Point2;
}

/// A scene: intersectable geometry, its lights, and which of the lights are
/// infinite, as indices into the light list.
pub struct Scene<I, L> {
    pub aggregate: I,
    pub lights: Vec<L>,
    pub infinite_lights: Vec<usize>,
}

impl<I, L> Scene<I, L> {
    /// Every recorded infinite-light index denotes a light.
    pub open spec fn wf(&self) -> bool {
        forall|k: int|
            0 <= k < self.infinite_lights@.len() ==> #[trigger] self.infinite_lights@[k]
                < self.lights@.len()
    }
}

} // verus!
