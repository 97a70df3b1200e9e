//! Subpath vertices.
//!
//! One vertex records one sensing, emission or scattering event, together with
//! the throughput accumulated up to it and its forward and reverse sampling
//! densities in area measure. Every accessor is total over the closed set of
//! variants, defaulting to zero for variants that lack the field, so the
//! capability checks can never reach an unhandled case.

use vstd::prelude::*;
use crate::fixed::{Fixed, FX_SCALE, fx_mul, fx_div, fx_sqrt};
use crate::geom::{
    Vec3, Point3, Normal3, Ray, v3_zero, spec_vsub, spec_vscale, spec_len2, spec_abs_dot,
    spec_offset_origin,
};
use crate::spectrum::Spectrum;
use crate::interfaces::{Bsdf, LightFlags, SurfaceHit, spec_non_specular_lobes};

verus! {

/// The endpoint record of a camera or light vertex: the sensing or emitting
/// point, its constraint normal, and for lights their capability flags. An
/// escape vertex, standing for a ray that left the scene, carries no flags.
#[derive(Clone, Copy, PartialEq, Eq, Structural, Debug)]
pub struct EndpointInteraction {
    pub p: Point3,
    pub time: Fixed,
    pub p_error: Vec3,
    pub wo: Vec3,
    pub n: Normal3,
    pub light: Option<LightFlags>,
}

impl EndpointInteraction {
    /// An endpoint at a bare position and time.
    pub fn new(p: &Point3, time: Fixed) -> (r: EndpointInteraction)
        ensures
            r == (EndpointInteraction {
                p: *p,
                time,
                p_error: v3_zero(),
                wo: v3_zero(),
                n: v3_zero(),
                light: None::<LightFlags>,
            }),
    {
        EndpointInteraction {
            p: *p,
            time,
            p_error: Vec3::zero(),
            wo: Vec3::zero(),
            n: Vec3::zero(),
            light: None,
        }
    }

    /// The endpoint of a camera-generated ray.
    pub fn new_camera(ray: &Ray) -> (r: EndpointInteraction)
        ensures
            r == EndpointInteraction::new_spec(ray.o, ray.time),
    {
        EndpointInteraction::new(&ray.o, ray.time)
    }

    /// The endpoint of a light emission sample, with the light's flags and
    /// its emitting normal.
    pub fn new_light(flags: LightFlags, ray: &Ray, nl: &Normal3) -> (r: EndpointInteraction)
        ensures
            r == (EndpointInteraction {
                n: *nl,
                light: Some(flags),
                ..EndpointInteraction::new_spec(ray.o, ray.time)
            }),
    {
        let mut ei = EndpointInteraction::new(&ray.o, ray.time);
        ei.light = Some(flags);
        ei.n = *nl;
        ei
    }

    /// The endpoint of a ray that escaped the scene; its normal faces back
    /// along the ray.
    pub fn new_ray(ray: &Ray) -> (r: EndpointInteraction)
        ensures
            r == (EndpointInteraction {
                n: crate::geom::spec_vneg(ray.d),
                ..EndpointInteraction::new_spec(ray.o, ray.time)
            }),
    {
        let mut ei = EndpointInteraction::new(&ray.o, ray.time);
        ei.n = ray.d.vneg();
        ei
    }

    /// The value [`EndpointInteraction::new`] constructs.
    pub open spec fn new_spec(p: Point3, time: Fixed) -> EndpointInteraction {
        EndpointInteraction {
            p,
            time,
            p_error: v3_zero(),
            wo: v3_zero(),
            n: v3_zero(),
            light: None,
        }
    }

    /// True iff the endpoint has a non-degenerate normal.
    pub fn is_surface_interaction(&self) -> (r: bool)
        ensures
            r == (self.n != v3_zero()),
    {
        !self.n.is_zero()
    }

    /// The complement of [`Self::is_surface_interaction`].
    pub fn is_medium_interaction(&self) -> (r: bool)
        ensures
            r == (self.n == v3_zero()),
    {
        self.n.is_zero()
    }

    /// Spawn a ray leaving this endpoint along `d`.
    pub fn spawn_ray(&self, d: &Vec3) -> (r: Ray)
        ensures
            r.o == spec_offset_origin(self.p, self.p_error, self.n, *d),
            r.d == *d,
            r.time == self.time,
            r.t_max.v == i64::MAX,
    {
        Ray {
            o: crate::geom::offset_ray_origin(self.p, self.p_error, self.n, *d),
            d: *d,
            t_max: Fixed::greatest(),
            time: self.time,
        }
    }

    /// The endpoint's position.
    pub fn get_p(&self) -> (r: Point3)
        ensures
            r == self.p,
    {
        self.p
    }

    /// The endpoint's time.
    pub fn get_time(&self) -> (r: Fixed)
        ensures
            r == self.time,
    {
        self.time
    }

    /// The endpoint's position error bound.
    pub fn get_p_error(&self) -> (r: Vec3)
        ensures
            r == self.p_error,
    {
        self.p_error
    }

    /// The endpoint's outgoing direction.
    pub fn get_wo(&self) -> (r: Vec3)
        ensures
            r == self.wo,
    {
        self.wo
    }

    /// The endpoint's normal.
    pub fn get_n(&self) -> (r: Normal3)
        ensures
            r == self.n,
    {
        self.n
    }
}

/// The closed set of vertex variants.
#[derive(Clone, Copy, PartialEq, Eq, Structural, Debug)]
pub enum VertexType {
    Camera,
    Light,
    Surface,
    Medium,
}

/// One event along a subpath.
#[derive(Clone, Copy, PartialEq, Eq, Structural, Debug)]
pub struct Vertex<B> {
    pub vertex_type: VertexType,
    pub beta: Spectrum,
    pub ei: Option<EndpointInteraction>,
    pub si: Option<SurfaceHit<B>>,
    pub delta: bool,
    pub pdf_fwd: Fixed,
    pub pdf_rev: Fixed,
}

impl<B> Vertex<B> {
    /// The vertex's position; zero for variants without one.
    pub open spec fn spec_p(self) -> Point3 {
        match self.vertex_type {
            VertexType::Medium => v3_zero(),
            VertexType::Surface => match self.si {
                Some(si) => si.p,
                None => v3_zero(),
            },
            _ => match self.ei {
                Some(ei) => ei.p,
                None => v3_zero(),
            },
        }
    }

    /// The vertex's time; zero for variants without one.
    pub open spec fn spec_time(self) -> Fixed {
        match self.vertex_type {
            VertexType::Medium => Fixed { v: 0 },
            VertexType::Surface => match self.si {
                Some(si) => si.time,
                None => Fixed { v: 0 },
            },
            _ => match self.ei {
                Some(ei) => ei.time,
                None => Fixed { v: 0 },
            },
        }
    }

    /// The vertex's geometric normal; zero for variants without one.
    pub open spec fn spec_ng(self) -> Normal3 {
        match self.vertex_type {
            VertexType::Medium => v3_zero(),
            VertexType::Surface => match self.si {
                Some(si) => si.n,
                None => v3_zero(),
            },
            _ => match self.ei {
                Some(ei) => ei.n,
                None => v3_zero(),
            },
        }
    }

    /// The vertex lies on a surface iff its geometric normal is
    /// non-degenerate.
    pub open spec fn spec_is_on_surface(self) -> bool {
        self.spec_ng() != v3_zero()
    }

    /// The vertex stands for an infinite light: a light endpoint whose
    /// light is flagged infinite or delta-direction.
    pub open spec fn spec_is_infinite_light(self) -> bool {
        &&& self.vertex_type == VertexType::Light
        &&& match self.ei {
            Some(ei) => match ei.light {
                Some(flags) => flags.infinite || flags.delta_direction,
                None => false,
            },
            None => false,
        }
    }

    /// The solid-angle-to-area conversion of a density at `self` toward
    /// `next`: unchanged for infinite lights, zero for coincident points,
    /// otherwise scaled by the inverse squared distance and, on surfaces, by
    /// the unsigned cosine at `next`.
    #[verifier::opaque]
    pub open spec fn spec_convert_density(self, pdf: Fixed, next: Vertex<B>) -> Fixed {
        if next.spec_is_infinite_light() {
            pdf
        } else {
            let w = spec_vsub(next.spec_p(), self.spec_p());
            let d2 = spec_len2(w);
            if d2 == 0 {
                Fixed { v: 0 }
            } else {
                let inv2 = Fixed { v: fx_div(FX_SCALE, d2) };
                let scaled = if next.spec_is_on_surface() {
                    Fixed {
                        v: fx_mul(
                            pdf.v,
                            spec_abs_dot(
                                next.spec_ng(),
                                spec_vscale(w, Fixed { v: fx_sqrt(inv2.v) }),
                            ),
                        ),
                    }
                } else {
                    pdf
                };
                Fixed { v: fx_mul(scaled.v, inv2.v) }
            }
        }
    }

    /// The surface vertex built from an intersection, before density
    /// conversion.
    pub open spec fn spec_surface_vertex(
        si: SurfaceHit<B>,
        beta: Spectrum,
        pdf_fwd: Fixed,
    ) -> Vertex<B> {
        Vertex {
            vertex_type: VertexType::Surface,
            beta,
            ei: None,
            si: Some(si),
            delta: false,
            pdf_fwd,
            pdf_rev: Fixed { v: 0 },
        }
    }

    /// The camera endpoint vertex seeding a camera subpath from `ray` with
    /// response weight `beta`.
    pub open spec fn spec_camera_vertex(ray: Ray, beta: Spectrum) -> Vertex<B> {
        Vertex {
            vertex_type: VertexType::Camera,
            beta,
            ei: Some(EndpointInteraction::new_spec(ray.o, ray.time)),
            si: None,
            delta: false,
            pdf_fwd: Fixed { v: 0 },
            pdf_rev: Fixed { v: 0 },
        }
    }

    /// The light endpoint vertex seeding a light subpath.
    pub open spec fn spec_light_vertex(
        flags: LightFlags,
        ray: Ray,
        nl: Normal3,
        le: Spectrum,
        pdf: Fixed,
    ) -> Vertex<B> {
        Vertex {
            vertex_type: VertexType::Light,
            beta: le,
            ei: Some(
                EndpointInteraction {
                    n: nl,
                    light: Some(flags),
                    ..EndpointInteraction::new_spec(ray.o, ray.time)
                },
            ),
            si: None,
            delta: false,
            pdf_fwd: pdf,
            pdf_rev: Fixed { v: 0 },
        }
    }

    /// An endpoint vertex of the given variant.
    pub fn new(vertex_type: VertexType, ei: EndpointInteraction, beta: &Spectrum) -> (r: Vertex<B>)
        ensures
            r == (Vertex {
                vertex_type,
                beta: *beta,
                ei: Some(ei),
                si: None::<SurfaceHit<B>>,
                delta: false,
                pdf_fwd: Fixed { v: 0 },
                pdf_rev: Fixed { v: 0 },
            }),
    {
        Vertex {
            vertex_type,
            beta: *beta,
            ei: Some(ei),
            si: None,
            delta: false,
            pdf_fwd: Fixed { v: 0 },
            pdf_rev: Fixed { v: 0 },
        }
    }

    /// The camera endpoint seeding a camera subpath.
    pub fn create_camera(ray: &Ray, beta: &Spectrum) -> (r: Vertex<B>)
        ensures
            r == Vertex::<B>::spec_camera_vertex(*ray, *beta),
    {
        Vertex::new(VertexType::Camera, EndpointInteraction::new_camera(ray), beta)
    }

    /// A scattering vertex at a surface intersection. Its forward density is
    /// the incoming solid-angle density `pdf` converted to area measure at
    /// this vertex, relative to the previous vertex of the walk.
    pub fn create_surface_interaction(
        si: SurfaceHit<B>,
        beta: &Spectrum,
        pdf: Fixed,
        prev: &Vertex<B>,
    ) -> (r: Vertex<B>)
        ensures
            r == Vertex::<B>::spec_surface_vertex(
                si,
                *beta,
                prev.spec_convert_density(pdf, Vertex::<B>::spec_surface_vertex(si, *beta, Fixed { v: 0 })),
            ),
    {
        let mut v = Vertex {
            vertex_type: VertexType::Surface,
            beta: *beta,
            ei: None,
            si: Some(si),
            delta: false,
            pdf_fwd: Fixed { v: 0 },
            pdf_rev: Fixed { v: 0 },
        };
        let converted = prev.convert_density(pdf, &v);
        v.pdf_fwd = converted;
        v
    }

    /// A light endpoint synthesised for a ray that escaped the scene, or hit
    /// an emitter the walk accounts for separately; its forward density is
    /// taken as given.
    pub fn create_light_interaction(
        ei: EndpointInteraction,
        beta: &Spectrum,
        pdf: Fixed,
    ) -> (r: Vertex<B>)
        ensures
            r == (Vertex {
                vertex_type: VertexType::Light,
                beta: *beta,
                ei: Some(ei),
                si: None::<SurfaceHit<B>>,
                delta: false,
                pdf_fwd: pdf,
                pdf_rev: Fixed { v: 0 },
            }),
    {
        let mut v = Vertex::new(VertexType::Light, ei, beta);
        v.pdf_fwd = pdf;
        v
    }

    /// The light endpoint seeding a light subpath: the emitted weight and the
    /// positional density already scaled by the light-selection probability.
    pub fn create_light(
        flags: LightFlags,
        ray: &Ray,
        nl: &Normal3,
        le: &Spectrum,
        pdf: Fixed,
    ) -> (r: Vertex<B>)
        ensures
            r == Vertex::<B>::spec_light_vertex(flags, *ray, *nl, *le, pdf),
    {
        let mut v = Vertex::new(VertexType::Light, EndpointInteraction::new_light(flags, ray, nl), le);
        v.pdf_fwd = pdf;
        v
    }

    /// The vertex's position.
    pub fn p(&self) -> (r: Point3)
        ensures
            r == self.spec_p(),
    {
        match self.vertex_type {
            VertexType::Medium => Vec3::zero(),
            VertexType::Surface => match &self.si {
                Some(si) => si.p,
                None => Vec3::zero(),
            },
            _ => match &self.ei {
                Some(ei) => ei.p,
                None => Vec3::zero(),
            },
        }
    }

    /// The vertex's time.
    pub fn time(&self) -> (r: Fixed)
        ensures
            r == self.spec_time(),
    {
        match self.vertex_type {
            VertexType::Medium => Fixed::zero(),
            VertexType::Surface => match &self.si {
                Some(si) => si.time,
                None => Fixed::zero(),
            },
            _ => match &self.ei {
                Some(ei) => ei.time,
                None => Fixed::zero(),
            },
        }
    }

    /// The vertex's geometric normal.
    pub fn ng(&self) -> (r: Normal3)
        ensures
            r == self.spec_ng(),
    {
        match self.vertex_type {
            VertexType::Medium => Vec3::zero(),
            VertexType::Surface => match &self.si {
                Some(si) => si.n,
                None => Vec3::zero(),
            },
            _ => match &self.ei {
                Some(ei) => ei.n,
                None => Vec3::zero(),
            },
        }
    }

    /// True iff the vertex lies on a surface.
    pub fn is_on_surface(&self) -> (r: bool)
        ensures
            r == self.spec_is_on_surface(),
    {
        !self.ng().is_zero()
    }

    /// True iff the vertex stands for an infinite light.
    pub fn is_infinite_light(&self) -> (r: bool)
        ensures
            r == self.spec_is_infinite_light(),
    {
        match self.vertex_type {
            VertexType::Light => match &self.ei {
                Some(ei) => match &ei.light {
                    Some(flags) => flags.infinite || flags.delta_direction,
                    None => false,
                },
                None => false,
            },
            _ => false,
        }
    }

    /// Convert a solid-angle density at this vertex, toward `next`, into an
    /// area density at `next`.
    pub fn convert_density(&self, pdf: Fixed, next: &Vertex<B>) -> (r: Fixed)
        ensures
            r == self.spec_convert_density(pdf, *next),
            next.spec_is_infinite_light() ==> r == pdf,
            !next.spec_is_infinite_light() && spec_len2(spec_vsub(next.spec_p(), self.spec_p()))
                == 0 ==> r.v == 0,
            pdf.v >= 0 ==> r.v >= 0,
    {
        proof {
            reveal(Vertex::spec_convert_density);
            if pdf.v >= 0 {
                lemma_convert_density_nonneg(*self, pdf, *next);
            }
        }
        if next.is_infinite_light() {
            return pdf;
        }
        let w = next.p().vsub(self.p());
        let d2 = w.length_squared();
        if d2.v == 0 {
            return Fixed::zero();
        }
        let inv2 = Fixed::one().div(d2);
        let mut out = pdf;
        if next.is_on_surface() {
            out = out.mul(next.ng().abs_dot(w.vscale(inv2.sqrt())));
        }
        out.mul(inv2)
    }
}

/// A non-negative solid-angle density converts to a non-negative area
/// density.
pub proof fn lemma_convert_density_nonneg<B>(v: Vertex<B>, pdf: Fixed, next: Vertex<B>)
    requires
        pdf.v >= 0,
    ensures
        v.spec_convert_density(pdf, next).v >= 0,
{
    reveal(Vertex::spec_convert_density);
    if !next.spec_is_infinite_light() {
        let w = spec_vsub(next.spec_p(), v.spec_p());
        let d2 = spec_len2(w);
        if d2 != 0 {
            crate::geom::lemma_len2_nonneg(w);
            crate::fixed::lemma_fx_div_nonneg(FX_SCALE, d2);
            let inv2 = fx_div(FX_SCALE, d2);
            if next.spec_is_on_surface() {
                let cosv = spec_abs_dot(next.spec_ng(), spec_vscale(w, Fixed { v: fx_sqrt(inv2) }));
                crate::fixed::lemma_fx_mul_nonneg(pdf.v, cosv);
                crate::fixed::lemma_fx_mul_nonneg(fx_mul(pdf.v, cosv), inv2);
            } else {
                crate::fixed::lemma_fx_mul_nonneg(pdf.v, inv2);
            }
        }
    }
}

/// Converting a zero density yields zero.
pub proof fn lemma_convert_density_zero<B>(v: Vertex<B>, next: Vertex<B>)
    ensures
        v.spec_convert_density(Fixed { v: 0 }, next).v == 0,
{
    reveal(Vertex::spec_convert_density);
    if !next.spec_is_infinite_light() {
        let w = spec_vsub(next.spec_p(), v.spec_p());
        let d2 = spec_len2(w);
        if d2 != 0 {
            let inv2 = fx_div(FX_SCALE, d2);
            if next.spec_is_on_surface() {
                let cosv = spec_abs_dot(next.spec_ng(), spec_vscale(w, Fixed { v: fx_sqrt(inv2) }));
                crate::fixed::lemma_fx_mul_zero(cosv);
                crate::fixed::lemma_fx_mul_zero(inv2);
            } else {
                crate::fixed::lemma_fx_mul_zero(inv2);
            }
        }
    }
}

impl<B: Bsdf> Vertex<B> {
    /// Whether a stochastic connection may end at this vertex: medium and
    /// camera vertices always accept one; a light endpoint accepts one unless
    /// its emission direction is a Dirac delta; a surface vertex accepts one
    /// iff its scattering function keeps at least one non-specular lobe. The
    /// match is exhaustive over the closed variant set, so no vertex can
    /// evade the check.
    pub open spec fn spec_is_connectible(self) -> bool {
        match self.vertex_type {
            VertexType::Medium => true,
            VertexType::Camera => true,
            VertexType::Light => match self.ei {
                Some(ei) => match ei.light {
                    Some(flags) => !flags.delta_direction,
                    None => false,
                },
                None => false,
            },
            VertexType::Surface => match self.si {
                Some(si) => match si.bsdf {
                    Some(bsdf) => bsdf.spec_num_components(spec_non_specular_lobes()) > 0,
                    None => false,
                },
                None => false,
            },
        }
    }

    /// Decide whether a stochastic connection may end at this vertex.
    pub fn is_connectible(&self) -> (r: bool)
        ensures
            r == self.spec_is_connectible(),
            self.vertex_type == VertexType::Camera ==> r,
            self.vertex_type == VertexType::Medium ==> r,
            (self.vertex_type == VertexType::Light && (self.ei matches Some(e) && e.light
                matches Some(f) && f.delta_direction)) ==> !r,
            (self.vertex_type == VertexType::Surface && (self.si matches Some(si) && si.bsdf
                matches Some(b) && b.spec_num_components(spec_non_specular_lobes()) == 0)) ==> !r,
    {
        match self.vertex_type {
            VertexType::Medium => true,
            VertexType::Camera => true,
            VertexType::Light => match &self.ei {
                Some(ei) => match &ei.light {
                    Some(flags) => !flags.delta_direction,
                    None => false,
                },
                None => false,
            },
            VertexType::Surface => match &self.si {
                Some(si) => match &si.bsdf {
                    Some(bsdf) => bsdf.num_components(crate::interfaces::BxdfFlags::non_specular()) > 0,
                    None => false,
                },
                None => false,
            },
        }
    }
}

} // verus!
