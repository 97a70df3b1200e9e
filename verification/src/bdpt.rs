//! Subpath generation, the shared random walk, and strategy connection.

use vstd::prelude::*;
use crate::fixed::{Fixed, FX_SCALE, fx_mul, fx_div, fx_add, sat64};
use crate::geom::{Vec3, Point3, Ray, Point2, CameraSample, Bounds2i, spec_abs_dot, spec_vneg};
use crate::spectrum::{
    Spectrum, spec_is_nonneg, spec_is_black, spec_smul, spec_sscale, spec_sdiv, spec_sadd,
};
use crate::interfaces::{
    Bsdf, Camera, Intersector, Light, SampleSource, Scene, SurfaceHit, TransportMode,
};
use crate::vertex::{
    EndpointInteraction, Vertex, VertexType, lemma_convert_density_zero,
    lemma_convert_density_nonneg,
};
use crate::sampling::{Distribution1D, spec_discrete_pdf};

verus! {

/// The bidirectional path tracing integrator's configuration.
pub struct BDPTIntegrator {
    pub max_depth: u32,
    pub visualize_strategies: bool,
    pub visualize_weights: bool,
    pub pixel_bounds: Bounds2i,
    pub light_sample_strategy: String,
}

impl BDPTIntegrator {
    /// Bundle the configuration of a render.
    pub fn new(
        max_depth: u32,
        visualize_strategies: bool,
        visualize_weights: bool,
        pixel_bounds: Bounds2i,
        light_sample_strategy: String,
    ) -> (r: BDPTIntegrator)
        ensures
            r.max_depth == max_depth,
            r.visualize_strategies == visualize_strategies,
            r.visualize_weights == visualize_weights,
            r.pixel_bounds == pixel_bounds,
            r.light_sample_strategy@ == light_sample_strategy@,
    {
        BDPTIntegrator {
            max_depth,
            visualize_strategies,
            visualize_weights,
            pixel_bounds,
            light_sample_strategy,
        }
    }

    /// The configured light-selection strategy name.
    pub fn get_light_sample_strategy(&self) -> (s: &String)
        ensures
            s@ == self.light_sample_strategy@,
    {
        &self.light_sample_strategy
    }
}

/// The adjoint correction for shading normals, in importance transport:
/// `(|wo . ns| * |wi . ng|) / (|wo . ng| * |wi . ns|)`, clamped to zero when
/// the denominator vanishes; identically one in radiance transport.
pub open spec fn spec_correct_shading_normal<B>(
    isect: SurfaceHit<B>,
    wo: Vec3,
    wi: Vec3,
    mode: TransportMode,
) -> Fixed {
    if mode == TransportMode::Importance {
        let num = fx_mul(spec_abs_dot(wo, isect.shading_n), spec_abs_dot(wi, isect.n));
        let denom = fx_mul(spec_abs_dot(wo, isect.n), spec_abs_dot(wi, isect.shading_n));
        if denom == 0 {
            Fixed { v: 0 }
        } else {
            Fixed { v: fx_div(num, denom) }
        }
    } else {
        Fixed { v: FX_SCALE }
    }
}

/// Compensate for the asymmetry shading normals introduce into importance
/// transport.
pub fn correct_shading_normal<B>(
    isect: &SurfaceHit<B>,
    wo: &Vec3,
    wi: &Vec3,
    mode: TransportMode,
) -> (r: Fixed)
    ensures
        r == spec_correct_shading_normal(*isect, *wo, *wi, mode),
        mode == TransportMode::Radiance ==> r.v == FX_SCALE,
        r.v >= 0,
{
    match mode {
        TransportMode::Importance => {
            let num = wo.abs_dot(isect.shading_n).mul(wi.abs_dot(isect.n));
            let denom = wo.abs_dot(isect.n).mul(wi.abs_dot(isect.shading_n));
            if denom.v == 0 {
                Fixed::zero()
            } else {
                proof {
                    crate::fixed::lemma_fx_mul_nonneg(
                        spec_abs_dot(*wo, isect.shading_n),
                        spec_abs_dot(*wi, isect.n),
                    );
                    crate::fixed::lemma_fx_mul_nonneg(
                        spec_abs_dot(*wo, isect.n),
                        spec_abs_dot(*wi, isect.shading_n),
                    );
                    crate::fixed::lemma_fx_div_nonneg(num.v, denom.v);
                }
                num.div(denom)
            }
        },
        TransportMode::Radiance => Fixed::one(),
    }
}

/// Two vertices agree on everything but their reverse density.
pub open spec fn same_but_pdf_rev<B>(a: Vertex<B>, b: Vertex<B>) -> bool {
    &&& a.vertex_type == b.vertex_type
    &&& a.beta == b.beta
    &&& a.ei == b.ei
    &&& a.si == b.si
    &&& a.delta == b.delta
    &&& a.pdf_fwd == b.pdf_fwd
}

/// The non-negativity invariant every stored vertex keeps: throughput and
/// both area densities.
pub open spec fn vertex_nonneg<B>(v: Vertex<B>) -> bool {
    &&& spec_is_nonneg(v.beta)
    &&& v.pdf_fwd.v >= 0
    &&& v.pdf_rev.v >= 0
}

/// Every vertex past the seed keeps the non-negativity invariant.
pub open spec fn tail_nonneg<B>(s: Seq<Vertex<B>>) -> bool {
    forall|i: int| 1 <= i < s.len() ==> vertex_nonneg(#[trigger] s[i])
}

/// Delta-sampled vertices hand on no density: the reverse density
/// back-patched into their predecessor and the forward density given to
/// their successor are both zero.
pub open spec fn deltas_isolated<B>(s: Seq<Vertex<B>>) -> bool {
    forall|i: int|
        (1 <= i < s.len() && #[trigger] s[i].delta) ==> (s[i - 1].pdf_rev.v == 0 && (i + 1
            < s.len() ==> s[i + 1].pdf_fwd.v == 0))
}

/// Every vertex a walk appends is a surface scattering vertex, except that
/// the last may be the escape vertex of a ray that left the scene.
pub open spec fn tail_shaped<B>(s: Seq<Vertex<B>>) -> bool {
    forall|i: int|
        1 <= i < s.len() ==> ((#[trigger] s[i]).vertex_type == VertexType::Surface || (
        is_escape_vertex(s[i]) && i == s.len() - 1))
}

/// The second vertex's forward density has been overwritten with the
/// positional density `pp` of an infinite light's emission sample, rescaled
/// by the cosine against the walk's final direction `d` when that vertex
/// lies on a surface.
pub open spec fn density_corrected<B>(s: Seq<Vertex<B>>, pp: Fixed, d: Vec3) -> bool {
    &&& (!s[1].spec_is_on_surface() ==> s[1].pdf_fwd == pp)
    &&& (s[1].spec_is_on_surface() ==> s[1].pdf_fwd.v == fx_mul(
        pp.v,
        spec_abs_dot(d, s[1].spec_ng()),
    ))
}

/// The escape vertex: a light endpoint with no light record behind it.
pub open spec fn is_escape_vertex<B>(v: Vertex<B>) -> bool {
    &&& v.vertex_type == VertexType::Light
    &&& (v.ei matches Some(e) && e.light is None)
    &&& v.si is None
}

/// How many consecutive transparent boundary crossings one walk will pass
/// through. A transparent boundary consumes no depth, so a scene description
/// whose intersector kept reporting scatterless boundaries would otherwise
/// never let the walk return; past this budget the walk ends as a dead path.
pub const TRANSPARENT_SKIP_LIMIT: usize = 4096;

/// Extend a subpath that already holds its seed vertex by up to `max_depth`
/// further vertices, and return how many were appended.
///
/// Each step intersects the scene; a miss in radiance transport appends one
/// escape vertex standing for an infinite-light hit and stops, a miss in
/// importance transport stops without a vertex. A scatterless boundary is
/// crossed without consuming depth. Otherwise a surface vertex is appended
/// whose forward density is the incoming solid-angle density converted to
/// area measure at that vertex; a fresh scattering sample then updates the
/// throughput, a specular sample marks the vertex delta and zeroes the
/// densities it would otherwise hand on, and the predecessor's reverse
/// density is back-patched. A walk seeded from an infinite light finally
/// overwrites the second vertex's forward density with the positional density
/// handed in, rescaled by the surface cosine when that vertex lies on a
/// surface.
#[verifier::rlimit(100)]
pub fn random_walk<I: Intersector<B>, L, B: Bsdf, S: SampleSource>(
    scene: &Scene<I, L>,
    ray: &mut Ray,
    sampler: &mut S,
    beta: &mut Spectrum,
    pdf: Fixed,
    max_depth: u32,
    mode: TransportMode,
    path: &mut Vec<Vertex<B>>,
    density_info: Option<Fixed>,
) -> (bounces: usize)
    requires
        old(path)@.len() == 1,
        pdf.v >= 0,
        spec_is_nonneg(*old(beta)),
        vertex_nonneg(old(path)@[0]),
        (density_info matches Some(pp) ==> pp.v >= 0),
    ensures
        final(path)@.len() == 1 + bounces,
        bounces <= max_depth,
        spec_is_nonneg(*final(beta)),
        same_but_pdf_rev(final(path)@[0], old(path)@[0]),
        final(path)@[0].pdf_rev.v >= 0,
        tail_nonneg(final(path)@),
        deltas_isolated(final(path)@),
        tail_shaped(final(path)@),
        max_depth == 0 ==> bounces == 0 && final(path)@ == old(path)@,
        (max_depth > 0 && mode == TransportMode::Radiance
            && scene.aggregate.spec_intersect(*old(ray), mode) is None) ==> (bounces == 1
            && is_escape_vertex(final(path)@[1]) && final(path)@[1].beta == *old(beta) && (
        density_info is None ==> final(path)@[1].pdf_fwd == pdf)),
        (max_depth > 0 && mode == TransportMode::Importance
            && scene.aggregate.spec_intersect(*old(ray), mode) is None) ==> (bounces == 0
            && final(path)@ == old(path)@ && *final(beta) == *old(beta)),
        density_info matches Some(pp) ==> (bounces > 0 ==> density_corrected(
            final(path)@,
            pp,
            final(ray).d,
        )),
{
    if max_depth == 0 {
        return 0;
    }
    let mut bounces: usize = 0;
    let mut pdf_fwd: Fixed = pdf;
    let mut pdf_rev: Fixed = Fixed::zero();
    let mut skips_left: usize = TRANSPARENT_SKIP_LIMIT;
    loop
        invariant_except_break
            bounces < max_depth,
            forall|i: int|
                1 <= i < path@.len() ==> (#[trigger] path@[i]).vertex_type == VertexType::Surface,
            (scene.aggregate.spec_intersect(*old(ray), mode) is None) ==> (bounces == 0 && *ray
                == *old(ray) && path@ == old(path)@ && *beta == *old(beta) && pdf_fwd == pdf),
        invariant
            old(path)@.len() == 1,
            vertex_nonneg(old(path)@[0]),
            spec_is_nonneg(*old(beta)),
            max_depth > 0,
            path@.len() == 1 + bounces,
            pdf_fwd.v >= 0,
            spec_is_nonneg(*beta),
            same_but_pdf_rev(path@[0], old(path)@[0]),
            path@[0].pdf_rev.v >= 0,
            tail_nonneg(path@),
            deltas_isolated(path@),
            (path@.len() > 1 && path@[path@.len() - 1].delta) ==> pdf_fwd.v == 0,
        ensures
            path@.len() == 1 + bounces,
            bounces <= max_depth,
            spec_is_nonneg(*beta),
            same_but_pdf_rev(path@[0], old(path)@[0]),
            path@[0].pdf_rev.v >= 0,
            tail_nonneg(path@),
            deltas_isolated(path@),
            tail_shaped(path@),
            (mode == TransportMode::Radiance && scene.aggregate.spec_intersect(*old(ray), mode)
                is None) ==> (bounces == 1 && is_escape_vertex(path@[1]) && path@[1].pdf_fwd == pdf
                && path@[1].beta == *old(beta)),
            (mode == TransportMode::Importance && scene.aggregate.spec_intersect(
                *old(ray),
                mode,
            ) is None) ==> (bounces == 0 && path@ == old(path)@ && *beta == *old(beta)),
        decreases (max_depth - bounces) as int, skips_left as int,
    {
        match scene.aggregate.intersect(ray, mode) {
            Some(isect) => {
                if isect.bsdf.is_none() {
                    // a transparent boundary: continue straight on, no new
                    // vertex, no depth consumed
                    if skips_left == 0 {
                        break;
                    }
                    skips_left = skips_left - 1;
                    let d = ray.d;
                    *ray = isect.spawn_ray(&d);
                    continue;
                }
                let ghost g_isect = isect;
                let bcopy = *beta;
                let prev_idx = path.len() - 1;
                let mut vertex = Vertex::create_surface_interaction(
                    isect,
                    &bcopy,
                    pdf_fwd,
                    &path[prev_idx],
                );
                proof {
                    if pdf_fwd.v >= 0 {
                        lemma_convert_density_nonneg(
                            path@[prev_idx as int],
                            pdf_fwd,
                            Vertex::<B>::spec_surface_vertex(g_isect, bcopy, Fixed { v: 0 }),
                        );
                    }
                    if path@.len() > 1 && path@[path@.len() - 1].delta {
                        lemma_convert_density_zero(
                            path@[prev_idx as int],
                            Vertex::<B>::spec_surface_vertex(g_isect, bcopy, Fixed { v: 0 }),
                        );
                    }
                }
                bounces = bounces + 1;
                if bounces >= max_depth as usize {
                    path.push(vertex);
                    break;
                }
                let u2 = sampler.get_2d();
                let (smp, rev, corr, cos, spawned) = match &vertex.si {
                    Some(si) => match &si.bsdf {
                        Some(b) => {
                            let s = b.sample_f(&si.wo, u2);
                            let rev = b.pdf(&s.wi, &si.wo);
                            let corr = correct_shading_normal(si, &si.wo, &s.wi, mode);
                            let cos = s.wi.abs_dot(si.shading_n);
                            let spawned = si.spawn_ray(&s.wi);
                            (s, rev, corr, cos, spawned)
                        },
                        None => vstd::pervasive::unreached(),
                    },
                    None => vstd::pervasive::unreached(),
                };
                if smp.f.is_black() || smp.pdf.v == 0 {
                    path.push(vertex);
                    break;
                }
                proof {
                    crate::spectrum::lemma_sscale_nonneg(smp.f, cos);
                    crate::spectrum::lemma_sdiv_nonneg(spec_sscale(smp.f, cos), smp.pdf);
                    crate::spectrum::lemma_smul_nonneg(
                        *beta,
                        spec_sdiv(spec_sscale(smp.f, cos), smp.pdf),
                    );
                }
                *beta = beta.smul(smp.f.sscale(cos).sdiv(smp.pdf));
                pdf_fwd = smp.pdf;
                pdf_rev = rev;
                if smp.specular {
                    vertex.delta = true;
                    pdf_rev = Fixed::zero();
                    pdf_fwd = Fixed::zero();
                }
                proof {
                    crate::spectrum::lemma_smul_nonneg(*beta, Spectrum { r: corr, g: corr, b: corr });
                }
                *beta = beta.smul(Spectrum::splat(corr));
                *ray = spawned;
                // back-patch the previous vertex's reverse area density
                let mut prevv = match path.pop() {
                    Some(p) => p,
                    None => vstd::pervasive::unreached(),
                };
                let npr = vertex.convert_density(pdf_rev, &prevv);
                proof {
                    if vertex.delta {
                        lemma_convert_density_zero(vertex, prevv);
                    }
                }
                prevv.pdf_rev = npr;
                path.push(prevv);
                path.push(vertex);
            },
            None => {
                // capture escaped rays when tracing from the camera
                if matches!(mode, TransportMode::Radiance) {
                    let cur = *ray;
                    let bcopy = *beta;
                    let v = Vertex::create_light_interaction(
                        EndpointInteraction::new_ray(&cur),
                        &bcopy,
                        pdf_fwd,
                    );
                    path.push(v);
                    bounces = bounces + 1;
                }
                break;
            },
        }
    }
    // correct the subpath's second density when seeded from an infinite light
    if let Some(pp) = density_info {
        if bounces > 0 {
            let ghost pre = path@;
            let mut v1 = path.remove(1);
            v1.pdf_fwd = pp;
            if v1.is_on_surface() {
                proof {
                    crate::fixed::lemma_fx_mul_nonneg(pp.v, spec_abs_dot(ray.d, v1.spec_ng()));
                }
                v1.pdf_fwd = pp.mul(ray.d.abs_dot(v1.ng()));
            }
            path.insert(1, v1);
            proof {
                assert(path@ =~= pre.update(1, path@[1]));
            }
        }
    }
    bounces
}

/// Generate the camera subpath for the film position `p_film`: draw the lens
/// and time samples, generate the primary ray and its response weight, seed
/// the path with the camera vertex, and extend it by a radiance-mode random
/// walk seeded with the camera's directional density. Returns the subpath
/// length including the seed, the subpath, and the seed's position and time.
pub fn generate_camera_subpath<I: Intersector<B>, L, B: Bsdf, C: Camera, S: SampleSource>(
    scene: &Scene<I, L>,
    sampler: &mut S,
    max_depth: u32,
    camera: &C,
    p_film: &Point2,
) -> (r: (usize, Vec<Vertex<B>>, Point3, Fixed))
    ensures
        r.0 == r.1@.len(),
        r.0 <= max_depth,
        max_depth == 0 ==> r.0 == 0,
        max_depth > 0 ==> r.0 >= 1,
        tail_nonneg(r.1@),
        deltas_isolated(r.1@),
        tail_shaped(r.1@),
        max_depth > 0 ==> (exists|cs: CameraSample|
            {
                let rw = #[trigger] camera.spec_generate_ray(cs);
                &&& cs.p_film == *p_film
                &&& same_but_pdf_rev(
                    r.1@[0],
                    Vertex::<B>::spec_camera_vertex(
                        rw.0,
                        Spectrum { r: rw.1, g: rw.1, b: rw.1 },
                    ),
                )
            }),
        max_depth > 0 ==> vertex_nonneg(r.1@[0]) && r.2 == r.1@[0].spec_p() && r.3
            == r.1@[0].spec_time(),
        (max_depth >= 2 && (forall|ry: Ray|
            scene.aggregate.spec_intersect(ry, TransportMode::Radiance) is None)) ==> (r.0 == 2
            && is_escape_vertex(r.1@[1])),
{
    let mut path: Vec<Vertex<B>> = Vec::new();
    if max_depth == 0 {
        return (0, path, Vec3::zero(), Fixed::zero());
    }
    // sample the initial ray for the camera subpath
    let time = sampler.get_1d();
    let p_lens = sampler.get_2d();
    let camera_sample = CameraSample { p_film: *p_film, p_lens, time };
    let (mut ray, weight) = camera.generate_ray(&camera_sample);
    let mut beta = Spectrum::splat(weight);
    // generate the first vertex on the camera subpath and start the walk
    let vertex: Vertex<B> = Vertex::create_camera(&ray, &beta);
    let p = vertex.p();
    let t = vertex.time();
    path.push(vertex);
    let pdfs = camera.pdf_we(&ray);
    let n_walk = random_walk(
        scene,
        &mut ray,
        sampler,
        &mut beta,
        pdfs.1,
        max_depth - 1,
        TransportMode::Radiance,
        &mut path,
        None,
    );
    (n_walk + 1, path, p, t)
}

/// An emission sample on which a light subpath cannot be seeded: a vanished
/// positional or directional density, or fully absorbing exitance.
pub open spec fn aborts_light_subpath(s: crate::interfaces::LeSample) -> bool {
    s.pdf_pos.v == 0 || s.pdf_dir.v == 0 || spec_is_black(s.le)
}

/// Generate a light subpath at the given time: pick a light from the
/// selection distribution, draw an emission sample, and when its densities
/// and exitance are usable seed the path with the light vertex — its forward
/// density the positional density scaled by the selection probability — and
/// extend it by an importance-mode random walk; a light flagged infinite
/// additionally hands its positional density on, so the walk can correct the
/// second vertex. An unusable emission sample yields the empty subpath of
/// length zero, a normal outcome.
pub fn generate_light_subpath<I: Intersector<B>, L: Light, B: Bsdf, S: SampleSource>(
    scene: &Scene<I, L>,
    sampler: &mut S,
    max_depth: u32,
    time: Fixed,
    light_distr: &Distribution1D,
) -> (r: (usize, Vec<Vertex<B>>))
    requires
        scene.lights@.len() >= 1,
        light_distr.func@.len() == scene.lights@.len(),
        light_distr.cdf@.len() == light_distr.func@.len() + 1,
        forall|k: int|
            0 <= k < light_distr.func@.len() ==> (#[trigger] light_distr.func@[k]).v >= 0,
        light_distr.func_int.v >= 0,
    ensures
        r.0 == r.1@.len(),
        r.0 <= max_depth,
        max_depth == 0 ==> r.0 == 0,
        tail_nonneg(r.1@),
        deltas_isolated(r.1@),
        tail_shaped(r.1@),
        r.0 > 0 ==> vertex_nonneg(r.1@[0]),
        r.0 > 0 ==> (exists|i: int, u1: Point2, u2: Point2|
            {
                let smp = #[trigger] scene.lights@[i].spec_sample_le(u1, u2, time);
                &&& 0 <= i < scene.lights@.len()
                &&& !aborts_light_subpath(smp)
                &&& same_but_pdf_rev(
                    r.1@[0],
                    Vertex::<B>::spec_light_vertex(
                        scene.lights@[i].spec_flags(),
                        smp.ray,
                        smp.n_light,
                        smp.le,
                        Fixed {
                            v: fx_mul(
                                smp.pdf_pos.v,
                                spec_discrete_pdf(light_distr.func@, light_distr.func_int, i),
                            ),
                        },
                    ),
                )
            }),
        (forall|i: int, u1: Point2, u2: Point2|
            0 <= i < scene.lights@.len() ==> aborts_light_subpath(
                #[trigger] scene.lights@[i].spec_sample_le(u1, u2, time),
            )) ==> r.0 == 0,
        (forall|ry: Ray| scene.aggregate.spec_intersect(ry, TransportMode::Importance) is None)
            ==> r.0 <= 1,
{
    let mut path: Vec<Vertex<B>> = Vec::new();
    if max_depth == 0 {
        return (0, path);
    }
    // sample the initial ray for the light subpath
    let u = sampler.get_1d();
    let (light_num, light_pdf) = light_distr.sample_discrete(u);
    let u1 = sampler.get_2d();
    let u2 = sampler.get_2d();
    let smp = scene.lights[light_num].sample_le(u1, u2, time);
    if smp.pdf_pos.v == 0 || smp.pdf_dir.v == 0 || smp.le.is_black() {
        return (0, path);
    }
    proof {
        crate::fixed::lemma_fx_mul_nonneg(
            light_distr.func_int.v,
            sat64((light_distr.func@.len() as int) * (FX_SCALE as int)),
        );
        crate::fixed::lemma_fx_div_nonneg(
            light_distr.func@[light_num as int].v,
            fx_mul(light_distr.func_int.v, sat64((light_distr.func@.len() as int) * (FX_SCALE as int))),
        );
        crate::fixed::lemma_fx_mul_nonneg(smp.pdf_pos.v, light_pdf.v);
    }
    // generate the first vertex on the light subpath and start the walk
    let flags = scene.lights[light_num].flags();
    let vertex: Vertex<B> = Vertex::create_light(
        flags,
        &smp.ray,
        &smp.n_light,
        &smp.le,
        smp.pdf_pos.mul(light_pdf),
    );
    let is_infinite = vertex.is_infinite_light();
    path.push(vertex);
    let denom = light_pdf.mul(smp.pdf_pos).mul(smp.pdf_dir);
    proof {
        crate::fixed::lemma_fx_mul_nonneg(light_pdf.v, smp.pdf_pos.v);
        crate::fixed::lemma_fx_mul_nonneg(fx_mul(light_pdf.v, smp.pdf_pos.v), smp.pdf_dir.v);
        crate::spectrum::lemma_sscale_nonneg(smp.le, Fixed { v: spec_abs_dot(smp.n_light, smp.ray.d) });
        crate::spectrum::lemma_sdiv_nonneg(
            spec_sscale(smp.le, Fixed { v: spec_abs_dot(smp.n_light, smp.ray.d) }),
            denom,
        );
    }
    let mut beta = smp.le.sscale(smp.n_light.abs_dot(smp.ray.d)).sdiv(denom);
    let mut ray = smp.ray;
    let density_info = if is_infinite {
        Some(smp.pdf_pos)
    } else {
        None
    };
    let n_vertices = random_walk(
        scene,
        &mut ray,
        sampler,
        &mut beta,
        smp.pdf_dir,
        max_depth - 1,
        TransportMode::Importance,
        &mut path,
        density_info,
    );
    (n_vertices + 1, path)
}

/// The summed escaped-ray radiance of the scene's first `k` infinite lights
/// in direction `d`.
pub open spec fn spec_infinite_le<I, L: Light>(scene: Scene<I, L>, d: Vec3, k: int) -> Spectrum
    decreases k,
{
    if k <= 0 {
        crate::spectrum::spec_black()
    } else {
        spec_sadd(
            spec_infinite_le(scene, d, k - 1),
            scene.lights@[scene.infinite_lights@[k - 1] as int].spec_le(d),
        )
    }
}

/// The direction a light endpoint emitted along: its stored normal faces
/// back along the generating ray.
pub open spec fn spec_escape_dir<B>(v: Vertex<B>) -> Vec3 {
    spec_vneg(v.spec_ng())
}

/// The radiance contribution of strategy `(s, t)`.
///
/// A strategy whose camera prefix already ends on a light vertex while the
/// light prefix is non-empty would double-count an infinite-light hit and is
/// zero. The pure path-tracing strategy `s == 0` reads the camera subpath as
/// a complete path: non-zero exactly when its `t`-th vertex is an emitter
/// hit, in which case the infinite lights' radiance along the escape
/// direction scales that vertex's accumulated throughput. The resampled
/// strategies `t == 1` and `s == 1` and the inner bidirectional connections
/// evaluate to zero contribution here: their camera- and light-resampling
/// responses, and the weighting across strategies, belong to the open part
/// of the connection design.
pub open spec fn spec_connect_contribution<I, L: Light, B: Bsdf>(
    scene: Scene<I, L>,
    light_vertices: Seq<Vertex<B>>,
    camera_vertices: Seq<Vertex<B>>,
    s: int,
    t: int,
) -> Spectrum {
    if t > 1 && s != 0 && camera_vertices[t - 1].vertex_type == VertexType::Light {
        crate::spectrum::spec_black()
    } else if s == 0 {
        let pt = camera_vertices[t - 1];
        if pt.vertex_type == VertexType::Light {
            spec_smul(
                spec_infinite_le(scene, spec_escape_dir(pt), scene.infinite_lights@.len() as int),
                pt.beta,
            )
        } else {
            crate::spectrum::spec_black()
        }
    } else {
        crate::spectrum::spec_black()
    }
}

/// Evaluate the contribution of connection strategy `(s, t)`: the first `s`
/// vertices of the light subpath joined to the first `t` vertices of the
/// camera subpath.
pub fn connect_bdpt<I, L: Light, B: Bsdf, S: SampleSource>(
    scene: &Scene<I, L>,
    light_vertices: &Vec<Vertex<B>>,
    camera_vertices: &Vec<Vertex<B>>,
    s: usize,
    t: usize,
    sampler: &mut S,
) -> (l: Spectrum)
    requires
        scene.wf(),
        1 <= t <= camera_vertices@.len(),
        s <= light_vertices@.len(),
    ensures
        l == spec_connect_contribution(
            *scene,
            light_vertices@,
            camera_vertices@,
            s as int,
            t as int,
        ),
        s == 0 && camera_vertices@[t - 1].vertex_type != VertexType::Light ==> spec_is_black(l),
{
    // ignore invalid connections related to infinite area lights
    if t > 1 && s != 0 && matches!(camera_vertices[t - 1].vertex_type, VertexType::Light) {
        return Spectrum::black();
    }
    if s == 0 {
        // interpret the camera subpath as a complete path
        let pt = &camera_vertices[t - 1];
        if matches!(pt.vertex_type, VertexType::Light) {
            let d = pt.ng().vneg();
            let mut acc = Spectrum::black();
            let mut k: usize = 0;
            while k < scene.infinite_lights.len()
                invariant
                    scene.wf(),
                    k <= scene.infinite_lights@.len(),
                    acc == spec_infinite_le(*scene, d, k as int),
                decreases scene.infinite_lights@.len() - k,
            {
                let idx = scene.infinite_lights[k];
                acc = acc.sadd(scene.lights[idx].le(&d));
                k = k + 1;
            }
            proof {
                assert(d == spec_escape_dir(camera_vertices@[t - 1]));
            }
            return acc.smul(pt.beta);
        }
        return Spectrum::black();
    }
    if t == 1 {
        // sample a point on the camera and connect it to the light subpath;
        // the resampled response is part of the open connection design, so
        // the strategy is gated on connectibility and contributes nothing
        if light_vertices[s - 1].is_connectible() {
            let _ = sampler.get_2d();
        }
        return Spectrum::black();
    }
    if s == 1 {
        // next-event estimation resamples a light; part of the open design
        return Spectrum::black();
    }
    // the inner bidirectional connections; part of the open design
    Spectrum::black()
}

/// The summed weighted directional density of the scene's first `k` infinite
/// lights for the direction `w`, each light's density taken toward `-w` and
/// weighted by its unnormalised selection weight.
pub open spec fn spec_infinite_density_sum<I, L: Light>(
    scene: Scene<I, L>,
    func: Seq<Fixed>,
    w: Vec3,
    k: int,
) -> i64
    decreases k,
{
    if k <= 0 {
        0
    } else {
        fx_add(
            spec_infinite_density_sum(scene, func, w, k - 1),
            fx_mul(
                scene.lights@[scene.infinite_lights@[k - 1] as int].spec_pdf_li(spec_vneg(w)).v,
                func[scene.infinite_lights@[k - 1] as int].v,
            ),
        )
    }
}

/// The combined directional density with which the scene's infinite lights
/// emit along `w`: each infinite light's directional density weighted by its
/// entry in the selection distribution, normalised by the distribution's
/// integral and entry count.
pub fn infinite_light_density<I, L: Light>(
    scene: &Scene<I, L>,
    light_distr: &Distribution1D,
    w: &Vec3,
) -> (pdf: Fixed)
    requires
        scene.wf(),
        light_distr.func@.len() == scene.lights@.len(),
    ensures
        pdf.v == fx_div(
            spec_infinite_density_sum(*scene, light_distr.func@, *w, scene.infinite_lights@.len() as int),
            fx_mul(
                light_distr.func_int.v,
                sat64((light_distr.func@.len() as int) * (FX_SCALE as int)),
            ),
        ),
{
    let mut acc = Fixed::zero();
    let neg_w = w.vneg();
    let mut k: usize = 0;
    while k < scene.infinite_lights.len()
        invariant
            scene.wf(),
            light_distr.func@.len() == scene.lights@.len(),
            k <= scene.infinite_lights@.len(),
            neg_w == spec_vneg(*w),
            acc.v == spec_infinite_density_sum(*scene, light_distr.func@, *w, k as int),
        decreases scene.infinite_lights@.len() - k,
    {
        let idx = scene.infinite_lights[k];
        let li = scene.lights[idx].pdf_li(&neg_w);
        acc = acc.add(li.mul(light_distr.func[idx]));
        k = k + 1;
    }
    let n_fx = Fixed::of_usize(light_distr.func.len());
    acc.div(light_distr.func_int.mul(n_fx))
}

/// Densities round-trip between sampling and evaluation: for a non-specular
/// scattering sample, the area-measure forward density the walk stores — the
/// conversion of the sampled density toward the next vertex — equals the
/// conversion of the density that `Bsdf::pdf` evaluates for the same
/// direction pair. The reverse density the walk back-patches is by
/// construction the conversion of the evaluation on the swapped pair.
pub proof fn lemma_density_round_trip<B: Bsdf>(
    b: B,
    wo: Vec3,
    u: Point2,
    v: Vertex<B>,
    next: Vertex<B>,
)
    ensures
        ({
            let smp = b.spec_sample_f(wo, u);
            !smp.specular ==> v.spec_convert_density(smp.pdf, next) == v.spec_convert_density(
                b.spec_pdf(wo, smp.wi),
                next,
            )
        }),
{
    b.sample_density_agrees(wo, u);
}

} // verus!
