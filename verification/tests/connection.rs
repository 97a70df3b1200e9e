use bdpt::fixed::{Fixed, FX_SCALE};
use bdpt::geom::{Vec3, Point2, Point2i, Bounds2i, Ray};
use bdpt::spectrum::Spectrum;
use bdpt::interfaces::{Bsdf, BsdfSample, LightFlags, Scene, SurfaceHit, TransportMode};
use bdpt::sampling::Distribution1D;
use bdpt::simple::{ConstIntersector, CycleSampler, LobeBsdf, PlaneCamera, SimpleLight};
use bdpt::vertex::{Vertex, VertexType};
use bdpt::bdpt::{
    BDPTIntegrator, connect_bdpt, generate_camera_subpath, infinite_light_density,
};

fn fx(v: i64) -> Fixed {
    Fixed { v }
}

fn v3(x: i64, y: i64, z: i64) -> Vec3 {
    Vec3 { x: fx(x), y: fx(y), z: fx(z) }
}

fn sampler() -> CycleSampler {
    CycleSampler { values: vec![fx(FX_SCALE / 8)], next: 0 }
}

fn infinite_light(emit: Spectrum, pdf_li: Fixed) -> SimpleLight {
    SimpleLight {
        flags: LightFlags {
            delta_position: false,
            delta_direction: false,
            area: false,
            infinite: true,
        },
        emit,
        p: v3(0, 0, 0),
        dir: v3(0, 0, -FX_SCALE),
        n: v3(0, 0, -FX_SCALE),
        pdf_pos: fx(FX_SCALE),
        pdf_dir: fx(FX_SCALE),
        pdf_li_val: pdf_li,
    }
}

fn sky_scene(emit: Spectrum) -> Scene<ConstIntersector, SimpleLight> {
    Scene {
        aggregate: ConstIntersector { hit: None },
        lights: vec![infinite_light(emit, fx(FX_SCALE))],
        infinite_lights: vec![0],
    }
}

fn camera() -> PlaneCamera {
    PlaneCamera { o: v3(0, 0, 0), weight: fx(FX_SCALE), pdf_pos: fx(FX_SCALE), pdf_dir: fx(FX_SCALE) }
}

fn diffuse_hit() -> SurfaceHit<LobeBsdf> {
    SurfaceHit {
        p: v3(0, 0, 2 * FX_SCALE),
        time: fx(0),
        p_error: v3(0, 0, 0),
        wo: v3(0, 0, -FX_SCALE),
        n: v3(0, 0, -FX_SCALE),
        shading_n: v3(0, 0, -FX_SCALE),
        bsdf: Some(LobeBsdf {
            diffuse_lobes: 1,
            glossy_lobes: 0,
            specular_lobes: 0,
            sample: BsdfSample {
                f: Spectrum::splat(fx(FX_SCALE / 2)),
                wi: v3(0, 0, FX_SCALE),
                pdf: fx(FX_SCALE),
                specular: false,
            },
        }),
    }
}

#[test]
fn path_tracing_strategy_scales_escape_throughput() {
    // (s = 0, t): the camera subpath alone; its escape vertex collects the
    // infinite lights' radiance, scaled by the accumulated throughput
    let scene = sky_scene(Spectrum::splat(fx(FX_SCALE / 2)));
    let mut smp = sampler();
    let p_film = Point2 { x: fx(0), y: fx(0) };
    let (n, path, _, _) = generate_camera_subpath(&scene, &mut smp, 4, &camera(), &p_film);
    assert_eq!(n, 2);
    assert!(matches!(path[1].vertex_type, VertexType::Light));
    let lights: Vec<Vertex<LobeBsdf>> = vec![];
    let l = connect_bdpt(&scene, &lights, &path, 0, 2, &mut smp);
    assert_eq!(l.r.v, FX_SCALE / 2);
    assert_eq!(l.g.v, FX_SCALE / 2);
    assert_eq!(l.b.v, FX_SCALE / 2);
}

#[test]
fn path_tracing_strategy_zero_without_emitter_hit() {
    // (s = 0, t) is strictly zero when the camera subpath's t-th vertex is
    // not a light vertex
    let scene = Scene::<ConstIntersector, SimpleLight> {
        aggregate: ConstIntersector { hit: Some(diffuse_hit()) },
        lights: vec![],
        infinite_lights: vec![],
    };
    let mut smp = sampler();
    let p_film = Point2 { x: fx(0), y: fx(0) };
    let (n, path, _, _) = generate_camera_subpath(&scene, &mut smp, 3, &camera(), &p_film);
    assert!(n >= 2);
    assert!(matches!(path[1].vertex_type, VertexType::Surface));
    let lights: Vec<Vertex<LobeBsdf>> = vec![];
    let l = connect_bdpt(&scene, &lights, &path, 0, 2, &mut smp);
    assert!(l.is_black());
}

#[test]
fn connection_into_escape_vertex_is_invalid() {
    // t > 1, s != 0 with the camera tail already a light vertex would
    // double-count an infinite-light hit: the strategy is zero
    let scene = sky_scene(Spectrum::splat(fx(FX_SCALE)));
    let mut smp = sampler();
    let p_film = Point2 { x: fx(0), y: fx(0) };
    let (_, path, _, _) = generate_camera_subpath(&scene, &mut smp, 4, &camera(), &p_film);
    let ray = Ray { o: v3(0, 0, 4 * FX_SCALE), d: v3(0, 0, -FX_SCALE), t_max: fx(i64::MAX), time: fx(0) };
    let lights: Vec<Vertex<LobeBsdf>> = vec![Vertex::create_light(
        LightFlags { delta_position: false, delta_direction: false, area: false, infinite: false },
        &ray,
        &v3(0, 0, -FX_SCALE),
        &Spectrum::splat(fx(FX_SCALE)),
        fx(FX_SCALE),
    )];
    let l = connect_bdpt(&scene, &lights, &path, 1, 2, &mut smp);
    assert!(l.is_black());
}

#[test]
fn infinite_light_density_aggregates_weighted_densities() {
    // two infinite lights with densities 0.5 and 0.25, selection weights 1
    // and 3: (0.5 * 1 + 0.25 * 3) / (func_int * count) == 1.25 / 4
    let scene = Scene::<ConstIntersector, SimpleLight> {
        aggregate: ConstIntersector { hit: None },
        lights: vec![
            infinite_light(Spectrum::splat(fx(FX_SCALE)), fx(FX_SCALE / 2)),
            infinite_light(Spectrum::splat(fx(FX_SCALE)), fx(FX_SCALE / 4)),
        ],
        infinite_lights: vec![0, 1],
    };
    let distr = Distribution1D::new(vec![fx(FX_SCALE), fx(3 * FX_SCALE)]);
    assert_eq!(distr.func_int.v, 2 * FX_SCALE);
    let pdf = infinite_light_density(&scene, &distr, &v3(0, 0, FX_SCALE));
    assert_eq!(pdf.v, 20480);
}

#[test]
fn sampled_and_evaluated_densities_agree() {
    // the forward density obtained by sampling equals the density evaluated
    // on the same direction pair, so converting either gives the same
    // area-measure value used by the back-patch
    let b = match diffuse_hit().bsdf {
        Some(b) => b,
        None => unreachable!(),
    };
    let wo = v3(0, 0, -FX_SCALE);
    let u = Point2 { x: fx(0), y: fx(0) };
    let s = b.sample_f(&wo, u);
    assert!(!s.specular);
    assert_eq!(b.pdf(&wo, &s.wi).v, s.pdf.v);
    let ray = Ray { o: v3(0, 0, 0), d: v3(0, 0, FX_SCALE), t_max: fx(i64::MAX), time: fx(0) };
    let from: Vertex<LobeBsdf> = Vertex::create_camera(&ray, &Spectrum::splat(fx(FX_SCALE)));
    let ray2 = Ray { o: v3(0, 0, 2 * FX_SCALE), d: v3(0, 0, FX_SCALE), t_max: fx(i64::MAX), time: fx(0) };
    let to: Vertex<LobeBsdf> = Vertex::create_camera(&ray2, &Spectrum::splat(fx(FX_SCALE)));
    assert_eq!(
        from.convert_density(s.pdf, &to).v,
        from.convert_density(b.pdf(&wo, &s.wi), &to).v,
    );
}

#[test]
fn integrator_configuration_round_trip() {
    let bounds = Bounds2i {
        p_min: Point2i { x: 0, y: 0 },
        p_max: Point2i { x: 64, y: 64 },
    };
    let integrator = BDPTIntegrator::new(5, false, true, bounds, "power".to_string());
    assert_eq!(integrator.max_depth, 5);
    assert!(!integrator.visualize_strategies);
    assert!(integrator.visualize_weights);
    assert_eq!(integrator.pixel_bounds.p_max.x, 64);
    assert_eq!(integrator.get_light_sample_strategy().as_str(), "power");
}
