use bdpt::fixed::{Fixed, FX_SCALE};
use bdpt::geom::{Vec3, Point2, Ray};
use bdpt::spectrum::Spectrum;
use bdpt::interfaces::{LightFlags, Scene};
use bdpt::sampling::Distribution1D;
use bdpt::simple::{ConstIntersector, CycleSampler, LobeBsdf, SimpleLight};
use bdpt::vertex::Vertex;
use bdpt::bdpt::connect_bdpt;

fn fx(v: i64) -> Fixed {
    Fixed { v }
}

fn v3(x: i64, y: i64, z: i64) -> Vec3 {
    Vec3 { x: fx(x), y: fx(y), z: fx(z) }
}

#[test]
fn distribution_cdf_is_normalised() {
    // weights 1 and 3: raw steps 0.5 and 1.5, integral 2, stored cdf
    // 0, 0.25, 1
    let d = Distribution1D::new(vec![fx(FX_SCALE), fx(3 * FX_SCALE)]);
    assert_eq!(d.func_int.v, 2 * FX_SCALE);
    assert_eq!(d.cdf.len(), 3);
    assert_eq!(d.cdf[0].v, 0);
    assert_eq!(d.cdf[1].v, FX_SCALE / 4);
    assert_eq!(d.cdf[2].v, FX_SCALE);
    assert_eq!(d.count(), 2);
}

#[test]
fn distribution_zero_integral_falls_back_to_uniform() {
    let d = Distribution1D::new(vec![fx(0), fx(0)]);
    assert_eq!(d.func_int.v, 0);
    assert_eq!(d.cdf[0].v, 0);
    assert_eq!(d.cdf[1].v, FX_SCALE / 2);
    assert_eq!(d.cdf[2].v, FX_SCALE);
}

#[test]
fn discrete_sampling_picks_bracketing_entry() {
    let d = Distribution1D::new(vec![fx(FX_SCALE), fx(3 * FX_SCALE)]);
    // u = 0.1 falls before cdf[1] = 0.25: entry 0, probability 1 / 4
    let (i0, p0) = d.sample_discrete(fx(FX_SCALE / 10));
    assert_eq!(i0, 0);
    assert_eq!(p0.v, FX_SCALE / 4);
    // u = 0.5 falls past cdf[1]: entry 1, probability 3 / 4
    let (i1, p1) = d.sample_discrete(fx(FX_SCALE / 2));
    assert_eq!(i1, 1);
    assert_eq!(p1.v, 3 * FX_SCALE / 4);
}

#[test]
fn camera_resampling_strategy_contributes_nothing_yet() {
    // t == 1 gates on the light tail's connectibility and evaluates to zero
    let scene = Scene::<ConstIntersector, SimpleLight> {
        aggregate: ConstIntersector { hit: None },
        lights: vec![],
        infinite_lights: vec![],
    };
    let mut smp = CycleSampler { values: vec![fx(FX_SCALE / 8)], next: 0 };
    let ray = Ray { o: v3(0, 0, 4 * FX_SCALE), d: v3(0, 0, -FX_SCALE), t_max: fx(i64::MAX), time: fx(0) };
    let light_vertex: Vertex<LobeBsdf> = Vertex::create_light(
        LightFlags { delta_position: false, delta_direction: false, area: false, infinite: false },
        &ray,
        &v3(0, 0, -FX_SCALE),
        &Spectrum::splat(fx(FX_SCALE)),
        fx(FX_SCALE),
    );
    let lights = vec![light_vertex];
    let cam_ray = Ray { o: v3(0, 0, 0), d: v3(0, 0, FX_SCALE), t_max: fx(i64::MAX), time: fx(0) };
    let cameras: Vec<Vertex<LobeBsdf>> =
        vec![Vertex::create_camera(&cam_ray, &Spectrum::splat(fx(FX_SCALE)))];
    let l = connect_bdpt(&scene, &lights, &cameras, 1, 1, &mut smp);
    assert!(l.is_black());
}
