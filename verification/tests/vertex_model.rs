use bdpt::fixed::{Fixed, FX_SCALE};
use bdpt::geom::{Vec3, Ray};
use bdpt::spectrum::Spectrum;
use bdpt::interfaces::{Bsdf, BsdfSample, BxdfFlags, LightFlags, SurfaceHit, TransportMode};
use bdpt::simple::LobeBsdf;
use bdpt::vertex::{EndpointInteraction, Vertex, VertexType};
use bdpt::bdpt::correct_shading_normal;

fn fx(v: i64) -> Fixed {
    Fixed { v }
}

fn v3(x: i64, y: i64, z: i64) -> Vec3 {
    Vec3 { x: fx(x), y: fx(y), z: fx(z) }
}

fn no_flags() -> LightFlags {
    LightFlags { delta_position: false, delta_direction: false, area: false, infinite: false }
}

fn diffuse_bsdf() -> LobeBsdf {
    LobeBsdf {
        diffuse_lobes: 1,
        glossy_lobes: 0,
        specular_lobes: 0,
        sample: BsdfSample {
            f: Spectrum::splat(fx(FX_SCALE)),
            wi: v3(0, 0, FX_SCALE),
            pdf: fx(FX_SCALE),
            specular: false,
        },
    }
}

fn hit_at(p: Vec3, n: Vec3, bsdf: Option<LobeBsdf>) -> SurfaceHit<LobeBsdf> {
    SurfaceHit {
        p,
        time: fx(0),
        p_error: v3(0, 0, 0),
        wo: v3(0, 0, FX_SCALE),
        n,
        shading_n: n,
        bsdf,
    }
}

fn camera_vertex_at(p: Vec3) -> Vertex<LobeBsdf> {
    let ray = Ray { o: p, d: v3(0, 0, FX_SCALE), t_max: fx(i64::MAX), time: fx(0) };
    Vertex::create_camera(&ray, &Spectrum::splat(fx(FX_SCALE)))
}

#[test]
fn convert_density_on_surface() {
    // distance 2 along x, receiver normal along x: pdf * |cos| / d^2 == 1 * 1 / 4
    let prev = camera_vertex_at(v3(0, 0, 0));
    let next = Vertex::create_surface_interaction(
        hit_at(v3(2 * FX_SCALE, 0, 0), v3(FX_SCALE, 0, 0), Some(diffuse_bsdf())),
        &Spectrum::splat(fx(FX_SCALE)),
        fx(FX_SCALE),
        &prev,
    );
    assert_eq!(next.pdf_fwd.v, FX_SCALE / 4);
    assert_eq!(prev.convert_density(fx(FX_SCALE), &next).v, FX_SCALE / 4);
    // receiver normal orthogonal to the connection: cosine kills the density
    let side = Vertex::create_surface_interaction(
        hit_at(v3(2 * FX_SCALE, 0, 0), v3(0, 0, FX_SCALE), Some(diffuse_bsdf())),
        &Spectrum::splat(fx(FX_SCALE)),
        fx(FX_SCALE),
        &prev,
    );
    assert_eq!(side.pdf_fwd.v, 0);
}

#[test]
fn convert_density_off_surface() {
    // a receiver without a normal skips the cosine: pdf / d^2
    let prev = camera_vertex_at(v3(0, 0, 0));
    let next = Vertex::create_surface_interaction(
        hit_at(v3(2 * FX_SCALE, 0, 0), v3(0, 0, 0), Some(diffuse_bsdf())),
        &Spectrum::splat(fx(FX_SCALE)),
        fx(FX_SCALE),
        &prev,
    );
    assert_eq!(next.pdf_fwd.v, FX_SCALE / 4);
}

#[test]
fn convert_density_infinite_light_passthrough() {
    let prev = camera_vertex_at(v3(0, 0, 0));
    let flags = LightFlags { infinite: true, ..no_flags() };
    let ray = Ray { o: v3(9 * FX_SCALE, 0, 0), d: v3(0, 0, FX_SCALE), t_max: fx(i64::MAX), time: fx(0) };
    let inf: Vertex<LobeBsdf> = Vertex::create_light(
        flags,
        &ray,
        &v3(0, 0, FX_SCALE),
        &Spectrum::splat(fx(FX_SCALE)),
        fx(FX_SCALE),
    );
    assert!(inf.is_infinite_light());
    assert_eq!(prev.convert_density(fx(12345), &inf).v, 12345);
}

#[test]
fn convert_density_coincident_is_zero() {
    let prev = camera_vertex_at(v3(7 * FX_SCALE, 0, 0));
    let next = camera_vertex_at(v3(7 * FX_SCALE, 0, 0));
    assert_eq!(prev.convert_density(fx(FX_SCALE), &next).v, 0);
}

#[test]
fn connectible_camera_and_medium() {
    let cam = camera_vertex_at(v3(0, 0, 0));
    assert!(cam.is_connectible());
    let med: Vertex<LobeBsdf> = Vertex::new(
        VertexType::Medium,
        EndpointInteraction::new(&v3(0, 0, 0), fx(0)),
        &Spectrum::splat(fx(FX_SCALE)),
    );
    assert!(med.is_connectible());
}

#[test]
fn connectible_light_depends_on_delta_direction() {
    let ray = Ray { o: v3(0, 0, 0), d: v3(0, 0, FX_SCALE), t_max: fx(i64::MAX), time: fx(0) };
    let nl = v3(0, 0, FX_SCALE);
    let le = Spectrum::splat(fx(FX_SCALE));
    let plain: Vertex<LobeBsdf> = Vertex::create_light(no_flags(), &ray, &nl, &le, fx(0));
    assert!(plain.is_connectible());
    let delta_dir = LightFlags { delta_direction: true, ..no_flags() };
    let delta: Vertex<LobeBsdf> = Vertex::create_light(delta_dir, &ray, &nl, &le, fx(0));
    assert!(!delta.is_connectible());
    assert!(delta.is_infinite_light());
}

#[test]
fn connectible_surface_needs_non_specular_lobe() {
    let prev = camera_vertex_at(v3(0, 0, 0));
    let beta = Spectrum::splat(fx(FX_SCALE));
    let mirror = LobeBsdf { diffuse_lobes: 0, glossy_lobes: 0, specular_lobes: 1, ..diffuse_bsdf() };
    let v_mirror = Vertex::create_surface_interaction(
        hit_at(v3(FX_SCALE, 0, 0), v3(FX_SCALE, 0, 0), Some(mirror)),
        &beta,
        fx(FX_SCALE),
        &prev,
    );
    assert!(!v_mirror.is_connectible());
    let v_diffuse = Vertex::create_surface_interaction(
        hit_at(v3(FX_SCALE, 0, 0), v3(FX_SCALE, 0, 0), Some(diffuse_bsdf())),
        &beta,
        fx(FX_SCALE),
        &prev,
    );
    assert!(v_diffuse.is_connectible());
    // lobe counting respects the mask
    assert_eq!(diffuse_bsdf().num_components(BxdfFlags::all()), 1);
    assert_eq!(diffuse_bsdf().num_components(BxdfFlags::non_specular()), 1);
    assert_eq!(mirror.num_components(BxdfFlags::non_specular()), 0);
    assert_eq!(mirror.num_components(BxdfFlags::all()), 1);
}

#[test]
fn escape_vertex_carries_no_light_record() {
    // the synthesised endpoint of an escaped ray has no light behind it, so
    // the flag checks that read a light's capabilities stay false
    let ray = Ray { o: v3(0, 0, 0), d: v3(0, 0, FX_SCALE), t_max: fx(i64::MAX), time: fx(0) };
    let esc: Vertex<LobeBsdf> = Vertex::create_light_interaction(
        EndpointInteraction::new_ray(&ray),
        &Spectrum::splat(fx(FX_SCALE)),
        fx(FX_SCALE / 2),
    );
    assert!(matches!(esc.vertex_type, VertexType::Light));
    assert!(!esc.is_infinite_light());
    assert!(!esc.is_connectible());
    assert_eq!(esc.pdf_fwd.v, FX_SCALE / 2);
}

#[test]
fn accessors_default_per_variant() {
    let med: Vertex<LobeBsdf> = Vertex::new(
        VertexType::Medium,
        EndpointInteraction::new(&v3(3 * FX_SCALE, 0, 0), fx(5)),
        &Spectrum::splat(fx(FX_SCALE)),
    );
    // a medium vertex has no position, time or normal of its own
    assert_eq!(med.p(), v3(0, 0, 0));
    assert_eq!(med.time().v, 0);
    assert_eq!(med.ng(), v3(0, 0, 0));
    assert!(!med.is_on_surface());
    let cam = camera_vertex_at(v3(3 * FX_SCALE, 0, 0));
    assert_eq!(cam.p(), v3(3 * FX_SCALE, 0, 0));
    assert!(!cam.is_on_surface());
}

#[test]
fn escape_endpoint_faces_back_along_ray() {
    let ray = Ray { o: v3(FX_SCALE, 0, 0), d: v3(0, 0, FX_SCALE), t_max: fx(i64::MAX), time: fx(2) };
    let ei = EndpointInteraction::new_ray(&ray);
    assert_eq!(ei.get_n(), v3(0, 0, -FX_SCALE));
    assert_eq!(ei.get_p(), v3(FX_SCALE, 0, 0));
    assert_eq!(ei.get_time().v, 2);
    assert!(ei.is_surface_interaction());
    assert!(!ei.is_medium_interaction());
    let bare = EndpointInteraction::new_camera(&ray);
    assert!(bare.is_medium_interaction());
    assert_eq!(bare.get_wo(), v3(0, 0, 0));
    assert_eq!(bare.get_p_error(), v3(0, 0, 0));
}

#[test]
fn spawn_ray_offsets_along_normal() {
    let hit = SurfaceHit::<LobeBsdf> {
        p: v3(0, 0, 0),
        time: fx(3),
        p_error: v3(0, 0, FX_SCALE / 2),
        wo: v3(0, 0, FX_SCALE),
        n: v3(0, 0, FX_SCALE),
        shading_n: v3(0, 0, FX_SCALE),
        bsdf: None,
    };
    let up = hit.spawn_ray(&v3(0, 0, FX_SCALE));
    assert_eq!(up.o, v3(0, 0, FX_SCALE / 2));
    assert_eq!(up.d, v3(0, 0, FX_SCALE));
    assert_eq!(up.time.v, 3);
    assert_eq!(up.t_max.v, i64::MAX);
    let down = hit.spawn_ray(&v3(0, 0, -FX_SCALE));
    assert_eq!(down.o, v3(0, 0, -FX_SCALE / 2));
}

#[test]
fn shading_normal_correction_values() {
    let hit = hit_at(v3(0, 0, 0), v3(0, 0, FX_SCALE), None);
    let wo = v3(0, 0, FX_SCALE);
    let wi = v3(0, FX_SCALE, 0);
    // radiance transport never corrects
    assert_eq!(correct_shading_normal(&hit, &wo, &wi, TransportMode::Radiance).v, FX_SCALE);
    // importance transport with a vanishing denominator clamps to zero
    assert_eq!(correct_shading_normal(&hit, &wo, &wi, TransportMode::Importance).v, 0);
    // an asymmetric shading normal doubles the numerator
    let mut skew = hit_at(v3(0, 0, 0), v3(FX_SCALE, 0, FX_SCALE), None);
    skew.shading_n = v3(FX_SCALE, 0, 2 * FX_SCALE);
    let wi2 = v3(FX_SCALE, 0, 0);
    assert_eq!(correct_shading_normal(&skew, &wo, &wi2, TransportMode::Importance).v, 2 * FX_SCALE);
}
