use raymarcher::camera::Camera;
use raymarcher::math::{div_trunc, isqrt, SCALE};
use raymarcher::ray::{MarchSettings, Ray};
use raymarcher::renderer::{render, march_pixel, shade_pixel, Config};
use raymarcher::scene::{Combinator, Scene};
use raymarcher::shape::{Cube, SceneObject, Shape, Sphere, FAR};
use raymarcher::vec3::Vec3;
use raymarcher::{max, min};

fn unit_sphere() -> Sphere {
    Sphere { center: Vec3::new(0, 0, 0), radius: SCALE }
}

fn settings(origin: Vec3, direction: Vec3, steps: i32) -> MarchSettings {
    MarchSettings {
        origin,
        direction,
        max_dist: 4_096_000,
        min_dist: 1,
        steps,
        light_position: Vec3::new(8192, 8192, 28672),
    }
}

fn test_config(glow_amount: i64) -> Config {
    Config {
        glow_amount,
        object_color: Vec3::new(0, 0, 3686),
        glow_color: Vec3::new(4096, 0, 4096),
        steps: 32,
        image_width: 4,
        image_height: 4,
        camera_position: Vec3::new(0, 0, -12288),
    }
}

fn scene_with(objects: Vec<SceneObject>) -> Scene {
    let mut scene = Scene::default();
    for o in objects {
        scene.add(o);
    }
    scene
}

#[test]
fn sphere_sdf_reports_exact_signed_distances() {
    let s = unit_sphere();
    assert_eq!(s.get_signed_distance(Vec3::new(0, 0, 0)), -4096);
    assert_eq!(s.get_signed_distance(Vec3::new(8192, 0, 0)), 4096);
    assert_eq!(s.get_signed_distance(Vec3::new(4096, 0, 0)), 0);
}

#[test]
fn cube_sdf_exact_outside_and_zero_inside() {
    let c = Cube { center: Vec3::new(0, 0, 0), size: Vec3::new(4096, 4096, 4096) };
    assert_eq!(c.get_signed_distance(Vec3::new(8192, 0, 0)), 4096);
    assert_eq!(c.get_signed_distance(Vec3::new(0, 0, 0)), 0);
    assert_eq!(c.get_signed_distance(Vec3::new(8192, 8192, 0)), 5792);
}

#[test]
fn scene_union_takes_minimum() {
    let a = Sphere { center: Vec3::new(0, 0, 0), radius: 4096 };
    let b = Sphere { center: Vec3::new(8192, 0, 0), radius: 2048 };
    let scene = scene_with(vec![SceneObject::Sphere(a), SceneObject::Sphere(b)]);
    for p in [
        Vec3::new(4096, 0, 0),
        Vec3::new(8192, 0, 0),
        Vec3::new(0, 0, -61440),
        Vec3::new(-4096, 4096, 4096),
    ] {
        let d = scene.get_signed_distance(p);
        let da = a.get_signed_distance(p);
        let db = b.get_signed_distance(p);
        assert_eq!(d, da.min(db));
    }
    assert_eq!(scene.get_signed_distance(Vec3::new(8192, 0, 0)), -2048);
}

#[test]
fn scene_max_combinator_takes_maximum() {
    let a = Sphere { center: Vec3::new(0, 0, 0), radius: 4096 };
    let b = Sphere { center: Vec3::new(8192, 0, 0), radius: 2048 };
    let mut scene = Scene::new(Combinator::Max);
    scene.add(SceneObject::Sphere(a));
    scene.add(SceneObject::Sphere(b));
    assert_eq!(scene.get_signed_distance(Vec3::new(8192, 0, 0)), 4096);
}

#[test]
fn empty_scene_is_far_everywhere() {
    let scene = Scene::default();
    assert_eq!(scene.get_signed_distance(Vec3::new(0, 0, 0)), FAR);
    assert_eq!(scene.get_signed_distance(Vec3::new(-999_999, 123, 456)), FAR);
}

#[test]
fn march_hits_sphere_dead_on() {
    let s = Sphere { center: Vec3::new(0, 0, 0), radius: 2048 };
    let ms = settings(Vec3::new(0, 0, -61440), Vec3::new(0, 0, 4096), 32);
    let r = Ray::march(&ms, &s);
    assert!(r.hit);
    assert_eq!(r.end_position, Vec3::new(0, 0, -2048));
    assert_eq!(r.total_distance, 59392);
    // the end position lies within min_dist of the surface along the ray
    assert!(s.get_signed_distance(r.end_position).abs() < 1);
    assert_eq!(r.start_position, ms.origin);
    assert_eq!(r.direction, ms.direction);
}

#[test]
fn march_misses_outside_silhouette() {
    let s = Sphere { center: Vec3::new(0, 0, 0), radius: 2048 };
    let dir = Vec3::new(8192, 0, 16384).normalize();
    assert_eq!(dir, Vec3::new(1831, 0, 3663));
    let ms = settings(Vec3::new(0, 0, -61440), dir, 32);
    let r = Ray::march(&ms, &s);
    assert!(!r.hit);
    assert_eq!(r.total_distance, 4_096_000);
    assert_eq!(r.end_position, Vec3::new(1831, 0, -57777));
    assert_eq!(r.diffuse_reflection, 0);
    assert_eq!(r.glow_distance, 25776);
}

#[test]
fn march_is_deterministic() {
    let a = Sphere { center: Vec3::new(0, 0, 0), radius: 4096 };
    let b = Sphere { center: Vec3::new(8192, 0, 0), radius: 2048 };
    let scene = scene_with(vec![SceneObject::Sphere(a), SceneObject::Sphere(b)]);
    let ms = settings(Vec3::new(0, 0, -61440), Vec3::new(137, 59, 4093), 32);
    let r1 = Ray::march(&ms, &scene);
    let r2 = Ray::march(&ms, &scene);
    assert_eq!(r1, r2);
}

#[test]
fn closer_miss_glows_brighter() {
    let config = test_config(63_000);
    let scene = scene_with(vec![SceneObject::Sphere(unit_sphere())]);
    // pixel 1 passes closer to the sphere than corner pixel 0
    let far_px = shade_pixel(&config, &scene, 0);
    let near_px = shade_pixel(&config, &scene, 1);
    assert!(!march_pixel(&config, &scene, 0).hit);
    assert!(!march_pixel(&config, &scene, 1).hit);
    assert_eq!(far_px.0, 22);
    assert_eq!(near_px.0, 255);
    assert!(near_px.0 >= far_px.0);
}

#[test]
fn render_buffer_shape_and_alpha() {
    let config = test_config(2048);
    let scene = scene_with(vec![SceneObject::Sphere(unit_sphere())]);
    let data = render(&config, &scene);
    assert_eq!(data.len(), 4 * 4 * 4);
    for i in 0..16 {
        assert_eq!(data[4 * i + 3], 255);
    }
}

#[test]
fn render_empty_scene_is_all_background() {
    let config = test_config(2048);
    let scene = Scene::default();
    let data = render(&config, &scene);
    assert_eq!(data.len(), 64);
    for i in 0..16 {
        // every ray misses; the glow tracker never comes near, so the glow
        // clamps to zero and the pixel is black
        assert_eq!(&data[4 * i..4 * i + 4], &[0, 0, 0, 255]);
    }
}

#[test]
fn end_to_end_four_by_four_frame() {
    let config = test_config(131_072);
    let scene = scene_with(vec![SceneObject::Sphere(unit_sphere())]);
    let data = render(&config, &scene);
    assert_eq!(data.len(), 64);
    // the center pixel's ray runs down the axis and hits the sphere
    let center = 2 + 2 * 4;
    assert!(march_pixel(&config, &scene, center).hit);
    assert_eq!(&data[4 * center..4 * center + 4], &[0, 0, 216, 255]);
    // the corner rays diverge past the silhouette and only glow
    for corner in [0usize, 3, 12, 15] {
        assert!(!march_pixel(&config, &scene, corner).hit);
        assert_eq!(&data[4 * corner..4 * corner + 4], &[255, 0, 255, 255]);
    }
}

#[test]
fn render_matches_per_pixel_shading() {
    let config = test_config(63_000);
    let scene = scene_with(vec![SceneObject::Sphere(unit_sphere())]);
    let data = render(&config, &scene);
    let mut saw_nonzero = false;
    for i in 0..16 {
        let (r, g, b, a) = shade_pixel(&config, &scene, i);
        assert_eq!(&data[4 * i..4 * i + 4], &[r, g, b, a]);
        if r != 0 || g != 0 || b != 0 {
            saw_nonzero = true;
        }
    }
    assert!(saw_nonzero);
}

#[test]
fn camera_viewport_geometry() {
    let mut cam = Camera::new(8192, 6963, 4096);
    assert_eq!(cam.viewport_width, div_trunc(6963 * 8192, SCALE));
    assert_eq!(cam.viewport_width, 13926);
    assert_eq!(cam.horizontal(), Vec3::new(13926, 0, 0));
    assert_eq!(cam.vertical(), Vec3::new(0, 8192, 0));
    assert_eq!(cam.lower_left(), Vec3::new(-6963, -4096, -4096));
    cam.origin = Vec3::new(0, 0, 4096);
    assert_eq!(cam.lower_left(), Vec3::new(-6963, -4096, 0));
}

#[test]
fn componentwise_max_and_min() {
    let a = Vec3::new(1, -5, 3);
    let b = Vec3::new(2, -7, 3);
    assert_eq!(max(a, b), Vec3::new(2, -5, 3));
    assert_eq!(min(a, b), Vec3::new(1, -7, 3));
}

#[test]
fn integer_square_root_is_exact() {
    assert_eq!(isqrt(0), 0);
    assert_eq!(isqrt(15), 3);
    assert_eq!(isqrt(16), 4);
    assert_eq!(isqrt(u64::MAX as u128), 4_294_967_295);
    assert_eq!(isqrt((u64::MAX as u128) * (u64::MAX as u128)), u64::MAX);
}

#[test]
fn division_truncates_toward_zero() {
    assert_eq!(div_trunc(7, 2), 3);
    assert_eq!(div_trunc(-7, 2), -3);
    assert_eq!(div_trunc(-1, 4096), 0);
}

#[test]
fn normalize_gives_unit_fixed_point_length() {
    assert_eq!(Vec3::new(3000, 4000, 0).normalize(), Vec3::new(2457, 3276, 0));
    assert_eq!(Vec3::new(0, 0, 0).normalize(), Vec3::new(0, 0, 0));
    assert_eq!(Vec3::new(0, 0, 123).normalize(), Vec3::new(0, 0, 4096));
}

#[test]
fn world_space_walks_along_the_ray() {
    let r = Ray {
        total_distance: 0,
        min_distance: 0,
        start_position: Vec3::new(0, 0, -4096),
        end_position: Vec3::new(0, 0, 0),
        direction: Vec3::new(0, 0, 4096),
        hit: false,
        diffuse_reflection: 0,
        glow_distance: 0,
    };
    assert_eq!(r.world_space(8192), Vec3::new(0, 0, 4096));
    assert_eq!(r.world_space(-4096), Vec3::new(0, 0, -8192));
}

#[test]
fn default_config_matches_documentation() {
    let c = Config::default();
    assert_eq!(c.glow_amount, 2048);
    assert_eq!(c.object_color, Vec3::new(0, 0, 3686));
    assert_eq!(c.glow_color, Vec3::new(4096, 0, 4096));
    assert_eq!(c.steps, 32);
    assert_eq!(c.image_width, 1280);
    assert_eq!(c.image_height, 720);
    assert_eq!(c.camera_position, Vec3::new(0, 0, -61440));
}
