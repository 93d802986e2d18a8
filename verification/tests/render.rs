use pathtracer::hittables::{Hit, Hittable, HittableVec, Interval};
use pathtracer::materials::Material;
use pathtracer::render::{Camera, CameraBuilder, ConfigError, Frame, Probe, Ray};
use pathtracer::scalar::Scalar;
use pathtracer::vector::Vec3;

fn s(x: f32) -> Scalar {
    Scalar::from_bits(x.to_bits())
}

fn v(x: f32, y: f32, z: f32) -> Vec3 {
    Vec3::new(s(x), s(y), s(z))
}

fn frame() -> Frame {
    Frame {
        pixel00_loc: v(-9.0, 9.0, 9.0),
        pixel_delta_u: v(0.2, 0.0, 0.0),
        pixel_delta_v: v(0.0, -0.2, 0.0),
        defocus_disk_u: v(0.5, 0.0, 0.0),
        defocus_disk_v: v(0.0, 0.5, 0.0),
    }
}

fn camera() -> Camera {
    Camera::builder(100, 50).background(v(0.7, 0.8, 1.0)).build(frame()).expect("the configuration is sound")
}

/// An object that is met at `t = 1` by every ray, and counts how it was asked.
struct Everywhere {
    material: Material,
}

impl Hittable for Everywhere {
    fn hit(&self, _ray: &Ray, ray_t: Interval) -> Option<Hit> {
        assert_eq!(ray_t, Interval::new(s(0.001), s(f32::INFINITY)));
        Some(Hit::new(v(0.0, 0.0, 1.0), v(0.0, 0.0, -1.0), s(-1.0), s(1.0), self.material))
    }
}

/// An object that must not be asked.
struct Untouchable;

impl Hittable for Untouchable {
    fn hit(&self, _ray: &Ray, _ray_t: Interval) -> Option<Hit> {
        panic!("the scene was looked at");
    }
}

fn forward() -> Ray {
    Ray::new(v(0.0, 0.0, 0.0), v(0.0, 0.0, 1.0))
}

#[test]
fn ray_keeps_origin_and_direction() {
    let ray = Ray::new(v(1.0, 2.0, 3.0), v(0.0, 0.0, -1.0));
    assert_eq!(ray.origin(), v(1.0, 2.0, 3.0));
    assert_eq!(ray.dir(), v(0.0, 0.0, -1.0));
}

#[test]
fn builder_starts_from_the_defaults() {
    let b = Camera::builder(640, 480);
    assert_eq!(b.image_width, 640);
    assert_eq!(b.image_height, 480);
    assert_eq!(b.samples_per_pixel, 10);
    assert_eq!(b.max_depth, 10);
    assert_eq!(b.background, v(1.0, 1.0, 1.0));
    assert_eq!(b.v_fov, s(90.0));
    assert_eq!(b.look_from, v(0.0, 0.0, -1.0));
    assert_eq!(b.look_at, v(0.0, 0.0, 0.0));
    assert_eq!(b.vup, v(0.0, 1.0, 0.0));
    assert_eq!(b.defocus_angle, s(0.0));
    assert_eq!(b.focus_dist, s(10.0));
}

#[test]
fn builder_overrides_one_setting_at_a_time() {
    let base = Camera::builder(640, 480);
    assert_eq!(base.samples(50), CameraBuilder { samples_per_pixel: 50, ..base });
    assert_eq!(base.max_depth(7), CameraBuilder { max_depth: 7, ..base });
    assert_eq!(base.background(v(0.0, 0.0, 0.0)), CameraBuilder { background: v(0.0, 0.0, 0.0), ..base });
    assert_eq!(base.vert_fov(s(20.0)), CameraBuilder { v_fov: s(20.0), ..base });
    assert_eq!(base.look_from(v(-2.0, 2.0, 1.0)), CameraBuilder { look_from: v(-2.0, 2.0, 1.0), ..base });
    assert_eq!(base.look_at(v(0.0, 0.0, -1.0)), CameraBuilder { look_at: v(0.0, 0.0, -1.0), ..base });
    assert_eq!(base.look_up(v(1.0, 0.0, 0.0)), CameraBuilder { vup: v(1.0, 0.0, 0.0), ..base });
    assert_eq!(base.defocus_angle(s(3.0)), CameraBuilder { defocus_angle: s(3.0), ..base });
    assert_eq!(base.focus_dist(s(3.4)), CameraBuilder { focus_dist: s(3.4), ..base });
}

#[test]
fn builder_chains() {
    let b = Camera::builder(8, 8).samples(50).max_depth(50).vert_fov(s(40.0)).defocus_angle(s(0.0));
    assert_eq!(b.samples_per_pixel, 50);
    assert_eq!(b.max_depth, 50);
    assert_eq!(b.v_fov, s(40.0));
    assert_eq!(b.image_width, 8);
}

#[test]
fn build_takes_over_settings_and_frame() {
    let camera = Camera::builder(100, 50)
        .samples(3)
        .max_depth(4)
        .background(v(0.1, 0.2, 0.3))
        .look_from(v(1.0, 2.0, 3.0))
        .defocus_angle(s(0.6))
        .build(frame())
        .expect("the configuration is sound");
    assert_eq!(
        camera,
        Camera {
            samples_per_pixel: 3,
            max_depth: 4,
            background: v(0.1, 0.2, 0.3),
            center: v(1.0, 2.0, 3.0),
            pixel00_loc: v(-9.0, 9.0, 9.0),
            pixel_delta_u: v(0.2, 0.0, 0.0),
            pixel_delta_v: v(0.0, -0.2, 0.0),
            defocus_angle: s(0.6),
            defocus_disk_u: v(0.5, 0.0, 0.0),
            defocus_disk_v: v(0.0, 0.5, 0.0),
        }
    );
}

#[test]
fn build_refuses_an_image_without_pixels() {
    assert_eq!(Camera::builder(0, 50).build(frame()), Err(ConfigError::EmptyImage));
    assert_eq!(Camera::builder(100, 0).build(frame()), Err(ConfigError::EmptyImage));
    assert_eq!(Camera::builder(0, 0).build(frame()), Err(ConfigError::EmptyImage));
    let mut broken = frame();
    broken.pixel_delta_u = v(f32::NAN, 0.0, 0.0);
    assert_eq!(Camera::builder(0, 50).build(broken), Err(ConfigError::EmptyImage));
}

#[test]
fn build_refuses_a_frame_that_is_not_finite() {
    let mut broken = frame();
    broken.pixel_delta_u = v(f32::NAN, 0.0, 0.0);
    assert_eq!(Camera::builder(100, 50).build(broken), Err(ConfigError::DegenerateFrame));
    let mut broken = frame();
    broken.pixel00_loc = v(0.0, f32::INFINITY, 0.0);
    assert_eq!(Camera::builder(100, 50).build(broken), Err(ConfigError::DegenerateFrame));
    let mut broken = frame();
    broken.pixel_delta_v = v(0.0, 0.0, f32::NEG_INFINITY);
    assert_eq!(Camera::builder(100, 50).build(broken), Err(ConfigError::DegenerateFrame));
    let mut broken = frame();
    broken.defocus_disk_u = v(f32::NAN, f32::NAN, f32::NAN);
    assert_eq!(Camera::builder(100, 50).build(broken), Err(ConfigError::DegenerateFrame));
    let mut broken = frame();
    broken.defocus_disk_v = v(0.0, f32::NAN, 0.0);
    assert_eq!(Camera::builder(100, 50).build(broken), Err(ConfigError::DegenerateFrame));
    assert!(!broken.is_finite());
    assert!(frame().is_finite());
}

#[test]
fn rays_start_at_the_centre_of_a_closed_lens() {
    let closed = Camera::builder(100, 50).look_from(v(1.0, 2.0, 3.0)).build(frame()).unwrap();
    assert!(!closed.uses_lens());
    assert_eq!(closed.ray_origin(v(9.0, 9.0, 9.0)), v(1.0, 2.0, 3.0));
    for angle in [-0.0, -3.0, f32::NAN] {
        let camera = Camera::builder(100, 50).defocus_angle(s(angle)).build(frame()).unwrap();
        assert!(!camera.uses_lens());
        assert_eq!(camera.ray_origin(v(9.0, 9.0, 9.0)), v(0.0, 0.0, -1.0));
    }
}

#[test]
fn rays_start_on_an_open_lens() {
    let open = Camera::builder(100, 50).defocus_angle(s(3.0)).build(frame()).unwrap();
    assert!(open.uses_lens());
    assert_eq!(open.ray_origin(v(9.0, 9.0, 9.0)), v(9.0, 9.0, 9.0));
}

#[test]
fn an_exhausted_path_adds_nothing() {
    let lit = Everywhere { material: Material::new_light(s(15.0), s(15.0), s(15.0)) };
    let found = lit.hit(&forward(), Interval::new(s(0.001), s(f32::INFINITY)));
    assert_eq!(camera().resolve(0, found), Probe::Ended { radiance: v(0.0, 0.0, 0.0) });
    assert_eq!(camera().resolve(0, None), Probe::Ended { radiance: v(0.0, 0.0, 0.0) });
}

#[test]
fn an_exhausted_path_does_not_look_at_the_scene() {
    assert_eq!(camera().probe(&forward(), 0, &Untouchable), Probe::Ended { radiance: v(0.0, 0.0, 0.0) });
    let lit = Everywhere { material: Material::new_light(s(15.0), s(15.0), s(15.0)) };
    assert_eq!(camera().probe(&forward(), 0, &lit), Probe::Ended { radiance: v(0.0, 0.0, 0.0) });
}

#[test]
fn a_path_that_meets_nothing_adds_the_background() {
    let empty: HittableVec = vec![];
    assert_eq!(camera().probe(&forward(), 5, &empty), Probe::Ended { radiance: v(0.7, 0.8, 1.0) });
    assert_eq!(camera().resolve(1, None), Probe::Ended { radiance: v(0.7, 0.8, 1.0) });
}

#[test]
fn a_path_that_meets_a_surface_stands_on_it_with_one_step_fewer() {
    let lit = Everywhere { material: Material::new_light(s(15.0), s(14.0), s(13.0)) };
    let expected = lit.hit(&forward(), Interval::new(s(0.001), s(f32::INFINITY))).unwrap();
    assert_eq!(
        camera().probe(&forward(), 5, &lit),
        Probe::Surface { hit: expected, emitted: v(15.0, 14.0, 13.0), depth_left: 4 }
    );
    let dull = Everywhere { material: Material::new_lambertian(s(0.5), s(0.5), s(0.5)) };
    let expected = dull.hit(&forward(), Interval::new(s(0.001), s(f32::INFINITY))).unwrap();
    assert_eq!(
        camera().probe(&forward(), 1, &dull),
        Probe::Surface { hit: expected, emitted: v(0.0, 0.0, 0.0), depth_left: 0 }
    );
}
