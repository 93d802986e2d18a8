//! Rays, the camera and the control of one light path.
use crate::hittables::{Hit, Hittable, Interval};
use crate::scalar::Scalar;
use crate::vector::{Color3, Point3, Vec3};
use vstd::prelude::*;

verus! {

/// A half-line through space: the points `origin + t * dir`.
#[derive(Clone, Copy, Debug, PartialEq, Eq, Structural)]
pub struct Ray {
    pub origin: Point3,
    pub dir: Vec3,
}

impl Ray {
    pub fn new(origin: Point3, dir: Vec3) -> (r: Ray)
        ensures
            r == (Ray { origin, dir }),
    {
        Ray { origin, dir }
    }

    pub fn origin(&self) -> (r: Point3)
        ensures
            r == self.origin,
    {
        self.origin
    }

    pub fn dir(&self) -> (r: Vec3)
        ensures
            r == self.dir,
    {
        self.dir
    }
}

/// Why a configuration makes no camera.
#[derive(Clone, Copy, Debug, PartialEq, Eq, Structural)]
pub enum ConfigError {
    /// The image has no columns or no rows.
    EmptyImage,
    /// The viewing frame derived from the configuration is not finite: the
    /// view direction and the up vector are collinear, the camera looks at
    /// its own position, or an angle or distance is out of range.
    DegenerateFrame,
}

/// The viewing frame that follows from a configuration: where the first
/// pixel lies, how far the next one is to the right and downwards, and the
/// two radii that span the lens.
#[derive(Clone, Copy, Debug, PartialEq, Eq, Structural)]
pub struct Frame {
    pub pixel00_loc: Point3,
    pub pixel_delta_u: Vec3,
    pub pixel_delta_v: Vec3,
    pub defocus_disk_u: Vec3,
    pub defocus_disk_v: Vec3,
}

impl Frame {
    /// Every coordinate of the frame is finite.
    pub open spec fn is_finite_spec(self) -> bool {
        &&& self.pixel00_loc.is_finite_spec()
        &&& self.pixel_delta_u.is_finite_spec()
        &&& self.pixel_delta_v.is_finite_spec()
        &&& self.defocus_disk_u.is_finite_spec()
        &&& self.defocus_disk_v.is_finite_spec()
    }

    /// Whether every coordinate of the frame is finite.
    pub fn is_finite(&self) -> (r: bool)
        ensures
            r == self.is_finite_spec(),
    {
        self.pixel00_loc.is_finite() && self.pixel_delta_u.is_finite() && self.pixel_delta_v.is_finite()
            && self.defocus_disk_u.is_finite() && self.defocus_disk_v.is_finite()
    }
}

/// A camera, fixed for the length of a render.
#[derive(Clone, Copy, Debug, PartialEq, Eq, Structural)]
pub struct Camera {
    pub samples_per_pixel: u32,
    pub max_depth: u32,
    pub background: Color3,
    pub center: Point3,
    pub pixel00_loc: Point3,
    pub pixel_delta_u: Vec3,
    pub pixel_delta_v: Vec3,
    pub defocus_angle: Scalar,
    pub defocus_disk_u: Vec3,
    pub defocus_disk_v: Vec3,
}

/// What became of a light path at one step.
#[derive(Clone, Copy, Debug, PartialEq, Eq, Structural)]
pub enum Probe {
    /// The path is over and adds `radiance`.
    Ended { radiance: Color3 },
    /// The path met a surface that emits `emitted`. Whatever the surface
    /// scatters may be followed for `depth_left` further steps.
    Surface { hit: Hit, emitted: Color3, depth_left: u32 },
}

impl Camera {
    /// The range in which a path looks for the next surface: from a little
    /// off the surface it left, so that it does not meet that surface again,
    /// to infinity.
    pub open spec fn search_window() -> Interval {
        Interval { min: Scalar { bits: 0x3a83_126f }, max: Scalar::infinity_spec() }
    }

    /// The configuration from which `builder` starts.
    pub open spec fn defaults(image_width: u32, image_height: u32) -> CameraBuilder {
        let zero = Scalar::zero_spec();
        let one = Scalar::one_spec();
        CameraBuilder {
            image_width,
            image_height,
            samples_per_pixel: 10,
            max_depth: 10,
            background: Vec3 { x: one, y: one, z: one },
            v_fov: Scalar { bits: 0x42b4_0000 },
            look_from: Vec3 { x: zero, y: zero, z: one.neg_spec() },
            look_at: Vec3 { x: zero, y: zero, z: zero },
            vup: Vec3 { x: zero, y: one, z: zero },
            defocus_angle: zero,
            focus_dist: Scalar { bits: 0x4120_0000 },
        }
    }

    /// The camera that a configuration and the frame derived from it make.
    pub open spec fn new_spec(builder: CameraBuilder, frame: Frame) -> Camera {
        Camera {
            samples_per_pixel: builder.samples_per_pixel,
            max_depth: builder.max_depth,
            background: builder.background,
            center: builder.look_from,
            pixel00_loc: frame.pixel00_loc,
            pixel_delta_u: frame.pixel_delta_u,
            pixel_delta_v: frame.pixel_delta_v,
            defocus_angle: builder.defocus_angle,
            defocus_disk_u: frame.defocus_disk_u,
            defocus_disk_v: frame.defocus_disk_v,
        }
    }

    /// Rays start on the lens rather than at the centre where the lens has
    /// an opening.
    pub open spec fn uses_lens_spec(self) -> bool {
        Scalar::zero_spec().lt_spec(self.defocus_angle)
    }

    /// What becomes of a path that may take `depth` more steps and found
    /// `found` in the scene. With no step left the path ends and adds
    /// nothing, whatever the scene holds. A path that meets nothing ends and
    /// adds the background. Otherwise it stands on a surface, with one step
    /// fewer to go.
    pub open spec fn resolve_spec(self, depth: u32, found: Option<Hit>) -> Probe {
        if depth == 0 {
            Probe::Ended { radiance: Vec3::zero_spec() }
        } else {
            match found {
                None => Probe::Ended { radiance: self.background },
                Some(hit) => Probe::Surface {
                    hit,
                    emitted: hit.material.emitted_spec(),
                    depth_left: (depth - 1) as u32,
                },
            }
        }
    }

    /// A configuration for an image of the given size: ten samples per
    /// pixel, ten steps per path, a white background, a vertical field of
    /// view of ninety degrees, looking from one unit behind the origin at
    /// the origin with the y axis up, no lens opening, focus at ten units.
    pub fn builder(image_width: u32, image_height: u32) -> (b: CameraBuilder)
        ensures
            b == Self::defaults(image_width, image_height),
    {
        let zero = Scalar::zero();
        let one = Scalar::one();
        CameraBuilder {
            image_width,
            image_height,
            samples_per_pixel: 10,
            max_depth: 10,
            background: Vec3::new(one, one, one),
            v_fov: Scalar::from_bits(0x42b4_0000),
            look_from: Vec3::new(zero, zero, one.neg()),
            look_at: Vec3::new(zero, zero, zero),
            vup: Vec3::new(zero, one, zero),
            defocus_angle: zero,
            focus_dist: Scalar::from_bits(0x4120_0000),
        }
    }

    fn new(builder: CameraBuilder, frame: Frame) -> (c: Camera)
        ensures
            c == Self::new_spec(builder, frame),
    {
        Camera {
            samples_per_pixel: builder.samples_per_pixel,
            max_depth: builder.max_depth,
            background: builder.background,
            center: builder.look_from,
            pixel00_loc: frame.pixel00_loc,
            pixel_delta_u: frame.pixel_delta_u,
            pixel_delta_v: frame.pixel_delta_v,
            defocus_angle: builder.defocus_angle,
            defocus_disk_u: frame.defocus_disk_u,
            defocus_disk_v: frame.defocus_disk_v,
        }
    }

    /// Whether rays start on the lens rather than at the centre.
    pub fn uses_lens(&self) -> (r: bool)
        ensures
            r == self.uses_lens_spec(),
    {
        self.defocus_angle.gt(Scalar::zero())
    }

    /// Where a ray starts: at `lens_point`, a point drawn on the lens, where
    /// the lens has an opening, and at the centre otherwise.
    pub fn ray_origin(&self, lens_point: Point3) -> (origin: Point3)
        ensures
            origin == if self.uses_lens_spec() {
                lens_point
            } else {
                self.center
            },
    {
        if self.uses_lens() {
            lens_point
        } else {
            self.center
        }
    }

    /// What becomes of a path that may take `depth` more steps, given what
    /// it found in the scene.
    pub fn resolve(&self, depth: u32, found: Option<Hit>) -> (probe: Probe)
        ensures
            probe == self.resolve_spec(depth, found),
            depth == 0 ==> probe == (Probe::Ended { radiance: Vec3::zero_spec() }),
    {
        if depth == 0 {
            Probe::Ended { radiance: Vec3::zero() }
        } else {
            match found {
                None => Probe::Ended { radiance: self.background },
                Some(hit) => Probe::Surface { hit, emitted: hit.material.emitted(), depth_left: depth - 1 },
            }
        }
    }

    /// Sends `ray` into `world` for a path that may take `depth` more
    /// steps. With no step left the scene is not looked at and the path adds
    /// nothing. Otherwise the scene is searched from a little off the ray's
    /// origin to infinity, and what the scene reports of the ray for that
    /// range decides what becomes of the path.
    pub fn probe<H: Hittable>(&self, ray: &Ray, depth: u32, world: &H) -> (probe: Probe)
        ensures
            depth == 0 ==> probe == (Probe::Ended { radiance: Vec3::zero_spec() }),
            depth > 0 ==> exists|found: Option<Hit>| #[trigger]
                world.reports(*ray, Self::search_window(), found) && probe == self.resolve_spec(depth, found),
            depth > 0 ==> match probe {
                Probe::Ended { radiance } => radiance == self.background,
                Probe::Surface { hit, emitted, depth_left } => {
                    &&& Self::search_window().contains_spec(hit.t)
                    &&& emitted == hit.material.emitted_spec()
                    &&& depth_left == depth - 1
                },
            },
    {
        if depth == 0 {
            return self.resolve(depth, None);
        }
        let window = Interval::new(Scalar::from_bits(0x3a83_126f), Scalar::infinity());
        let found = world.hit(ray, window);
        assert(window == Self::search_window());
        assert(world.reports(*ray, Self::search_window(), found));
        self.resolve(depth, found)
    }
}

/// A camera in the making: the settings, each with its default, that
/// `build` turns into a camera.
#[derive(Clone, Copy, Debug, PartialEq, Eq, Structural)]
pub struct CameraBuilder {
    pub image_width: u32,
    pub image_height: u32,
    pub samples_per_pixel: u32,
    pub max_depth: u32,
    pub background: Color3,
    pub v_fov: Scalar,
    pub look_from: Point3,
    pub look_at: Point3,
    pub vup: Vec3,
    pub defocus_angle: Scalar,
    pub focus_dist: Scalar,
}

impl CameraBuilder {
    /// What `build` answers to a configuration and the frame derived from
    /// it.
    pub open spec fn build_spec(self, frame: Frame) -> Result<Camera, ConfigError> {
        if self.image_width == 0 || self.image_height == 0 {
            Err(ConfigError::EmptyImage)
        } else if !frame.is_finite_spec() {
            Err(ConfigError::DegenerateFrame)
        } else {
            Ok(Camera::new_spec(self, frame))
        }
    }

    /// Makes the camera. `frame` is the viewing frame derived from this
    /// configuration. An image without pixels is refused, and so is a frame
    /// that is not finite.
    pub fn build(self, frame: Frame) -> (r: Result<Camera, ConfigError>)
        ensures
            r == self.build_spec(frame),
    {
        if self.image_width == 0 || self.image_height == 0 {
            Err(ConfigError::EmptyImage)
        } else if !frame.is_finite() {
            Err(ConfigError::DegenerateFrame)
        } else {
            Ok(Camera::new(self, frame))
        }
    }

    /// Sets the number of paths averaged per pixel.
    pub fn samples(self, samples_per_pixel: u32) -> (b: CameraBuilder)
        ensures
            b == (CameraBuilder { samples_per_pixel, ..self }),
    {
        CameraBuilder { samples_per_pixel, ..self }
    }

    /// Sets the number of steps after which a path is given up.
    pub fn max_depth(self, max_depth: u32) -> (b: CameraBuilder)
        ensures
            b == (CameraBuilder { max_depth, ..self }),
    {
        CameraBuilder { max_depth, ..self }
    }

    /// Sets the radiance that reaches the camera from where nothing is.
    pub fn background(self, background: Color3) -> (b: CameraBuilder)
        ensures
            b == (CameraBuilder { background, ..self }),
    {
        CameraBuilder { background, ..self }
    }

    /// Sets the vertical field of view, in degrees.
    pub fn vert_fov(self, v_fov: Scalar) -> (b: CameraBuilder)
        ensures
            b == (CameraBuilder { v_fov, ..self }),
    {
        CameraBuilder { v_fov, ..self }
    }

    /// Sets the point the camera looks from.
    pub fn look_from(self, from: Point3) -> (b: CameraBuilder)
        ensures
            b == (CameraBuilder { look_from: from, ..self }),
    {
        CameraBuilder { look_from: from, ..self }
    }

    /// Sets the point the camera looks at.
    pub fn look_at(self, at: Point3) -> (b: CameraBuilder)
        ensures
            b == (CameraBuilder { look_at: at, ..self }),
    {
        CameraBuilder { look_at: at, ..self }
    }

    /// Sets the direction that is up in the image.
    pub fn look_up(self, vup: Vec3) -> (b: CameraBuilder)
        ensures
            b == (CameraBuilder { vup, ..self }),
    {
        CameraBuilder { vup, ..self }
    }

    /// Sets the angle of the cone under which the lens is seen from the
    /// plane of focus, in degrees. Zero closes the lens to a point.
    pub fn defocus_angle(self, angle: Scalar) -> (b: CameraBuilder)
        ensures
            b == (CameraBuilder { defocus_angle: angle, ..self }),
    {
        CameraBuilder { defocus_angle: angle, ..self }
    }

    /// Sets the distance from the camera to the plane of focus.
    pub fn focus_dist(self, dist: Scalar) -> (b: CameraBuilder)
        ensures
            b == (CameraBuilder { focus_dist: dist, ..self }),
    {
        CameraBuilder { focus_dist: dist, ..self }
    }
}

} // verus!
