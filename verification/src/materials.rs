//! What a surface does to light that reaches it.
use crate::hittables::Hit;
use crate::render::Ray;
use crate::scalar::Scalar;
use crate::vector::{Color3, Vec3};
use vstd::prelude::*;

verus! {

/// A surface, by what it does to the light that reaches it.
#[derive(Clone, Copy, Debug, PartialEq, Eq, Structural)]
pub enum Material {
    /// Scatters diffusely and tints by `albedo`.
    Lambertian { albedo: Color3 },
    /// Mirrors, blurred by `fuzz`, and tints by `albedo`.
    Metal { albedo: Color3, fuzz: Scalar },
    /// Refracts or reflects; clear.
    Dielectric { refract_idx: Scalar },
    /// Emits `emit` and scatters nothing.
    DiffuseLight { emit: Vec3 },
}

impl Material {
    /// The radiance that the surface emits by itself: that of a light, and
    /// none for the others.
    pub open spec fn emitted_spec(self) -> Color3 {
        match self {
            Material::DiffuseLight { emit } => emit,
            _ => Vec3::zero_spec(),
        }
    }

    pub fn new_lambertian(r: Scalar, g: Scalar, b: Scalar) -> (m: Material)
        ensures
            m == (Material::Lambertian { albedo: Vec3 { x: r, y: g, z: b } }),
    {
        Material::Lambertian { albedo: Vec3 { x: r, y: g, z: b } }
    }

    pub fn new_metal(r: Scalar, g: Scalar, b: Scalar, fuzz: Scalar) -> (m: Material)
        ensures
            m == (Material::Metal { albedo: Vec3 { x: r, y: g, z: b }, fuzz }),
    {
        Material::Metal { albedo: Vec3 { x: r, y: g, z: b }, fuzz }
    }

    pub fn new_dielectric(refract_idx: Scalar) -> (m: Material)
        ensures
            m == (Material::Dielectric { refract_idx }),
    {
        Material::Dielectric { refract_idx }
    }

    pub fn new_light(r: Scalar, g: Scalar, b: Scalar) -> (m: Material)
        ensures
            m == (Material::DiffuseLight { emit: Vec3 { x: r, y: g, z: b } }),
    {
        Material::DiffuseLight { emit: Vec3 { x: r, y: g, z: b } }
    }

    /// The radiance that the surface emits by itself.
    pub fn emitted(&self) -> (c: Color3)
        ensures
            c == self.emitted_spec(),
    {
        match self {
            Material::DiffuseLight { emit } => *emit,
            _ => Vec3::zero(),
        }
    }

    /// The blur of a mirror: `fuzz` itself under one, else one.
    pub open spec fn clamped_fuzz_spec(fuzz: Scalar) -> Scalar {
        if fuzz.lt_spec(Scalar::one_spec()) {
            fuzz
        } else {
            Scalar::one_spec()
        }
    }

    /// What leaves a surface that was met as `hit` records, given what was
    /// drawn and computed for this event.
    ///
    /// A diffuse surface always scatters, along `sample.diffuse`, or along
    /// the normal where that direction has vanished. A mirror scatters along
    /// `sample.glossy` where that direction leaves the surface, and absorbs
    /// otherwise. Glass always scatters: mirrored where the ray cannot
    /// refract or where the reflectance exceeds the draw, refracted
    /// otherwise. A light scatters nothing.
    pub open spec fn scatter_spec(hit: Hit, sample: ScatterSample) -> Option<Scattered> {
        match hit.material {
            Material::Lambertian { albedo } => Some(
                Scattered {
                    ray: Ray {
                        origin: hit.p,
                        dir: if sample.diffuse.near_zero_spec() {
                            hit.normal
                        } else {
                            sample.diffuse
                        },
                    },
                    attenuation: albedo,
                },
            ),
            Material::Metal { albedo, fuzz } => if Scalar::zero_spec().lt_spec(sample.glossy_cosine) {
                Some(Scattered { ray: Ray { origin: hit.p, dir: sample.glossy }, attenuation: albedo })
            } else {
                None
            },
            Material::Dielectric { refract_idx } => Some(
                Scattered {
                    ray: Ray {
                        origin: hit.p,
                        dir: if Self::reflects_spec(sample) {
                            sample.mirrored
                        } else {
                            sample.refracted
                        },
                    },
                    attenuation: Vec3::ones_spec(),
                },
            ),
            Material::DiffuseLight { emit } => None,
        }
    }

    /// Glass mirrors where the ray cannot refract (`bend` exceeds one) or
    /// where the reflectance exceeds the draw.
    pub open spec fn reflects_spec(sample: ScatterSample) -> bool {
        Scalar::one_spec().lt_spec(sample.bend) || sample.draw.lt_spec(sample.reflectance)
    }

    /// The ratio of the refractive indices that a ray crosses: `inverse`,
    /// the inverse of the surface's index, where the ray enters by the front
    /// face, and the index itself where it leaves from inside.
    pub fn refraction_ratio(front_face: bool, refract_idx: Scalar, inverse: Scalar) -> (r: Scalar)
        ensures
            r == if front_face {
                inverse
            } else {
                refract_idx
            },
    {
        if front_face {
            inverse
        } else {
            refract_idx
        }
    }

    /// The blur that a mirror of the given `fuzz` applies: at most one.
    pub fn clamped_fuzz(fuzz: Scalar) -> (r: Scalar)
        ensures
            r == Self::clamped_fuzz_spec(fuzz),
            r.le_spec(Scalar::one_spec()),
    {
        let one = Scalar::one();
        if fuzz.lt(one) {
            fuzz
        } else {
            one
        }
    }

    /// Decides what leaves the surface met at `hit`.
    pub fn scatter(hit: &Hit, sample: &ScatterSample) -> (r: Option<Scattered>)
        ensures
            r == Self::scatter_spec(*hit, *sample),
    {
        match hit.material {
            Material::Lambertian { albedo } => {
                let dir = if sample.diffuse.is_near_zero() {
                    hit.normal
                } else {
                    sample.diffuse
                };
                Some(Scattered { ray: Ray::new(hit.p, dir), attenuation: albedo })
            },
            Material::Metal { albedo, .. } => {
                if sample.glossy_cosine.gt(Scalar::zero()) {
                    Some(Scattered { ray: Ray::new(hit.p, sample.glossy), attenuation: albedo })
                } else {
                    None
                }
            },
            Material::Dielectric { .. } => {
                let cannot_refract = sample.bend.gt(Scalar::one());
                let dir = if cannot_refract || sample.reflectance.gt(sample.draw) {
                    sample.mirrored
                } else {
                    sample.refracted
                };
                Some(Scattered { ray: Ray::new(hit.p, dir), attenuation: Vec3::ones() })
            },
            Material::DiffuseLight { .. } => None,
        }
    }

    /// A diffuse scatter direction never vanishes: under a normal that has
    /// not vanished, the direction is not near zero, let alone zero.
    pub proof fn lemma_lambertian_direction_stands(hit: Hit, sample: ScatterSample)
        requires
            hit.material is Lambertian,
            !hit.normal.near_zero_spec(),
        ensures
            Self::scatter_spec(hit, sample) matches Some(s) && !s.ray.dir.near_zero_spec()
                && !s.ray.dir.is_zero_spec() && s.ray.origin == hit.p && s.attenuation
                == hit.material->Lambertian_albedo,
    {
        let s = Self::scatter_spec(hit, sample)->Some_0;
        if s.ray.dir.is_zero_spec() {
            s.ray.dir.lemma_zero_is_near_zero();
        }
    }

    /// A mirror absorbs exactly when the perturbed reflection does not leave
    /// the surface.
    pub proof fn lemma_metal_absorbs_inward(hit: Hit, sample: ScatterSample)
        requires
            hit.material is Metal,
        ensures
            Self::scatter_spec(hit, sample) is None <==> !Scalar::zero_spec().lt_spec(sample.glossy_cosine),
            Self::scatter_spec(hit, sample) matches Some(s) ==> s.ray == (Ray { origin: hit.p, dir: sample.glossy })
                && s.attenuation == hit.material->Metal_albedo,
    {
    }

    /// Glass never absorbs: it always scatters, and leaves the light as it
    /// was.
    pub proof fn lemma_dielectric_always_scatters(hit: Hit, sample: ScatterSample)
        requires
            hit.material is Dielectric,
        ensures
            Self::scatter_spec(hit, sample) matches Some(s) && s.attenuation == Vec3::ones_spec() && s.ray.origin
                == hit.p && (s.ray.dir == sample.mirrored || s.ray.dir == sample.refracted),
    {
    }

    /// Only a light emits, and a light never scatters.
    pub proof fn lemma_light_only_emits(hit: Hit, sample: ScatterSample)
        ensures
            hit.material is DiffuseLight ==> Self::scatter_spec(hit, sample) is None,
            !(hit.material is DiffuseLight) ==> hit.material.emitted_spec() == Vec3::zero_spec(),
    {
    }
}

/// A ray that leaves a surface, and the share of the light it carries that
/// the surface lets through, channel by channel.
#[derive(Clone, Copy, Debug, PartialEq, Eq, Structural)]
pub struct Scattered {
    pub ray: Ray,
    pub attenuation: Color3,
}

/// What was drawn and computed for one scattering event. A surface reads
/// only the entries made for it.
#[derive(Clone, Copy, Debug, PartialEq, Eq, Structural)]
pub struct ScatterSample {
    /// Diffuse: the normal plus a random unit vector.
    pub diffuse: Vec3,
    /// Mirror: the reflection of the unit incoming direction, plus the
    /// clamped fuzz times a random unit vector.
    pub glossy: Vec3,
    /// Mirror: the dot product of `glossy` with the normal.
    pub glossy_cosine: Scalar,
    /// Glass: the refraction ratio times the sine of the angle of incidence.
    pub bend: Scalar,
    /// Glass: the reflectance at that angle.
    pub reflectance: Scalar,
    /// Glass: a uniform draw from zero to one.
    pub draw: Scalar,
    /// Glass: the reflection of the unit incoming direction.
    pub mirrored: Vec3,
    /// Glass: the unit incoming direction, refracted.
    pub refracted: Vec3,
}

/// Whether a candidate drawn from the cube about the origin lies inside the
/// unit ball, by its squared length. Directions and lens points are drawn by
/// rejecting the candidates that do not.
pub open spec fn inside_unit_ball_spec(length_squared: Scalar) -> bool {
    length_squared.lt_spec(Scalar::one_spec())
}

/// Whether a candidate of the given squared length is kept.
pub fn inside_unit_ball(length_squared: Scalar) -> (r: bool)
    ensures
        r == inside_unit_ball_spec(length_squared),
{
    length_squared.lt(Scalar::one())
}

} // verus!
