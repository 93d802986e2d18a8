//! Intersections: the range in which one is sought, the record of one found,
//! and the sweep that keeps the nearest.
use crate::materials::Material;
use crate::render::Ray;
use crate::scalar::Scalar;
use crate::vector::{Point3, Vec3};
use vstd::prelude::*;

verus! {

/// A range of ray parameters, from `min` to `max`.
#[derive(Clone, Copy, Debug, PartialEq, Eq, Structural)]
pub struct Interval {
    pub min: Scalar,
    pub max: Scalar,
}

impl Interval {
    /// `min <= val <= max`.
    pub open spec fn contains_spec(self, val: Scalar) -> bool {
        self.min.le_spec(val) && val.le_spec(self.max)
    }

    /// `min < val < max`.
    pub open spec fn surrounds_spec(self, val: Scalar) -> bool {
        self.min.lt_spec(val) && val.lt_spec(self.max)
    }

    /// The range that holds no number.
    pub open spec fn empty_spec() -> Interval {
        Interval { min: Scalar::infinity_spec(), max: Scalar::infinity_spec().neg_spec() }
    }

    /// The range that holds every number.
    pub open spec fn universe_spec() -> Interval {
        Interval { min: Scalar::infinity_spec().neg_spec(), max: Scalar::infinity_spec() }
    }

    /// The empty range contains nothing, and the universal range contains
    /// every number.
    pub proof fn lemma_empty_and_universe(val: Scalar)
        ensures
            !Self::empty_spec().contains_spec(val),
            !Self::empty_spec().surrounds_spec(val),
            Self::universe_spec().contains_spec(val) <==> !val.is_nan_spec(),
    {
        let top = Scalar::infinity_spec();
        Scalar::lemma_infinity();
        top.lemma_neg();
        if !val.is_nan_spec() {
            val.lemma_within_infinities();
        }
        top.neg_spec().lemma_rank_orders(top);
    }

    /// What lies strictly inside a range lies in it.
    pub proof fn lemma_surrounded_is_contained(self, val: Scalar)
        requires
            self.surrounds_spec(val),
        ensures
            self.contains_spec(val),
    {
    }

    pub fn new(min: Scalar, max: Scalar) -> (r: Interval)
        ensures
            r == (Interval { min, max }),
    {
        Interval { min, max }
    }

    /// The range that holds no number.
    pub fn empty() -> (r: Interval)
        ensures
            r == Self::empty_spec(),
    {
        Interval { min: Scalar::infinity(), max: Scalar::infinity().neg() }
    }

    /// The range that holds every number.
    pub fn universe() -> (r: Interval)
        ensures
            r == Self::universe_spec(),
    {
        Interval { min: Scalar::infinity().neg(), max: Scalar::infinity() }
    }

    /// Whether `val` lies in the range, bounds included.
    pub fn contains(&self, val: Scalar) -> (r: bool)
        ensures
            r == self.contains_spec(val),
    {
        self.min.le(val) && val.le(self.max)
    }

    /// Whether `val` lies in the range, bounds excluded.
    pub fn surrounds(&self, val: Scalar) -> (r: bool)
        ensures
            r == self.surrounds_spec(val),
    {
        self.min.lt(val) && val.lt(self.max)
    }
}

/// Where and how a ray met a surface.
#[derive(Clone, Copy, Debug, PartialEq, Eq, Structural)]
pub struct Hit {
    /// The point that was met.
    pub p: Point3,
    /// The surface normal there, turned against the ray.
    pub normal: Vec3,
    /// The ray parameter of `p`.
    pub t: Scalar,
    /// Whether the ray came from outside the surface.
    pub front_face: bool,
    pub material: Material,
}

impl Hit {
    /// The record of a meeting at `p`, where the surface's outward normal and
    /// the ray's direction have the dot product `facing`. The ray comes from
    /// outside exactly when `facing` is negative; from inside, the
    /// normal is flipped.
    pub open spec fn new_spec(p: Point3, outward_normal: Vec3, facing: Scalar, t: Scalar, material: Material) -> Hit {
        let front_face = facing.lt_spec(Scalar::zero_spec());
        Hit {
            p,
            normal: if front_face {
                outward_normal
            } else {
                outward_normal.neg_spec()
            },
            t,
            front_face,
            material,
        }
    }

    /// The normal on record is turned against the ray: the dot product of
    /// the ray's direction with it, which is `facing` or its opposite, is
    /// never positive.
    pub proof fn lemma_normal_opposes_ray(
        p: Point3,
        outward_normal: Vec3,
        facing: Scalar,
        t: Scalar,
        material: Material,
    )
        requires
            !facing.is_nan_spec(),
        ensures
            ({
                let hit = Self::new_spec(p, outward_normal, facing, t, material);
                let turned = if hit.front_face {
                    facing
                } else {
                    facing.neg_spec()
                };
                &&& hit.normal == if hit.front_face {
                    outward_normal
                } else {
                    outward_normal.neg_spec()
                }
                &&& turned.le_spec(Scalar::zero_spec())
            }),
    {
        facing.lemma_neg();
        Scalar::lemma_zero();
    }

    /// Records a meeting. `facing` is the dot product of the ray's direction
    /// with `outward_normal`.
    pub fn new(p: Point3, outward_normal: Vec3, facing: Scalar, t: Scalar, material: Material) -> (hit: Hit)
        ensures
            hit == Self::new_spec(p, outward_normal, facing, t, material),
            hit.front_face == facing.lt_spec(Scalar::zero_spec()),
            hit.normal == outward_normal || hit.normal == outward_normal.neg_spec(),
    {
        let front_face = facing.lt(Scalar::zero());
        let normal = if front_face {
            outward_normal
        } else {
            outward_normal.neg()
        };
        Hit { p, normal, t, front_face, material }
    }
}

/// Where a ray crosses a surface, as computed for one ray parameter.
#[derive(Clone, Copy, Debug, PartialEq, Eq, Structural)]
pub struct Crossing {
    /// The ray parameter of the crossing.
    pub t: Scalar,
    /// The point of the ray at `t`.
    pub p: Point3,
    /// The surface's outward unit normal at `p`.
    pub outward_normal: Vec3,
    /// The dot product of the ray's direction with `outward_normal`.
    pub facing: Scalar,
}

impl Crossing {
    /// The record of a meeting at this crossing with a surface of the given
    /// material.
    pub open spec fn hit_spec(self, material: Material) -> Hit {
        Hit::new_spec(self.p, self.outward_normal, self.facing, self.t, material)
    }

    /// Records a meeting at this crossing.
    pub fn hit(&self, material: Material) -> (hit: Hit)
        ensures
            hit == self.hit_spec(material),
    {
        Hit::new(self.p, self.outward_normal, self.facing, self.t, material)
    }
}

/// What solving a sphere's intersection equation for a ray gave: the
/// discriminant, and the crossings at the smaller and at the larger root.
#[derive(Clone, Copy, Debug, PartialEq, Eq, Structural)]
pub struct SphereSolution {
    pub discriminant: Scalar,
    pub near: Crossing,
    pub far: Crossing,
}

/// A sphere about `center`. A negative `radius` turns the surface inside out.
#[derive(Clone, Copy, Debug, PartialEq, Eq, Structural)]
pub struct Sphere {
    pub center: Point3,
    pub radius: Scalar,
    pub mat: Material,
}

impl Sphere {
    /// Which root of the intersection equation a ray meets the sphere at.
    /// `discriminant` is that of the equation, `near` its smaller root and
    /// `far` its larger one. Under a negative discriminant the ray passes by.
    /// Otherwise the smaller root counts if it lies strictly inside `ray_t`,
    /// else the larger if it does, else none.
    pub open spec fn root_spec(discriminant: Scalar, near: Scalar, far: Scalar, ray_t: Interval) -> Option<Scalar> {
        if discriminant.lt_spec(Scalar::zero_spec()) {
            None
        } else if ray_t.surrounds_spec(near) {
            Some(near)
        } else if ray_t.surrounds_spec(far) {
            Some(far)
        } else {
            None
        }
    }

    /// The meeting of a ray with the sphere in `ray_t`, given the solution
    /// of the intersection equation. Under a negative discriminant the ray
    /// passes by. Otherwise the sphere is met at the smaller root if that
    /// lies strictly inside `ray_t`, else at the larger if that does, else
    /// not at all.
    pub open spec fn hit_spec(self, ray_t: Interval, solved: SphereSolution) -> Option<Hit> {
        if solved.discriminant.lt_spec(Scalar::zero_spec()) {
            None
        } else if ray_t.surrounds_spec(solved.near.t) {
            Some(solved.near.hit_spec(self.mat))
        } else if ray_t.surrounds_spec(solved.far.t) {
            Some(solved.far.hit_spec(self.mat))
        } else {
            None
        }
    }

    /// A ray that passes by the sphere meets nothing, whatever the range. A
    /// ray that goes through meets the sphere at the smaller root where
    /// that lies strictly inside the range, whether or not the larger does
    /// too. With the smaller root out of the range, it meets the sphere at
    /// the larger root where that lies strictly inside, and nothing where
    /// the larger is out of the range as well.
    pub proof fn lemma_hit_chooses_root(self, ray_t: Interval, solved: SphereSolution)
        ensures
            solved.discriminant.lt_spec(Scalar::zero_spec()) ==> self.hit_spec(ray_t, solved) is None,
            !solved.discriminant.lt_spec(Scalar::zero_spec()) && ray_t.surrounds_spec(solved.near.t)
                ==> self.hit_spec(ray_t, solved) == Some(solved.near.hit_spec(self.mat)),
            !solved.discriminant.lt_spec(Scalar::zero_spec()) && !ray_t.contains_spec(solved.near.t)
                && ray_t.surrounds_spec(solved.far.t) ==> self.hit_spec(ray_t, solved) == Some(
                solved.far.hit_spec(self.mat),
            ),
            !ray_t.contains_spec(solved.near.t) && !ray_t.contains_spec(solved.far.t) ==> self.hit_spec(
                ray_t,
                solved,
            ) is None,
            self.hit_spec(ray_t, solved) matches Some(h) ==> Some(h.t) == Self::root_spec(
                solved.discriminant,
                solved.near.t,
                solved.far.t,
                ray_t,
            ) && ray_t.surrounds_spec(h.t) && (h.p == solved.near.p || h.p == solved.far.p) && h.material
                == self.mat,
            self.hit_spec(ray_t, solved) is None <==> Self::root_spec(
                solved.discriminant,
                solved.near.t,
                solved.far.t,
                ray_t,
            ) is None,
    {
    }

    pub fn new(center: Point3, radius: Scalar, mat: Material) -> (r: Sphere)
        ensures
            r == (Sphere { center, radius, mat }),
    {
        Sphere { center, radius, mat }
    }

    /// The meeting of a ray with the sphere in `ray_t`, decided from the
    /// solution of the intersection equation for that ray.
    pub fn hit(&self, ray_t: Interval, solved: &SphereSolution) -> (found: Option<Hit>)
        ensures
            found == self.hit_spec(ray_t, *solved),
            found matches Some(h) ==> ray_t.contains_spec(h.t),
    {
        match Self::select_root(solved.discriminant, solved.near.t, solved.far.t, ray_t) {
            None => None,
            Some(_) => {
                if ray_t.surrounds(solved.near.t) {
                    Some(solved.near.hit(self.mat))
                } else {
                    Some(solved.far.hit(self.mat))
                }
            },
        }
    }

    /// Chooses the ray parameter at which the sphere is met, from the
    /// discriminant and the two roots of the intersection equation.
    pub fn select_root(discriminant: Scalar, near: Scalar, far: Scalar, ray_t: Interval) -> (root: Option<Scalar>)
        ensures
            root == Self::root_spec(discriminant, near, far, ray_t),
            root matches Some(t) ==> ray_t.surrounds_spec(t) && ray_t.contains_spec(t),
    {
        if discriminant.lt(Scalar::zero()) {
            None
        } else if ray_t.surrounds(near) {
            Some(near)
        } else if ray_t.surrounds(far) {
            Some(far)
        } else {
            None
        }
    }
}

/// The parallelogram with the corner `q` and the edges `u` and `v`.
#[derive(Clone, Copy, Debug, PartialEq, Eq, Structural)]
pub struct Quad {
    pub q: Point3,
    pub u: Vec3,
    pub v: Vec3,
    pub mat: Material,
}

impl Quad {
    /// A ray runs along the plane where the dot product `denom` of its
    /// direction with the plane's unit normal is smaller than 1e-8 in
    /// magnitude.
    pub open spec fn parallel_spec(denom: Scalar) -> bool {
        denom.abs_spec().lt_spec(Vec3::tiny())
    }

    /// A point of the plane with the coordinates `alpha` along `u` and `beta`
    /// along `v` lies on the quad where both are between zero and one, bounds
    /// included.
    pub open spec fn covers_spec(alpha: Scalar, beta: Scalar) -> bool {
        let unit = Interval { min: Scalar::zero_spec(), max: Scalar::one_spec() };
        unit.contains_spec(alpha) && unit.contains_spec(beta)
    }

    /// A ray meets the quad where it does not run along the plane, crosses
    /// the plane at a parameter `t` in `ray_t`, and crosses it on the quad.
    pub open spec fn meets_spec(denom: Scalar, t: Scalar, alpha: Scalar, beta: Scalar, ray_t: Interval) -> bool {
        !Self::parallel_spec(denom) && ray_t.contains_spec(t) && Self::covers_spec(alpha, beta)
    }

    /// The meeting of a ray with the quad in `ray_t`, given where the ray
    /// crosses the quad's plane and the coordinates `alpha` and `beta` of
    /// that crossing along the quad's edges. The dot product of the ray's
    /// direction with the plane's unit normal is `crossing.facing`.
    pub open spec fn hit_spec(self, ray_t: Interval, crossing: Crossing, alpha: Scalar, beta: Scalar) -> Option<
        Hit,
    > {
        if Self::meets_spec(crossing.facing, crossing.t, alpha, beta, ray_t) {
            Some(crossing.hit_spec(self.mat))
        } else {
            None
        }
    }

    /// A crossing beside the quad is no meeting, though it lies in the
    /// quad's plane and in the range: where either coordinate is under zero
    /// or over one, nothing is met.
    pub proof fn lemma_hit_rejects_outside(self, ray_t: Interval, crossing: Crossing, alpha: Scalar, beta: Scalar)
        requires
            alpha.lt_spec(Scalar::zero_spec()) || Scalar::one_spec().lt_spec(alpha) || beta.lt_spec(
                Scalar::zero_spec(),
            ) || Scalar::one_spec().lt_spec(beta),
        ensures
            self.hit_spec(ray_t, crossing, alpha, beta) is None,
    {
    }

    pub fn new(q: Point3, u: Vec3, v: Vec3, mat: Material) -> (r: Quad)
        ensures
            r == (Quad { q, u, v, mat }),
    {
        Quad { q, u, v, mat }
    }

    /// The meeting of a ray with the quad in `ray_t`, decided from where the
    /// ray crosses the quad's plane.
    pub fn hit(&self, ray_t: Interval, crossing: &Crossing, alpha: Scalar, beta: Scalar) -> (found: Option<Hit>)
        ensures
            found == self.hit_spec(ray_t, *crossing, alpha, beta),
            found matches Some(h) ==> ray_t.contains_spec(h.t),
    {
        if Self::meets(crossing.facing, crossing.t, alpha, beta, ray_t) {
            Some(crossing.hit(self.mat))
        } else {
            None
        }
    }

    /// Whether a ray runs along the plane. `denom` is the dot product of the
    /// ray's direction with the plane's unit normal.
    pub fn is_parallel(denom: Scalar) -> (r: bool)
        ensures
            r == Self::parallel_spec(denom),
    {
        denom.abs().lt(Scalar::from_bits(0x322b_cc77))
    }

    /// Whether the point of the plane with the coordinates `alpha` and `beta`
    /// lies on the quad.
    pub fn covers(alpha: Scalar, beta: Scalar) -> (r: bool)
        ensures
            r == Self::covers_spec(alpha, beta),
    {
        let unit = Interval { min: Scalar::zero(), max: Scalar::one() };
        unit.contains(alpha) && unit.contains(beta)
    }

    /// Whether a ray meets the quad. `t` is the parameter at which the ray
    /// crosses the plane, `alpha` and `beta` are the coordinates of the
    /// crossing.
    pub fn meets(denom: Scalar, t: Scalar, alpha: Scalar, beta: Scalar, ray_t: Interval) -> (r: bool)
        ensures
            r == Self::meets_spec(denom, t, alpha, beta, ray_t),
    {
        !Self::is_parallel(denom) && ray_t.contains(t) && Self::covers(alpha, beta)
    }
}

/// The two corners of the box that `a` and `b` span: the smallest and the
/// largest coordinate on each axis.
pub open spec fn box_corners_spec(a: Point3, b: Point3) -> (Point3, Point3) {
    (a.min_spec(b), a.max_spec(b))
}

/// The six faces of the box with the corners `min` and `max` and the edge
/// lengths `extent`: front, right, back, left, top, bottom.
pub open spec fn box_faces_spec(min: Point3, max: Point3, extent: Vec3, mat: Material) -> Seq<Quad> {
    let zero = Scalar::zero_spec();
    let dx = Vec3 { x: extent.x, y: zero, z: zero };
    let dy = Vec3 { x: zero, y: extent.y, z: zero };
    let dz = Vec3 { x: zero, y: zero, z: extent.z };
    seq![
        Quad { q: Vec3 { x: min.x, y: min.y, z: max.z }, u: dx, v: dy, mat },
        Quad { q: Vec3 { x: max.x, y: min.y, z: max.z }, u: dz.neg_spec(), v: dy, mat },
        Quad { q: Vec3 { x: max.x, y: min.y, z: min.z }, u: dx.neg_spec(), v: dy, mat },
        Quad { q: Vec3 { x: min.x, y: min.y, z: min.z }, u: dz, v: dy, mat },
        Quad { q: Vec3 { x: min.x, y: max.y, z: max.z }, u: dx, v: dz.neg_spec(), mat },
        Quad { q: Vec3 { x: min.x, y: min.y, z: min.z }, u: dx, v: dz, mat },
    ]
}

/// The corners of a box are in order on every axis on which both of the
/// points that span it have a coordinate.
pub proof fn lemma_box_corners_ordered(a: Point3, b: Point3)
    ensures
        ({
            let (min, max) = box_corners_spec(a, b);
            &&& !a.x.is_nan_spec() && !b.x.is_nan_spec() ==> min.x.le_spec(max.x)
            &&& !a.y.is_nan_spec() && !b.y.is_nan_spec() ==> min.y.le_spec(max.y)
            &&& !a.z.is_nan_spec() && !b.z.is_nan_spec() ==> min.z.le_spec(max.z)
        }),
{
}

/// Resolves two opposite corners of a box into its smallest and its largest
/// corner.
pub fn box_corners(a: Point3, b: Point3) -> (r: (Point3, Point3))
    ensures
        r == box_corners_spec(a, b),
{
    (a.min(b), a.max(b))
}

/// The six faces of the axis-aligned box that `a` and `b` span. `extent` is
/// the difference of its largest and its smallest corner.
pub fn make_box(a: Point3, b: Point3, extent: Vec3, mat: Material) -> (faces: Vec<Quad>)
    ensures
        faces@ == box_faces_spec(box_corners_spec(a, b).0, box_corners_spec(a, b).1, extent, mat),
{
    let (min, max) = box_corners(a, b);
    let zero = Scalar::zero();
    let dx = Vec3::new(extent.x, zero, zero);
    let dy = Vec3::new(zero, extent.y, zero);
    let dz = Vec3::new(zero, zero, extent.z);
    let mut faces: Vec<Quad> = Vec::new();
    faces.push(Quad::new(Vec3::new(min.x, min.y, max.z), dx, dy, mat));
    faces.push(Quad::new(Vec3::new(max.x, min.y, max.z), dz.neg(), dy, mat));
    faces.push(Quad::new(Vec3::new(max.x, min.y, min.z), dx.neg(), dy, mat));
    faces.push(Quad::new(Vec3::new(min.x, min.y, min.z), dz, dy, mat));
    faces.push(Quad::new(Vec3::new(min.x, max.y, max.z), dx, dz.neg(), mat));
    faces.push(Quad::new(Vec3::new(min.x, min.y, min.z), dx, dz, mat));
    assert(faces@ =~= box_faces_spec(min, max, extent, mat));
    faces
}

/// Something a ray can meet.
pub trait Hittable: Send + Sync {
    /// Whether `found` is what this object may report of `ray` for the range
    /// `ray_t`. An object that does not say what it reports admits every
    /// report.
    open spec fn reports(&self, ray: Ray, ray_t: Interval, found: Option<Hit>) -> bool {
        true
    }

    /// The meeting of `ray` with this object that is to be reported for the
    /// range `ray_t`, if there is one. An implementation owes its callers
    /// that a meeting it reports lies in that range.
    fn hit(&self, ray: &Ray, ray_t: Interval) -> (found: Option<Hit>)
        ensures
            found matches Some(h) ==> ray_t.contains_spec(h.t),
            self.reports(*ray, ray_t, found),
    ;
}

/// The meeting that a sweep keeps after the objects visited so far have
/// answered in turn: the last one reported. Each object is asked only for
/// what is at least as near as the one kept, so the last is the nearest.
pub open spec fn kept(answers: Seq<Option<Hit>>) -> Option<Hit>
    decreases answers.len(),
{
    if answers.len() == 0 {
        None
    } else if answers.last() is Some {
        answers.last()
    } else {
        kept(answers.drop_last())
    }
}

/// The range that a sweep of `ray_t` hands to the next object: its far end
/// has come in to the meeting kept.
pub open spec fn window_after(ray_t: Interval, answers: Seq<Option<Hit>>) -> Interval {
    Interval {
        min: ray_t.min,
        max: match kept(answers) {
            Some(h) => h.t,
            None => ray_t.max,
        },
    }
}

/// Every answer lies in the range that its object was handed.
pub open spec fn answers_in_window(ray_t: Interval, answers: Seq<Option<Hit>>) -> bool {
    forall|i: int|
        0 <= i < answers.len() ==> (#[trigger] answers[i] matches Some(h) ==> window_after(
            ray_t,
            answers.take(i),
        ).contains_spec(h.t))
}

/// A sweep returns the nearest meeting: where every object answers within
/// the range it was handed, the meeting kept lies in the range that was
/// swept, and no object reported one that is nearer. Where no object
/// reported any, none is kept.
pub proof fn lemma_sweep_keeps_nearest(ray_t: Interval, answers: Seq<Option<Hit>>)
    requires
        answers_in_window(ray_t, answers),
    ensures
        kept(answers) matches Some(best) ==> ray_t.contains_spec(best.t) && forall|i: int|
            0 <= i < answers.len() ==> (#[trigger] answers[i] matches Some(h) ==> best.t.le_spec(h.t)),
        kept(answers) is None <==> forall|i: int| 0 <= i < answers.len() ==> #[trigger] answers[i] is None,
    decreases answers.len(),
{
    if answers.len() > 0 {
        let before = answers.drop_last();
        let n = answers.len() - 1;
        assert(before =~= answers.take(n));
        assert forall|i: int| 0 <= i < before.len() implies (#[trigger] before[i] matches Some(h)
            ==> window_after(ray_t, before.take(i)).contains_spec(h.t)) by {
            assert(before.take(i) =~= answers.take(i));
            assert(before[i] == answers[i]);
        }
        lemma_sweep_keeps_nearest(ray_t, before);
        if kept(answers) is None {
            assert forall|i: int| 0 <= i < answers.len() implies #[trigger] answers[i] is None by {
                if i < n {
                    assert(before[i] == answers[i]);
                }
            }
        }
        match answers.last() {
            Some(last) => {
                assert(answers[n] == Some(last));
                assert(window_after(ray_t, before).contains_spec(last.t));
                assert forall|i: int| 0 <= i < answers.len() implies (#[trigger] answers[i] matches Some(h)
                    ==> last.t.le_spec(h.t)) by {
                    if i < n {
                        assert(before[i] == answers[i]);
                    }
                }
            },
            None => {
                assert forall|i: int| 0 <= i < answers.len() implies (#[trigger] answers[i] matches Some(h)
                    ==> kept(before) matches Some(best) && best.t.le_spec(h.t)) by {
                    if i < n {
                        assert(before[i] == answers[i]);
                    }
                }
            },
        }
    }
}

/// The state of a sweep over the objects of a scene.
#[derive(Clone, Copy, Debug, PartialEq, Eq, Structural)]
pub struct Sweep {
    /// The range that is swept.
    pub ray_t: Interval,
    /// The nearest meeting reported so far.
    pub closest: Option<Hit>,
}

impl Sweep {
    /// The range to hand to the next object.
    pub open spec fn window_spec(self) -> Interval {
        Interval {
            min: self.ray_t.min,
            max: match self.closest {
                Some(h) => h.t,
                None => self.ray_t.max,
            },
        }
    }

    /// The state after the next object has answered.
    pub open spec fn record_spec(self, answer: Option<Hit>) -> Sweep {
        Sweep {
            ray_t: self.ray_t,
            closest: if answer is Some {
                answer
            } else {
                self.closest
            },
        }
    }

    /// The state after the given objects have answered in turn.
    pub open spec fn after(ray_t: Interval, answers: Seq<Option<Hit>>) -> Sweep {
        Sweep { ray_t, closest: kept(answers) }
    }

    /// Recording one more answer is keeping the last answer reported.
    pub proof fn lemma_record_is_kept(ray_t: Interval, answers: Seq<Option<Hit>>, answer: Option<Hit>)
        ensures
            Self::after(ray_t, answers).record_spec(answer) == Self::after(ray_t, answers.push(answer)),
            Self::after(ray_t, answers).window_spec() == window_after(ray_t, answers),
    {
        assert(answers.push(answer).drop_last() =~= answers);
    }

    /// A sweep of `ray_t` before any object has answered.
    pub fn start(ray_t: Interval) -> (s: Sweep)
        ensures
            s == Self::after(ray_t, Seq::empty()),
            s == (Sweep { ray_t, closest: None }),
    {
        Sweep { ray_t, closest: None }
    }

    /// The range to hand to the next object.
    pub fn window(&self) -> (w: Interval)
        ensures
            w == self.window_spec(),
    {
        match self.closest {
            Some(h) => Interval { min: self.ray_t.min, max: h.t },
            None => self.ray_t,
        }
    }

    /// Takes in the answer of the object that was handed `window()`.
    pub fn record(&mut self, answer: Option<Hit>)
        ensures
            *final(self) == old(self).record_spec(answer),
    {
        if answer.is_some() {
            self.closest = answer;
        }
    }

    /// The nearest meeting reported.
    pub fn finish(self) -> (found: Option<Hit>)
        ensures
            found == self.closest,
    {
        self.closest
    }
}

/// A scene: any objects, in the order in which they are swept.
pub type HittableVec = Vec<Box<dyn Hittable>>;

impl<H: Hittable + ?Sized> Hittable for Box<H> {
    /// A boxed object reports what the object in the box reports.
    open spec fn reports(&self, ray: Ray, ray_t: Interval, found: Option<Hit>) -> bool {
        (**self).reports(ray, ray_t, found)
    }

    /// A boxed object is met where the object is.
    fn hit(&self, ray: &Ray, ray_t: Interval) -> (found: Option<Hit>) {
        (**self).hit(ray, ray_t)
    }
}

/// What the objects of a scene report in one sweep of `ray_t`: one answer
/// per object, each what its object may report for the range it was handed,
/// and each within that range.
pub open spec fn swept<H: Hittable>(
    objects: Seq<H>,
    ray: Ray,
    ray_t: Interval,
    answers: Seq<Option<Hit>>,
) -> bool {
    &&& answers.len() == objects.len()
    &&& answers_in_window(ray_t, answers)
    &&& forall|i: int|
        0 <= i < objects.len() ==> (#[trigger] objects[i]).reports(
            ray,
            window_after(ray_t, answers.take(i)),
            answers[i],
        )
}

impl<H: Hittable> Hittable for Vec<H> {
    /// A scene reports what a sweep keeps of its objects' answers: by
    /// `lemma_sweep_keeps_nearest` the nearest of them, and none where no
    /// object reports any.
    open spec fn reports(&self, ray: Ray, ray_t: Interval, found: Option<Hit>) -> bool {
        exists|answers: Seq<Option<Hit>>| #[trigger] swept(self@, ray, ray_t, answers) && found == kept(answers)
    }

    /// Sweeps the objects in order and reports the nearest meeting in
    /// `ray_t`. Each object is handed the range that ends at the meeting
    /// kept so far.
    fn hit(&self, ray: &Ray, ray_t: Interval) -> (found: Option<Hit>)
        ensures
            self.len() == 0 ==> found is None,
    {
        let mut sweep = Sweep::start(ray_t);
        let ghost mut answers: Seq<Option<Hit>> = Seq::empty();
        let mut i: usize = 0;
        while i < self.len()
            invariant
                i <= self.len(),
                sweep == Sweep::after(ray_t, answers),
                swept(self@.take(i as int), *ray, ray_t, answers),
            decreases self.len() - i,
        {
            let answer = self[i].hit(ray, sweep.window());
            proof {
                Sweep::lemma_record_is_kept(ray_t, answers, answer);
                let longer = answers.push(answer);
                let visited = self@.take(i as int + 1);
                assert forall|k: int| 0 <= k < longer.len() implies (#[trigger] longer[k] matches Some(h)
                    ==> window_after(ray_t, longer.take(k)).contains_spec(h.t)) by {
                    if k < answers.len() {
                        assert(longer.take(k) =~= answers.take(k));
                        assert(longer[k] == answers[k]);
                    } else {
                        assert(longer.take(k) =~= answers);
                    }
                }
                assert forall|k: int| 0 <= k < visited.len() implies (#[trigger] visited[k]).reports(
                    *ray,
                    window_after(ray_t, longer.take(k)),
                    longer[k],
                ) by {
                    if k < answers.len() {
                        assert(longer.take(k) =~= answers.take(k));
                        assert(longer[k] == answers[k]);
                        assert(visited[k] == self@.take(i as int)[k]);
                    } else {
                        assert(longer.take(k) =~= answers);
                        assert(visited[k] == self@[i as int]);
                    }
                }
                answers = longer;
            }
            sweep.record(answer);
            i += 1;
        }
        proof {
            assert(self@.take(i as int) =~= self@);
            lemma_sweep_keeps_nearest(ray_t, answers);
            assert(sweep.closest == kept(answers));
        }
        sweep.finish()
    }
}

} // verus!
