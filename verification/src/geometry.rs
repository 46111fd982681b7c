use vstd::prelude::*;

use crate::errors::SphereKitError;

verus! {

/// A 2-D point in the stereographic plane, handed to the triangulation
/// capability. `C` is the caller's scalar type.
#[derive(Clone, Copy, Debug)]
pub struct Point2D<C> {
    pub x: C,
    pub y: C,
}

impl<C: Copy> Point2D<C> {
    /// The x-coordinate of the point.
    pub fn x(self) -> (r: C)
        ensures
            r == self.x,
    {
        self.x
    }

    /// The y-coordinate of the point.
    pub fn y(self) -> (r: C)
        ensures
            r == self.y,
    {
        self.y
    }
}

/// Converts geographic coordinates (degrees) to Cartesian coordinates on the
/// unit sphere.
///
/// The caller supplies the two numeric capabilities: `in_range` decides
/// whether the longitude lies in [-180, 180] and the latitude in [-90, 90],
/// and `to_cartesian` evaluates x = cos(lat)·cos(lon), y = cos(lat)·sin(lon),
/// z = sin(lat) after converting both angles to radians.
///
/// Fails with `CoordinateRangeError`, carrying the offending pair verbatim,
/// exactly when `in_range` rejects the input; otherwise returns exactly the
/// value of `to_cartesian` on the input.
pub fn ll_to_cartesian<C: Copy, I: Fn(C, C) -> bool, T: Fn(C, C) -> (C, C, C)>(
    longitude: C,
    latitude: C,
    in_range: I,
    to_cartesian: T,
) -> (result: Result<(C, C, C), SphereKitError<C>>)
    requires
        call_requires(in_range, (longitude, latitude)),
        call_requires(to_cartesian, (longitude, latitude)),
    ensures
        result matches Err(e) ==> e == (SphereKitError::CoordinateRangeError {
            longitude,
            latitude,
        }) && call_ensures(in_range, (longitude, latitude), false),
        result matches Ok(p) ==> call_ensures(in_range, (longitude, latitude), true)
            && call_ensures(to_cartesian, (longitude, latitude), p),
{
    if !in_range(longitude, latitude) {
        return Err(SphereKitError::CoordinateRangeError { longitude, latitude });
    }
    Ok(to_cartesian(longitude, latitude))
}

/// Projects a point on the unit sphere onto the plane z = 0, from the north
/// pole (0, 0, 1).
///
/// `at_north_pole` decides whether the z-coordinate is within machine epsilon
/// of 1 (the projection's singularity), and `project` evaluates
/// x₂ = x/(1−z), y₂ = y/(1−z).
///
/// Fails with `ProjectionError` exactly when `at_north_pole` reports the
/// singularity; otherwise returns exactly the value of `project` on the point.
pub fn stereographic_projection<C: Copy, N: Fn(C) -> bool, P: Fn((C, C, C)) -> (C, C)>(
    point: (C, C, C),
    at_north_pole: N,
    project: P,
) -> (result: Result<(C, C), SphereKitError<C>>)
    requires
        call_requires(at_north_pole, (point.2,)),
        call_requires(project, (point,)),
    ensures
        result matches Err(e) ==> (e matches SphereKitError::ProjectionError(m)
            && m@ == "Cannot project from the north pole (0, 0, 1)"@) && call_ensures(
            at_north_pole,
            (point.2,),
            true,
        ),
        result matches Ok(q) ==> call_ensures(at_north_pole, (point.2,), false) && call_ensures(
            project,
            (point,),
            q,
        ),
{
    let (_, _, z) = point;
    if at_north_pole(z) {
        return Err(
            SphereKitError::ProjectionError(
                String::from_str("Cannot project from the north pole (0, 0, 1)"),
            ),
        );
    }
    Ok(project(point))
}

/// Maps a point of the plane back onto the unit sphere, inverting the
/// stereographic projection from the north pole.
///
/// `is_finite` decides whether both plane coordinates are finite numbers, and
/// `unproject` evaluates, with d = 1 + x² + y²: x₃ = 2x/d, y₃ = 2y/d,
/// z₃ = (d−2)/d — a unit-norm result for every finite input.
///
/// Fails with `InverseProjectionError` exactly when `is_finite` rejects the
/// input; otherwise returns exactly the value of `unproject` on the point.
pub fn inverse_stereographic_projection<C: Copy, F: Fn((C, C)) -> bool, U: Fn((C, C)) -> (
    C,
    C,
    C,
)>(point: (C, C), is_finite: F, unproject: U) -> (result: Result<
    (C, C, C),
    SphereKitError<C>,
>)
    requires
        call_requires(is_finite, (point,)),
        call_requires(unproject, (point,)),
    ensures
        result matches Err(e) ==> (e matches SphereKitError::InverseProjectionError(m)
            && m@ == "Input coordinates must be finite numbers"@) && call_ensures(
            is_finite,
            (point,),
            false,
        ),
        result matches Ok(q) ==> call_ensures(is_finite, (point,), true) && call_ensures(
            unproject,
            (point,),
            q,
        ),
{
    if !is_finite(point) {
        return Err(
            SphereKitError::InverseProjectionError(
                String::from_str("Input coordinates must be finite numbers"),
            ),
        );
    }
    Ok(unproject(point))
}

/// Holds when the projection capabilities report `p` clear of the north-pole
/// singularity and can project it to the plane point `q2`.
pub open spec fn projected_point_of<C, N: Fn(C) -> bool, P: Fn((C, C, C)) -> (C, C)>(
    at_north_pole: N,
    project: P,
    p: (C, C, C),
    q2: Point2D<C>,
) -> bool {
    call_ensures(at_north_pole, (p.2,), false) && exists|q: (C, C)|
        #[trigger] call_ensures(project, (p,), q) && q2 == (Point2D { x: q.0, y: q.1 })
}

/// Holds when `projected` is a possible pointwise stereographic image of
/// `points`, with no point at the singularity.
pub open spec fn projection_of<C, N: Fn(C) -> bool, P: Fn((C, C, C)) -> (C, C)>(
    at_north_pole: N,
    project: P,
    points: Seq<(C, C, C)>,
    projected: Seq<Point2D<C>>,
) -> bool {
    projected.len() == points.len() && forall|i: int|
        0 <= i < points.len() ==> projected_point_of(
            at_north_pole,
            project,
            points[i],
            #[trigger] projected[i],
        )
}

/// Holds when the point at index `i` of the sequence is at the projection's
/// singularity, as the capability judges it.
pub open spec fn projection_blocked_at<C, N: Fn(C) -> bool>(
    at_north_pole: N,
    points: Seq<(C, C, C)>,
    i: int,
) -> bool {
    0 <= i < points.len() && call_ensures(at_north_pole, (points[i].2,), true)
}

/// The numeric capabilities that a rigid centroid-to-pole rotation needs.
/// Each field is a pure function of its arguments; the rotation algorithm
/// itself — accumulation order, failure policy, and the single shared
/// rotation applied to every point — is fixed and verified here.
pub struct RotationOps<C, Add, Scale, Small, Rot, Apply> {
    /// The zero vector, from which the centroid accumulation starts.
    pub origin: (C, C, C),
    /// Componentwise vector addition.
    pub add: Add,
    /// Division of an accumulated vector by the number of points.
    pub scale_down: Scale,
    /// Whether a centroid's magnitude is below machine epsilon, so that no
    /// direction is defined.
    pub is_negligible: Small,
    /// A rotation taking the direction of the given vector to the south pole
    /// (0, 0, −1), if one can be determined.
    pub rotation_to_south: Rot,
    /// Application of such a rotation to one point.
    pub apply: Apply,
}

/// Holds when folding `add` over `points` from the left, starting at
/// `origin`, can produce `total`.
pub open spec fn sums_to<C, Add: Fn((C, C, C), (C, C, C)) -> (C, C, C)>(
    add: Add,
    origin: (C, C, C),
    points: Seq<(C, C, C)>,
    total: (C, C, C),
) -> bool
    decreases points.len(),
{
    if points.len() == 0 {
        total == origin
    } else {
        exists|partial: (C, C, C)|
            sums_to(add, origin, points.drop_last(), partial) && #[trigger] call_ensures(
                add,
                (partial, points.last()),
                total,
            )
    }
}

/// Holds when `c` is a possible unnormalized centroid of `points`: the
/// componentwise sum of all points, scaled down by their number.
pub open spec fn centroid_of<
    C,
    Add: Fn((C, C, C), (C, C, C)) -> (C, C, C),
    Scale: Fn((C, C, C), usize) -> (C, C, C),
>(
    add: Add,
    scale_down: Scale,
    origin: (C, C, C),
    points: Seq<(C, C, C)>,
    c: (C, C, C),
) -> bool {
    exists|total: (C, C, C)|
        sums_to(add, origin, points, total) && #[trigger] call_ensures(
            scale_down,
            (total, points.len() as usize),
            c,
        )
}

/// Holds when `rotated` is a possible result of rotating every point of
/// `points` to recenter their centroid on the south pole: one single
/// rotation, determined from a centroid that was not negligible, applied to
/// each point in order.
pub open spec fn rotation_result<
    C,
    R,
    Add: Fn((C, C, C), (C, C, C)) -> (C, C, C),
    Scale: Fn((C, C, C), usize) -> (C, C, C),
    Small: Fn((C, C, C)) -> bool,
    Rot: Fn((C, C, C)) -> Option<R>,
    Apply: Fn(R, (C, C, C)) -> (C, C, C),
>(
    ops: RotationOps<C, Add, Scale, Small, Rot, Apply>,
    points: Seq<(C, C, C)>,
    rotated: Seq<(C, C, C)>,
) -> bool {
    rotated.len() == points.len() && exists|c: (C, C, C), r: R|
        centroid_of(ops.add, ops.scale_down, ops.origin, points, c) && call_ensures(
            ops.is_negligible,
            (c,),
            false,
        ) && #[trigger] call_ensures(ops.rotation_to_south, (c,), Some(r)) && forall|i: int|
            0 <= i < points.len() ==> call_ensures(ops.apply, (r, points[i]), #[trigger] rotated[i])
}

/// Rotates a set of points on the unit sphere so that their centroid lands on
/// the south pole (0, 0, −1), the pole opposite the stereographic
/// projection's singularity. All points are moved by one and the same rigid
/// rotation, so pairwise angles are preserved.
///
/// Fails with `EmptyPointSetError` exactly when the set is empty; with
/// `RotationError` when the centroid is negligibly small (points symmetric
/// about the origin leave no well-defined axis) or when no rotation to the
/// south pole can be determined, each with its own message.
pub fn rotate_points_to_south_pole<
    C: Copy,
    R: Copy,
    Add: Fn((C, C, C), (C, C, C)) -> (C, C, C),
    Scale: Fn((C, C, C), usize) -> (C, C, C),
    Small: Fn((C, C, C)) -> bool,
    Rot: Fn((C, C, C)) -> Option<R>,
    Apply: Fn(R, (C, C, C)) -> (C, C, C),
>(
    points: &Vec<(C, C, C)>,
    ops: &RotationOps<C, Add, Scale, Small, Rot, Apply>,
) -> (result: Result<Vec<(C, C, C)>, SphereKitError<C>>)
    requires
        forall|a: (C, C, C), b: (C, C, C)| #[trigger] call_requires(ops.add, (a, b)),
        forall|a: (C, C, C), n: usize| #[trigger] call_requires(ops.scale_down, (a, n)),
        forall|a: (C, C, C)| #[trigger] call_requires(ops.is_negligible, (a,)),
        forall|a: (C, C, C)| #[trigger] call_requires(ops.rotation_to_south, (a,)),
        forall|r: R, a: (C, C, C)| #[trigger] call_requires(ops.apply, (r, a)),
    ensures
        points@.len() == 0 ==> (result matches Err(SphereKitError::EmptyPointSetError(m))
            && m@ == "Cannot rotate an empty set of points"@),
        result matches Err(SphereKitError::EmptyPointSetError(_)) ==> points@.len() == 0,
        result matches Err(SphereKitError::RotationError(m)) ==> points@.len() > 0 && exists|
            c: (C, C, C),
        |
            #[trigger] centroid_of(ops.add, ops.scale_down, ops.origin, points@, c) && ((m@
                == "Points centroid is effectively zero; cannot determine rotation direction"@
                && call_ensures(ops.is_negligible, (c,), true)) || (m@
                == "Failed to compute rotation between points centroid and south pole"@
                && call_ensures(ops.is_negligible, (c,), false) && call_ensures(
                ops.rotation_to_south,
                (c,),
                Option::<R>::None,
            ))),
        result matches Err(e) ==> (e matches SphereKitError::EmptyPointSetError(_) || e matches
            SphereKitError::RotationError(_)),
        result matches Ok(rotated) ==> points@.len() > 0 && rotation_result(
            *ops,
            points@,
            rotated@,
        ),
{
    if points.len() == 0 {
        return Err(
            SphereKitError::EmptyPointSetError(
                String::from_str("Cannot rotate an empty set of points"),
            ),
        );
    }
    let mut total: (C, C, C) = ops.origin;
    let mut i: usize = 0;
    while i < points.len()
        invariant
            i <= points@.len(),
            sums_to(ops.add, ops.origin, points@.take(i as int), total),
            forall|a: (C, C, C), b: (C, C, C)| #[trigger] call_requires(ops.add, (a, b)),
        decreases points@.len() - i,
    {
        let next = (ops.add)(total, points[i]);
        proof {
            assert(points@.take(i + 1).drop_last() =~= points@.take(i as int));
            assert(points@.take(i + 1).last() == points@[i as int]);
        }
        total = next;
        i += 1;
    }
    proof {
        assert(points@.take(points@.len() as int) =~= points@);
    }
    let centroid = (ops.scale_down)(total, points.len());
    proof {
        assert(sums_to(ops.add, ops.origin, points@, total));
        assert(call_ensures(ops.scale_down, (total, points@.len() as usize), centroid));
        assert(centroid_of(ops.add, ops.scale_down, ops.origin, points@, centroid));
    }
    if (ops.is_negligible)(centroid) {
        return Err(
            SphereKitError::RotationError(
                String::from_str(
                    "Points centroid is effectively zero; cannot determine rotation direction",
                ),
            ),
        );
    }
    let rotation = match (ops.rotation_to_south)(centroid) {
        Some(r) => r,
        None => {
            return Err(
                SphereKitError::RotationError(
                    String::from_str(
                        "Failed to compute rotation between points centroid and south pole",
                    ),
                ),
            );
        },
    };
    let mut rotated: Vec<(C, C, C)> = Vec::new();
    let mut j: usize = 0;
    while j < points.len()
        invariant
            j <= points@.len(),
            rotated@.len() == j,
            forall|k: int|
                0 <= k < j ==> call_ensures(ops.apply, (rotation, points@[k]), #[trigger] rotated@[k]),
            forall|r: R, a: (C, C, C)| #[trigger] call_requires(ops.apply, (r, a)),
        decreases points@.len() - j,
    {
        let p = (ops.apply)(rotation, points[j]);
        rotated.push(p);
        j += 1;
    }
    Ok(rotated)
}

} // verus!
