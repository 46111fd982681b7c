use vstd::prelude::*;

use crate::errors::SphereKitError;
use crate::fibonacci::fibonacci_denominator;
use crate::fibonacci::fibonacci_sphere;
use crate::geometry::Point2D;
use crate::geometry::RotationOps;
use crate::geometry::ll_to_cartesian;
use crate::geometry::centroid_of;
use crate::geometry::projected_point_of;
use crate::geometry::projection_blocked_at;
use crate::geometry::projection_of;
use crate::geometry::rotate_points_to_south_pole;
use crate::geometry::rotation_result;
use crate::geometry::stereographic_projection;

verus! {

/// The default number of Fibonacci sphere samples drawn when filling a
/// polygon with interior points. Exposed as a parameter of the mesh
/// functions so that callers and tests can use smaller counts.
pub const DEFAULT_FIBONACCI_POINT_COUNT: usize = 3000;

/// The numeric capabilities that mesh-point assembly needs. Each field is a
/// pure function of its arguments; the assembly itself — validation order,
/// which points are kept, and the boundary-first ordering of the result — is
/// fixed and verified here.
pub struct MeshOps<InRange, ToCart, Sample, Contains, ToDeg> {
    /// Whether a longitude lies in [-180, 180] and a latitude in [-90, 90]
    /// degrees.
    pub in_range: InRange,
    /// Geographic degrees to Cartesian coordinates on the unit sphere.
    pub to_cartesian: ToCart,
    /// The Fibonacci sphere sampler, from (index, denominator) to a
    /// (longitude, latitude) pair in radians.
    pub sample: Sample,
    /// Whether a candidate point (radians) lies inside the boundary ring
    /// this capability was built over, consistent with the ring's winding.
    pub contains: Contains,
    /// Radians to degrees, componentwise on a (longitude, latitude) pair.
    pub to_degrees: ToDeg,
}

/// Holds when the conversion capabilities accept the geographic point `p`
/// and can turn it into the Cartesian point `q`.
pub open spec fn converted_point<C, InRange: Fn(C, C) -> bool, ToCart: Fn(C, C) -> (C, C, C)>(
    in_range: InRange,
    to_cartesian: ToCart,
    p: (C, C),
    q: (C, C, C),
) -> bool {
    call_ensures(in_range, (p.0, p.1), true) && call_ensures(to_cartesian, (p.0, p.1), q)
}

/// Holds when `candidates` is a possible `n`-point Fibonacci sphere sample
/// sequence.
pub open spec fn sampled_sphere<C, Sample: Fn(usize, usize) -> (C, C)>(
    sample: Sample,
    n: usize,
    candidates: Seq<(C, C)>,
) -> bool {
    candidates.len() == n && forall|i: int|
        0 <= i < n ==> call_ensures(
            sample,
            (i as usize, fibonacci_denominator(n)),
            #[trigger] candidates[i],
        )
}

/// Holds when `kept` is exactly the subsequence of `candidates` that the
/// containment capability reported inside, in order, each point converted
/// from radians to degrees.
pub open spec fn interior_selection<C, Contains: Fn((C, C)) -> bool, ToDeg: Fn((C, C)) -> (C, C)>(
    contains: Contains,
    to_degrees: ToDeg,
    candidates: Seq<(C, C)>,
    kept: Seq<(C, C)>,
) -> bool
    decreases candidates.len(),
{
    if candidates.len() == 0 {
        kept.len() == 0
    } else {
        let p = candidates.last();
        (call_ensures(contains, (p,), true) && kept.len() > 0 && call_ensures(
            to_degrees,
            (p,),
            kept.last(),
        ) && interior_selection(contains, to_degrees, candidates.drop_last(), kept.drop_last()))
            || (call_ensures(contains, (p,), false) && interior_selection(
            contains,
            to_degrees,
            candidates.drop_last(),
            kept,
        ))
    }
}

/// Holds when the point `p` can have come out of the interior filter: it is
/// the degree conversion of some candidate that the containment capability
/// reported inside.
pub open spec fn interior_provenance<C, Contains: Fn((C, C)) -> bool, ToDeg: Fn((C, C)) -> (C, C)>(
    contains: Contains,
    to_degrees: ToDeg,
    p: (C, C),
) -> bool {
    exists|q: (C, C)|
        #[trigger] call_ensures(to_degrees, (q,), p) && call_ensures(contains, (q,), true)
}

/// Holds when `points` is a possible mesh-point sequence for `ring`: the
/// Cartesian conversions of the ring's vertices, in order, followed by the
/// conversions of the retained interior sample points, in order.
pub open spec fn mesh_points_of<
    C,
    InRange: Fn(C, C) -> bool,
    ToCart: Fn(C, C) -> (C, C, C),
    Sample: Fn(usize, usize) -> (C, C),
    Contains: Fn((C, C)) -> bool,
    ToDeg: Fn((C, C)) -> (C, C),
>(
    ops: MeshOps<InRange, ToCart, Sample, Contains, ToDeg>,
    ring: Seq<(C, C)>,
    sample_count: usize,
    points: Seq<(C, C, C)>,
) -> bool {
    exists|candidates: Seq<(C, C)>, kept: Seq<(C, C)>|
        #[trigger] interior_selection(ops.contains, ops.to_degrees, candidates, kept)
            && sampled_sphere(ops.sample, sample_count, candidates) && points.len() == ring.len()
            + kept.len() && (forall|i: int|
            0 <= i < ring.len() ==> converted_point(
                ops.in_range,
                ops.to_cartesian,
                ring[i],
                #[trigger] points[i],
            )) && (forall|j: int|
            0 <= j < kept.len() ==> converted_point(
                ops.in_range,
                ops.to_cartesian,
                kept[j],
                #[trigger] points[ring.len() + j],
            ))
}

/// Generates the mesh points for a geographic polygon: the boundary ring's
/// vertices first — so that constraint edges can address them positionally —
/// followed by the Fibonacci sphere samples that fall inside the ring, all
/// converted to Cartesian coordinates on the unit sphere.
///
/// Fails with `EmptyPointSetError` on an empty ring, with
/// `MeshGenerationError` on a ring of fewer than 3 vertices, with
/// `FibonacciError` when `sample_count` is zero, and propagates a
/// `CoordinateRangeError` carrying a point — a boundary vertex or a retained
/// sample — whose coordinates the range capability rejects.
pub fn get_mesh_points<
    C: Copy,
    InRange: Copy + Fn(C, C) -> bool,
    ToCart: Copy + Fn(C, C) -> (C, C, C),
    Sample: Copy + Fn(usize, usize) -> (C, C),
    Contains: Fn((C, C)) -> bool,
    ToDeg: Fn((C, C)) -> (C, C),
>(
    outer_ring: &Vec<(C, C)>,
    sample_count: usize,
    ops: &MeshOps<InRange, ToCart, Sample, Contains, ToDeg>,
) -> (result: Result<Vec<(C, C, C)>, SphereKitError<C>>)
    requires
        forall|a: C, b: C| #[trigger] call_requires(ops.in_range, (a, b)),
        forall|a: C, b: C| #[trigger] call_requires(ops.to_cartesian, (a, b)),
        forall|i: usize, d: usize| #[trigger] call_requires(ops.sample, (i, d)),
        forall|p: (C, C)| #[trigger] call_requires(ops.contains, (p,)),
        forall|p: (C, C)| #[trigger] call_requires(ops.to_degrees, (p,)),
    ensures
        outer_ring@.len() == 0 ==> (result matches Err(SphereKitError::EmptyPointSetError(m))
            && m@ == "Outer ring cannot be empty"@),
        result matches Err(SphereKitError::EmptyPointSetError(_)) ==> outer_ring@.len() == 0,
        0 < outer_ring@.len() < 3 ==> (result matches Err(SphereKitError::MeshGenerationError(m))
            && m@ == "Outer ring must have at least 3 points to form a valid polygon"@),
        result matches Err(SphereKitError::MeshGenerationError(_)) ==> 0 < outer_ring@.len() < 3,
        outer_ring@.len() >= 3 && sample_count == 0 ==> (result matches Err(
            SphereKitError::FibonacciError(m),
        ) && m@ == "Cannot generate zero points in fibonacci sphere"@),
        result matches Err(SphereKitError::FibonacciError(_)) ==> outer_ring@.len() >= 3
            && sample_count == 0,
        result matches Err(SphereKitError::CoordinateRangeError { longitude, latitude })
            ==> outer_ring@.len() >= 3 && sample_count > 0 && call_ensures(
            ops.in_range,
            (longitude, latitude),
            false,
        ) && (outer_ring@.contains((longitude, latitude)) || interior_provenance(
            ops.contains,
            ops.to_degrees,
            (longitude, latitude),
        )),
        result matches Err(e) ==> (e matches SphereKitError::EmptyPointSetError(_) || e matches
            SphereKitError::MeshGenerationError(_) || e matches SphereKitError::FibonacciError(_)
            || e matches SphereKitError::CoordinateRangeError { .. }),
        result matches Ok(points) ==> outer_ring@.len() >= 3 && sample_count > 0 && mesh_points_of(
            *ops,
            outer_ring@,
            sample_count,
            points@,
        ),
{
    if outer_ring.len() == 0 {
        return Err(
            SphereKitError::EmptyPointSetError(String::from_str("Outer ring cannot be empty")),
        );
    }
    if outer_ring.len() < 3 {
        return Err(
            SphereKitError::MeshGenerationError(
                String::from_str("Outer ring must have at least 3 points to form a valid polygon"),
            ),
        );
    }
    let candidates = match fibonacci_sphere(sample_count, ops.sample) {
        Ok(v) => v,
        Err(e) => {
            return Err(e);
        },
    };
    // keep the samples that the containment capability reports inside,
    // converted back to degrees
    let mut kept: Vec<(C, C)> = Vec::new();
    let mut i: usize = 0;
    while i < candidates.len()
        invariant
            i <= candidates@.len(),
            interior_selection(ops.contains, ops.to_degrees, candidates@.take(i as int), kept@),
            forall|t: int|
                0 <= t < kept@.len() ==> interior_provenance(
                    ops.contains,
                    ops.to_degrees,
                    #[trigger] kept@[t],
                ),
            forall|p: (C, C)| #[trigger] call_requires(ops.contains, (p,)),
            forall|p: (C, C)| #[trigger] call_requires(ops.to_degrees, (p,)),
        decreases candidates@.len() - i,
    {
        let p = candidates[i];
        let ghost kept_before = kept@;
        if (ops.contains)(p) {
            let q = (ops.to_degrees)(p);
            kept.push(q);
            proof {
                assert(candidates@.take(i + 1).drop_last() =~= candidates@.take(i as int));
                assert(candidates@.take(i + 1).last() == candidates@[i as int]);
                assert(kept@.drop_last() =~= kept_before);
                assert(kept@.last() == q);
                assert(interior_provenance(ops.contains, ops.to_degrees, q));
                assert(interior_selection(
                    ops.contains,
                    ops.to_degrees,
                    candidates@.take(i + 1),
                    kept@,
                ));
            }
        } else {
            proof {
                assert(candidates@.take(i + 1).drop_last() =~= candidates@.take(i as int));
                assert(candidates@.take(i + 1).last() == candidates@[i as int]);
                assert(interior_selection(
                    ops.contains,
                    ops.to_degrees,
                    candidates@.take(i + 1),
                    kept@,
                ));
            }
        }
        i += 1;
    }
    proof {
        assert(candidates@.take(candidates@.len() as int) =~= candidates@);
    }
    // boundary vertices occupy the leading index range; retained interior
    // points follow
    let mut points: Vec<(C, C, C)> = Vec::new();
    let mut k: usize = 0;
    while k < outer_ring.len()
        invariant
            k <= outer_ring@.len(),
            outer_ring@.len() >= 3,
            sample_count > 0,
            interior_selection(ops.contains, ops.to_degrees, candidates@, kept@),
            sampled_sphere(ops.sample, sample_count, candidates@),
            forall|t: int|
                0 <= t < kept@.len() ==> interior_provenance(
                    ops.contains,
                    ops.to_degrees,
                    #[trigger] kept@[t],
                ),
            points@.len() == k,
            forall|t: int|
                0 <= t < k ==> converted_point(
                    ops.in_range,
                    ops.to_cartesian,
                    outer_ring@[t],
                    #[trigger] points@[t],
                ),
            forall|a: C, b: C| #[trigger] call_requires(ops.in_range, (a, b)),
            forall|a: C, b: C| #[trigger] call_requires(ops.to_cartesian, (a, b)),
        decreases outer_ring@.len() - k,
    {
        let (lon, lat) = outer_ring[k];
        match ll_to_cartesian(lon, lat, ops.in_range, ops.to_cartesian) {
            Ok(q) => {
                points.push(q);
            },
            Err(e) => {
                proof {
                    assert(outer_ring@.contains((lon, lat))) by {
                        assert(outer_ring@[k as int] == (lon, lat));
                    }
                }
                return Err(e);
            },
        }
        k += 1;
    }
    let mut j: usize = 0;
    while j < kept.len()
        invariant
            j <= kept@.len(),
            outer_ring@.len() >= 3,
            sample_count > 0,
            interior_selection(ops.contains, ops.to_degrees, candidates@, kept@),
            sampled_sphere(ops.sample, sample_count, candidates@),
            points@.len() == outer_ring@.len() + j,
            forall|t: int|
                0 <= t < outer_ring@.len() ==> converted_point(
                    ops.in_range,
                    ops.to_cartesian,
                    outer_ring@[t],
                    #[trigger] points@[t],
                ),
            forall|t: int|
                0 <= t < j ==> converted_point(
                    ops.in_range,
                    ops.to_cartesian,
                    kept@[t],
                    #[trigger] points@[outer_ring@.len() + t],
                ),
            forall|t: int|
                0 <= t < kept@.len() ==> interior_provenance(
                    ops.contains,
                    ops.to_degrees,
                    #[trigger] kept@[t],
                ),
            forall|a: C, b: C| #[trigger] call_requires(ops.in_range, (a, b)),
            forall|a: C, b: C| #[trigger] call_requires(ops.to_cartesian, (a, b)),
        decreases kept@.len() - j,
    {
        let (lon, lat) = kept[j];
        match ll_to_cartesian(lon, lat, ops.in_range, ops.to_cartesian) {
            Ok(q) => {
                points.push(q);
            },
            Err(e) => {
                proof {
                    assert(kept@[j as int] == (lon, lat));
                }
                return Err(e);
            },
        }
        j += 1;
    }
    proof {
        assert(mesh_points_of(*ops, outer_ring@, sample_count, points@)) by {
            assert(interior_selection(ops.contains, ops.to_degrees, candidates@, kept@));
            assert(sampled_sphere(ops.sample, sample_count, candidates@));
        }
    }
    Ok(points)
}

/// The triangulated mesh of a polygon on the unit sphere: the mesh points
/// in their original, pre-rotation Cartesian coordinates, and the triangle
/// indices into them, flattened three per triangle.
#[derive(Clone, Debug)]
pub struct PolygonMeshData<C> {
    /// The mesh points, boundary vertices first.
    pub vertices: Vec<(C, C, C)>,
    /// Triangle indices into `vertices`, flattened as
    /// [a1, b1, c1, a2, b2, c2, ...].
    pub triangles: Vec<u32>,
}

/// Holds when `edges` is the closed cycle of constraint edges over a
/// boundary ring of `n` vertices: edge `k` runs from vertex `k` to vertex
/// `(k + 1) mod n`.
pub open spec fn boundary_edge_cycle(n: int, edges: Seq<(u32, u32)>) -> bool {
    edges.len() == n && forall|k: int|
        0 <= k < n ==> #[trigger] edges[k] == (k as u32, (((k + 1) % n) as u32))
}

/// Builds the constraint edges of a boundary ring of `n` vertices:
/// consecutive index pairs (k, (k + 1) mod n), addressing boundary indices
/// only.
pub fn boundary_edges(n: usize) -> (edges: Vec<(u32, u32)>)
    requires
        n <= u32::MAX as usize,
    ensures
        boundary_edge_cycle(n as int, edges@),
{
    let mut edges: Vec<(u32, u32)> = Vec::new();
    let mut i: usize = 0;
    while i < n
        invariant
            n <= u32::MAX as usize,
            i <= n,
            edges@.len() == i,
            forall|k: int|
                0 <= k < i ==> #[trigger] edges@[k] == (k as u32, (((k + 1) % (n as int)) as u32)),
        decreases n - i,
    {
        let from: u32 = i as u32;
        let to: u32 = ((i + 1) % n) as u32;
        edges.push((from, to));
        i += 1;
    }
    edges
}

/// Holds when the index `v` is a component of some triple of the list.
pub open spec fn flat_entry_from(triangles: Seq<(u32, u32, u32)>, v: u32) -> bool {
    exists|i: int|
        0 <= i < triangles.len() && (v == (#[trigger] triangles[i]).0 || v == triangles[i].1 || v
            == triangles[i].2)
}

/// Holds when `flat` is `triangles` flattened in order, three indices per
/// triangle; every flat entry is a component of some triple.
pub open spec fn flattened_triangles(triangles: Seq<(u32, u32, u32)>, flat: Seq<u32>) -> bool {
    flat.len() == 3 * triangles.len() && (forall|i: int|
        0 <= i < triangles.len() ==> flat[3 * i] == (#[trigger] triangles[i]).0 && flat[3 * i + 1]
            == triangles[i].1 && flat[3 * i + 2] == triangles[i].2) && (forall|j: int|
        0 <= j < flat.len() ==> flat_entry_from(triangles, #[trigger] flat[j]))
}

/// Holds when some triple of the list addresses a vertex at or beyond
/// `bound`.
pub open spec fn triple_index_out_of_range(triangles: Seq<(u32, u32, u32)>, bound: int) -> bool {
    exists|i: int|
        0 <= i < triangles.len() && (((#[trigger] triangles[i]).0 as int) >= bound || ((
        triangles[i]).1 as int) >= bound || ((triangles[i]).2 as int) >= bound)
}

/// Flattens a list of index triples into a flat index list, three
/// consecutive entries per triangle.
pub fn flatten_triangles(triangles: &Vec<(u32, u32, u32)>) -> (flat: Vec<u32>)
    ensures
        flattened_triangles(triangles@, flat@),
{
    let mut flat: Vec<u32> = Vec::new();
    let mut i: usize = 0;
    while i < triangles.len()
        invariant
            i <= triangles@.len(),
            flat@.len() == 3 * i,
            forall|k: int|
                0 <= k < i ==> flat@[3 * k] == (#[trigger] triangles@[k]).0 && flat@[3 * k + 1]
                    == triangles@[k].1 && flat@[3 * k + 2] == triangles@[k].2,
            forall|j: int|
                0 <= j < flat@.len() ==> flat_entry_from(triangles@, #[trigger] flat@[j]),
        decreases triangles@.len() - i,
    {
        let t = triangles[i];
        flat.push(t.0);
        flat.push(t.1);
        flat.push(t.2);
        proof {
            assert(0 <= i < triangles@.len() && t.0 == (triangles@[i as int]).0);
            assert(flat_entry_from(triangles@, t.0));
            assert(flat_entry_from(triangles@, t.1));
            assert(flat_entry_from(triangles@, t.2));
            assert(flat@[3 * i] == t.0 && flat@[3 * i + 1] == t.1 && flat@[3 * i + 2] == t.2);
        }
        i += 1;
    }
    flat
}

/// Reports whether every index in the list addresses a vertex below
/// `bound`.
pub fn indices_in_bounds(indices: &Vec<u32>, bound: usize) -> (ok: bool)
    ensures
        ok <==> (forall|i: int| 0 <= i < indices@.len() ==> (#[trigger] indices@[i] as int) < bound),
{
    let mut i: usize = 0;
    while i < indices.len()
        invariant
            i <= indices@.len(),
            forall|k: int| 0 <= k < i ==> (#[trigger] indices@[k] as int) < bound,
        decreases indices@.len() - i,
    {
        if !((indices[i] as usize) < bound) {
            proof {
                assert((indices@[i as int] as int) >= bound);
            }
            return false;
        }
        i += 1;
    }
    true
}

/// Holds when `pv` and `ev` are data the pipeline could hand to the
/// triangulation capability for `ring`: `pv` the pointwise stereographic
/// images of some rotation-to-south-pole result of mesh points `v` for
/// `ring`, and `ev` the ring's constraint-edge cycle.
pub open spec fn triangulation_input_of<
    C,
    R,
    InRange: Fn(C, C) -> bool,
    ToCart: Fn(C, C) -> (C, C, C),
    Sample: Fn(usize, usize) -> (C, C),
    Contains: Fn((C, C)) -> bool,
    ToDeg: Fn((C, C)) -> (C, C),
    Add: Fn((C, C, C), (C, C, C)) -> (C, C, C),
    Scale: Fn((C, C, C), usize) -> (C, C, C),
    Small: Fn((C, C, C)) -> bool,
    Rot: Fn((C, C, C)) -> Option<R>,
    Apply: Fn(R, (C, C, C)) -> (C, C, C),
    NorthPole: Fn(C) -> bool,
    Project: Fn((C, C, C)) -> (C, C),
>(
    mesh_ops: MeshOps<InRange, ToCart, Sample, Contains, ToDeg>,
    rotation_ops: RotationOps<C, Add, Scale, Small, Rot, Apply>,
    at_north_pole: NorthPole,
    project: Project,
    ring: Seq<(C, C)>,
    sample_count: usize,
    v: Seq<(C, C, C)>,
    pv: Vec<Point2D<C>>,
    ev: Vec<(u32, u32)>,
) -> bool {
    mesh_points_of(mesh_ops, ring, sample_count, v) && (exists|rotated: Seq<(C, C, C)>|
        #[trigger] rotation_result(rotation_ops, v, rotated) && projection_of(
            at_north_pole,
            project,
            rotated,
            pv@,
        )) && boundary_edge_cycle(ring.len() as int, ev@)
}

/// The full meshing pipeline for one polygon: mesh points (boundary first,
/// then retained Fibonacci samples), boundary constraint edges, rigid
/// rotation of all points to recenter on the south pole, stereographic
/// projection of every rotated point, and constrained triangulation of the
/// projected plane points by the caller's triangulation capability.
///
/// The returned vertices are the original, pre-rotation Cartesian mesh
/// points — rotation and projection are internal conditioning steps — and
/// every returned triangle index is verified to lie below the vertex count.
/// Any stage failure aborts the rest of the pipeline and is surfaced as the
/// corresponding error; no partial mesh is ever returned.
pub fn generate_polygon_feature_mesh<
    C: Copy,
    R: Copy,
    InRange: Copy + Fn(C, C) -> bool,
    ToCart: Copy + Fn(C, C) -> (C, C, C),
    Sample: Copy + Fn(usize, usize) -> (C, C),
    Contains: Fn((C, C)) -> bool,
    ToDeg: Fn((C, C)) -> (C, C),
    Add: Fn((C, C, C), (C, C, C)) -> (C, C, C),
    Scale: Fn((C, C, C), usize) -> (C, C, C),
    Small: Fn((C, C, C)) -> bool,
    Rot: Fn((C, C, C)) -> Option<R>,
    Apply: Fn(R, (C, C, C)) -> (C, C, C),
    NorthPole: Copy + Fn(C) -> bool,
    Project: Copy + Fn((C, C, C)) -> (C, C),
    Triangulate: Fn(Vec<Point2D<C>>, Vec<(u32, u32)>) -> Result<Vec<(u32, u32, u32)>, String>,
>(
    outer_ring: &Vec<(C, C)>,
    sample_count: usize,
    mesh_ops: &MeshOps<InRange, ToCart, Sample, Contains, ToDeg>,
    rotation_ops: &RotationOps<C, Add, Scale, Small, Rot, Apply>,
    at_north_pole: NorthPole,
    project: Project,
    triangulate: Triangulate,
) -> (result: Result<PolygonMeshData<C>, SphereKitError<C>>)
    requires
        outer_ring@.len() <= u32::MAX as usize,
        forall|a: C, b: C| #[trigger] call_requires(mesh_ops.in_range, (a, b)),
        forall|a: C, b: C| #[trigger] call_requires(mesh_ops.to_cartesian, (a, b)),
        forall|i: usize, d: usize| #[trigger] call_requires(mesh_ops.sample, (i, d)),
        forall|p: (C, C)| #[trigger] call_requires(mesh_ops.contains, (p,)),
        forall|p: (C, C)| #[trigger] call_requires(mesh_ops.to_degrees, (p,)),
        forall|a: (C, C, C), b: (C, C, C)| #[trigger] call_requires(rotation_ops.add, (a, b)),
        forall|a: (C, C, C), n: usize| #[trigger] call_requires(rotation_ops.scale_down, (a, n)),
        forall|a: (C, C, C)| #[trigger] call_requires(rotation_ops.is_negligible, (a,)),
        forall|a: (C, C, C)| #[trigger] call_requires(rotation_ops.rotation_to_south, (a,)),
        forall|r: R, a: (C, C, C)| #[trigger] call_requires(rotation_ops.apply, (r, a)),
        forall|z: C| #[trigger] call_requires(at_north_pole, (z,)),
        forall|p: (C, C, C)| #[trigger] call_requires(project, (p,)),
        forall|v: Vec<Point2D<C>>, e: Vec<(u32, u32)>| #[trigger] call_requires(
            triangulate,
            (v, e),
        ),
    ensures
        outer_ring@.len() == 0 ==> (result matches Err(SphereKitError::EmptyPointSetError(m))
            && m@ == "Outer ring cannot be empty"@),
        result matches Err(SphereKitError::EmptyPointSetError(_)) ==> outer_ring@.len() == 0,
        0 < outer_ring@.len() < 3 ==> (result matches Err(SphereKitError::MeshGenerationError(m))
            && m@ == "Outer ring must have at least 3 points to form a valid polygon"@),
        outer_ring@.len() >= 3 && sample_count == 0 ==> (result matches Err(
            SphereKitError::FibonacciError(m),
        ) && m@ == "Cannot generate zero points in fibonacci sphere"@),
        result matches Err(SphereKitError::FibonacciError(_)) ==> outer_ring@.len() >= 3
            && sample_count == 0,
        result matches Err(SphereKitError::CoordinateRangeError { longitude, latitude })
            ==> outer_ring@.len() >= 3 && sample_count > 0 && call_ensures(
            mesh_ops.in_range,
            (longitude, latitude),
            false,
        ) && (outer_ring@.contains((longitude, latitude)) || interior_provenance(
            mesh_ops.contains,
            mesh_ops.to_degrees,
            (longitude, latitude),
        )),
        result matches Err(SphereKitError::RotationError(m)) ==> (exists|
            v: Seq<(C, C, C)>,
            c: (C, C, C),
        |
            #![trigger centroid_of(rotation_ops.add, rotation_ops.scale_down, rotation_ops.origin, v, c)]
            mesh_points_of(*mesh_ops, outer_ring@, sample_count, v) && centroid_of(
                rotation_ops.add,
                rotation_ops.scale_down,
                rotation_ops.origin,
                v,
                c,
            ) && ((m@
                == "Points centroid is effectively zero; cannot determine rotation direction"@
                && call_ensures(rotation_ops.is_negligible, (c,), true)) || (m@
                == "Failed to compute rotation between points centroid and south pole"@
                && call_ensures(rotation_ops.is_negligible, (c,), false) && call_ensures(
                rotation_ops.rotation_to_south,
                (c,),
                Option::<R>::None,
            )))),
        result matches Err(SphereKitError::ProjectionError(m)) ==> m@
            == "Cannot project from the north pole (0, 0, 1)"@ && (exists|
            v: Seq<(C, C, C)>,
            rotated: Seq<(C, C, C)>,
            i: int,
        |
            #![trigger rotation_result(*rotation_ops, v, rotated), projection_blocked_at(at_north_pole, rotated, i)]
            mesh_points_of(*mesh_ops, outer_ring@, sample_count, v) && rotation_result(
                *rotation_ops,
                v,
                rotated,
            ) && projection_blocked_at(at_north_pole, rotated, i)),
        result matches Err(SphereKitError::MeshGenerationError(m)) ==> (0 < outer_ring@.len() < 3
            && m@ == "Outer ring must have at least 3 points to form a valid polygon"@) || (exists|
            v: Seq<(C, C, C)>,
            pv: Vec<Point2D<C>>,
            ev: Vec<(u32, u32)>,
        |
            #[trigger] triangulation_input_of(
                *mesh_ops,
                *rotation_ops,
                at_north_pole,
                project,
                outer_ring@,
                sample_count,
                v,
                pv,
                ev,
            ) && (call_ensures(triangulate, (pv, ev), Err::<Vec<(u32, u32, u32)>, String>(m)) || (
            m@ == "Triangulation returned a vertex index out of range"@ && exists|
                tv: Vec<(u32, u32, u32)>,
            |
                #[trigger] call_ensures(
                    triangulate,
                    (pv, ev),
                    Ok::<Vec<(u32, u32, u32)>, String>(tv),
                ) && triple_index_out_of_range(tv@, v.len() as int)))),
        result matches Err(e) ==> (e matches SphereKitError::EmptyPointSetError(_) || e matches
            SphereKitError::MeshGenerationError(_) || e matches SphereKitError::FibonacciError(_)
            || e matches SphereKitError::CoordinateRangeError { .. } || e matches
            SphereKitError::RotationError(_) || e matches SphereKitError::ProjectionError(_)),
        result matches Ok(mesh) ==> outer_ring@.len() >= 3 && sample_count > 0 && mesh_points_of(
            *mesh_ops,
            outer_ring@,
            sample_count,
            mesh.vertices@,
        ) && mesh.vertices@.len() >= outer_ring@.len() && mesh.triangles@.len() % 3 == 0 && (forall|
            i: int,
        |
            0 <= i < mesh.triangles@.len() ==> (#[trigger] mesh.triangles@[i] as int)
                < mesh.vertices@.len()) && (exists|
            pv: Vec<Point2D<C>>,
            ev: Vec<(u32, u32)>,
            tv: Vec<(u32, u32, u32)>,
        |
            #[trigger] call_ensures(
                triangulate,
                (pv, ev),
                Ok::<Vec<(u32, u32, u32)>, String>(tv),
            ) && triangulation_input_of(
                *mesh_ops,
                *rotation_ops,
                at_north_pole,
                project,
                outer_ring@,
                sample_count,
                mesh.vertices@,
                pv,
                ev,
            ) && flattened_triangles(tv@, mesh.triangles@)),
{
    let vertices = match get_mesh_points(outer_ring, sample_count, mesh_ops) {
        Ok(v) => v,
        Err(e) => {
            return Err(e);
        },
    };
    let edges = boundary_edges(outer_ring.len());
    let rotated = match rotate_points_to_south_pole(&vertices, rotation_ops) {
        Ok(v) => v,
        Err(e) => {
            return Err(e);
        },
    };
    let mut projected: Vec<Point2D<C>> = Vec::new();
    let mut i: usize = 0;
    while i < rotated.len()
        invariant
            i <= rotated@.len(),
            projected@.len() == i,
            outer_ring@.len() >= 3,
            sample_count > 0,
            mesh_points_of(*mesh_ops, outer_ring@, sample_count, vertices@),
            rotation_result(*rotation_ops, vertices@, rotated@),
            boundary_edge_cycle(outer_ring@.len() as int, edges@),
            forall|k: int|
                0 <= k < i ==> projected_point_of(
                    at_north_pole,
                    project,
                    rotated@[k],
                    #[trigger] projected@[k],
                ),
            forall|z: C| #[trigger] call_requires(at_north_pole, (z,)),
            forall|p: (C, C, C)| #[trigger] call_requires(project, (p,)),
        decreases rotated@.len() - i,
    {
        match stereographic_projection(rotated[i], at_north_pole, project) {
            Ok(q) => {
                projected.push(Point2D { x: q.0, y: q.1 });
                proof {
                    assert(projected_point_of(
                        at_north_pole,
                        project,
                        rotated@[i as int],
                        projected@[i as int],
                    ));
                }
            },
            Err(e) => {
                proof {
                    assert(projection_blocked_at(at_north_pole, rotated@, i as int));
                }
                return Err(e);
            },
        }
        i += 1;
    }
    let ghost pv = projected;
    let ghost ev = edges;
    proof {
        assert(projection_of(at_north_pole, project, rotated@, pv@));
        assert(triangulation_input_of(
            *mesh_ops,
            *rotation_ops,
            at_north_pole,
            project,
            outer_ring@,
            sample_count,
            vertices@,
            pv,
            ev,
        ));
    }
    let outcome = triangulate(projected, edges);
    let tris = match outcome {
        Ok(t) => t,
        Err(m) => {
            proof {
                assert(call_ensures(triangulate, (pv, ev), Err::<Vec<(u32, u32, u32)>, String>(m)));
            }
            return Err(SphereKitError::MeshGenerationError(m));
        },
    };
    proof {
        assert(call_ensures(triangulate, (pv, ev), Ok::<Vec<(u32, u32, u32)>, String>(tris)));
    }
    let triangles = flatten_triangles(&tris);
    if !indices_in_bounds(&triangles, vertices.len()) {
        proof {
            let j = choose|j: int|
                0 <= j < triangles@.len() && !((triangles@[j] as int) < vertices@.len());
            assert(flat_entry_from(tris@, triangles@[j]));
            assert(triple_index_out_of_range(tris@, vertices@.len() as int));
        }
        return Err(
            SphereKitError::MeshGenerationError(
                String::from_str("Triangulation returned a vertex index out of range"),
            ),
        );
    }
    Ok(PolygonMeshData { vertices, triangles })
}

/// Law: an interior selection never keeps more points than it was offered.
pub proof fn lemma_interior_selection_len<
    C,
    Contains: Fn((C, C)) -> bool,
    ToDeg: Fn((C, C)) -> (C, C),
>(contains: Contains, to_degrees: ToDeg, candidates: Seq<(C, C)>, kept: Seq<(C, C)>)
    requires
        interior_selection(contains, to_degrees, candidates, kept),
    ensures
        kept.len() <= candidates.len(),
    decreases candidates.len(),
{
    if candidates.len() > 0 {
        let p = candidates.last();
        if call_ensures(contains, (p,), true) && kept.len() > 0 && call_ensures(
            to_degrees,
            (p,),
            kept.last(),
        ) && interior_selection(contains, to_degrees, candidates.drop_last(), kept.drop_last()) {
            lemma_interior_selection_len(
                contains,
                to_degrees,
                candidates.drop_last(),
                kept.drop_last(),
            );
        } else {
            lemma_interior_selection_len(contains, to_degrees, candidates.drop_last(), kept);
        }
    }
}

/// Law: a selection under a containment capability that reports every
/// candidate inside keeps every candidate — the filter never drops a point
/// on its own.
pub proof fn lemma_interior_selection_keeps_all<
    C,
    Contains: Fn((C, C)) -> bool,
    ToDeg: Fn((C, C)) -> (C, C),
>(contains: Contains, to_degrees: ToDeg, candidates: Seq<(C, C)>, kept: Seq<(C, C)>)
    requires
        interior_selection(contains, to_degrees, candidates, kept),
        forall|p: (C, C), r: bool| #[trigger] call_ensures(contains, (p,), r) ==> r,
    ensures
        kept.len() == candidates.len(),
    decreases candidates.len(),
{
    if candidates.len() > 0 {
        let p = candidates.last();
        if call_ensures(contains, (p,), true) && kept.len() > 0 && call_ensures(
            to_degrees,
            (p,),
            kept.last(),
        ) && interior_selection(contains, to_degrees, candidates.drop_last(), kept.drop_last()) {
            lemma_interior_selection_keeps_all(
                contains,
                to_degrees,
                candidates.drop_last(),
                kept.drop_last(),
            );
        } else {
            assert(call_ensures(contains, (p,), false));
            assert(false);
        }
    }
}

/// Law: every mesh-point sequence for a ring starts with the conversions of
/// the ring's own vertices — the boundary occupies the leading index range —
/// and holds at least the ring's vertices and at most the ring's vertices
/// plus one point per sample drawn.
pub proof fn lemma_mesh_points_count<
    C,
    InRange: Fn(C, C) -> bool,
    ToCart: Fn(C, C) -> (C, C, C),
    Sample: Fn(usize, usize) -> (C, C),
    Contains: Fn((C, C)) -> bool,
    ToDeg: Fn((C, C)) -> (C, C),
>(
    ops: MeshOps<InRange, ToCart, Sample, Contains, ToDeg>,
    ring: Seq<(C, C)>,
    sample_count: usize,
    points: Seq<(C, C, C)>,
)
    requires
        mesh_points_of(ops, ring, sample_count, points),
    ensures
        ring.len() <= points.len() <= ring.len() + sample_count,
        forall|i: int|
            0 <= i < ring.len() ==> converted_point(
                ops.in_range,
                ops.to_cartesian,
                ring[i],
                #[trigger] points[i],
            ),
{
    let (candidates, kept): (Seq<(C, C)>, Seq<(C, C)>) = choose|
        candidates: Seq<(C, C)>,
        kept: Seq<(C, C)>,
    |
        #[trigger] interior_selection(ops.contains, ops.to_degrees, candidates, kept)
            && sampled_sphere(ops.sample, sample_count, candidates) && points.len() == ring.len()
            + kept.len() && (forall|i: int|
            0 <= i < ring.len() ==> converted_point(
                ops.in_range,
                ops.to_cartesian,
                ring[i],
                #[trigger] points[i],
            )) && (forall|j: int|
            0 <= j < kept.len() ==> converted_point(
                ops.in_range,
                ops.to_cartesian,
                kept[j],
                #[trigger] points[ring.len() + j],
            ));
    lemma_interior_selection_len(ops.contains, ops.to_degrees, candidates, kept);
}

/// Law: constraint edges address boundary indices only — both endpoints of
/// every edge of an `n`-vertex ring lie below `n`.
pub proof fn lemma_boundary_edges_in_ring(n: int, edges: Seq<(u32, u32)>)
    requires
        boundary_edge_cycle(n, edges),
        n <= u32::MAX as int,
    ensures
        forall|k: int|
            0 <= k < edges.len() ==> ((#[trigger] edges[k]).0 as int) < n && (edges[k].1 as int)
                < n,
{
    assert forall|k: int|
        0 <= k < edges.len() implies ((#[trigger] edges[k]).0 as int) < n && (edges[k].1 as int)
        < n by {
        assert(edges[k] == (k as u32, (((k + 1) % n) as u32)));
        assert(0 <= (k + 1) % n < n);
    }
}

} // verus!
