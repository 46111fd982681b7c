use vstd::prelude::*;

verus! {

/// Unified failure taxonomy for the spherical meshing pipeline.
///
/// Every fallible operation of this crate returns exactly one of these
/// variants, with a payload sufficient to reconstruct the failing condition.
/// Errors are data, never control flow: no operation panics inside its
/// documented domain.
///
/// The scalar type `C` is the coordinate representation chosen by the caller.
/// The pipeline never inspects scalar values itself — it consults the
/// caller's numeric capabilities — so offending coordinates are carried back
/// verbatim.
#[derive(Debug, Clone, PartialEq)]
pub enum SphereKitError<C> {
    /// A longitude outside [-180, 180] or a latitude outside [-90, 90]
    /// degrees, as judged by the caller's range capability.
    CoordinateRangeError { longitude: C, latitude: C },
    /// Stereographic projection was asked to project from the north pole,
    /// which is the projection's singularity.
    ProjectionError(String),
    /// Inverse stereographic projection received a non-finite input.
    InverseProjectionError(String),
    /// Fibonacci sphere sampling was asked for an impossible point count.
    FibonacciError(String),
    /// Mesh generation failed: a boundary ring with too few vertices, or a
    /// triangulation that failed or addressed a vertex out of range.
    MeshGenerationError(String),
    /// No rotation taking the point set's centroid to the south pole could
    /// be determined.
    RotationError(String),
    /// An operation that needs at least one point received none.
    EmptyPointSetError(String),
}

} // verus!
