mod errors;
mod fibonacci;
mod geometry;
mod polygon;

pub use errors::SphereKitError;
pub use fibonacci::fibonacci_denominator;
pub use fibonacci::fibonacci_sphere;
pub use geometry::Point2D;
pub use geometry::RotationOps;
pub use geometry::centroid_of;
pub use geometry::inverse_stereographic_projection;
pub use geometry::ll_to_cartesian;
pub use geometry::projected_point_of;
pub use geometry::projection_blocked_at;
pub use geometry::projection_of;
pub use geometry::rotate_points_to_south_pole;
pub use geometry::rotation_result;
pub use geometry::stereographic_projection;
pub use geometry::sums_to;
pub use polygon::DEFAULT_FIBONACCI_POINT_COUNT;
pub use polygon::MeshOps;
pub use polygon::PolygonMeshData;
pub use polygon::boundary_edge_cycle;
pub use polygon::boundary_edges;
pub use polygon::converted_point;
pub use polygon::flat_entry_from;
pub use polygon::flatten_triangles;
pub use polygon::flattened_triangles;
pub use polygon::generate_polygon_feature_mesh;
pub use polygon::get_mesh_points;
pub use polygon::indices_in_bounds;
pub use polygon::interior_provenance;
pub use polygon::interior_selection;
pub use polygon::lemma_boundary_edges_in_ring;
pub use polygon::lemma_interior_selection_keeps_all;
pub use polygon::lemma_interior_selection_len;
pub use polygon::lemma_mesh_points_count;
pub use polygon::mesh_points_of;
pub use polygon::sampled_sphere;
pub use polygon::triangulation_input_of;
pub use polygon::triple_index_out_of_range;
