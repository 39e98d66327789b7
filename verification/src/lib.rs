//! Planar geometry pipeline: Delaunay triangulations turned into undirected
//! adjacency graphs, and Voronoi diagrams bounded by a caller-supplied box.
//!
//! The graph construction is verified end to end; the triangulations and
//! diagrams themselves come from the `delaunator` and `voronoice` crates
//! through a small set of trusted wrappers.

use vstd::prelude::*;

pub mod delaunay;
pub mod graph;
pub mod laws;
pub mod voronoi;

verus! {

/// Why a geometry call was refused.
#[derive(Clone, Copy, Debug, PartialEq, Eq, Structural)]
pub enum GeometryError {
    /// A numeric argument was outside its allowed range (for instance a
    /// negative bounding-box margin, or a coordinate that is not finite).
    InvalidArgument,
    /// The pipeline could not produce a valid diagram for the given sites
    /// and bounding box; no partial result is returned.
    ConstructionError,
}

} // verus!
