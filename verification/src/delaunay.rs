//! Delaunay triangulation of a 2D point set, reduced to its adjacency graph.
//!
//! The triangulation itself is computed by the `delaunator` crate; points are
//! therefore carried as opaque `delaunator::Point` values. What this module
//! verifies is everything after the triangulation: the flat index list is
//! turned into an undirected, deduplicated, symmetric adjacency graph.
//!
//! The triangulator misbehaves on NaN or infinite coordinates (its hull walk
//! can index out of bounds), so every path into it first establishes
//! `points_finite`, through the trusted finiteness check.

use vstd::prelude::*;

use crate::graph::{empty_edges, graph_edges_of, graph_from_triangles, no_dups, no_self_loops,
    symmetric, DMGraph};
use crate::laws::{distinct_triples, law_graph_no_self_loops, law_graph_of_no_triangles,
    law_graph_symmetric_no_dups};
use crate::GeometryError;

verus! {

#[verifier::external_type_specification]
#[verifier::external_body]
pub struct ExPoint(delaunator::Point);

/// Whether every coordinate of every point is finite (neither NaN nor
/// infinite); a function of the point values alone.
pub uninterp spec fn points_finite(pts: Seq<delaunator::Point>) -> bool;

/// Relies on the standard library's floating-point finiteness test: returns
/// true exactly when every coordinate of every point is finite, that is,
/// neither NaN nor infinite.
#[verifier::external_body]
pub(crate) fn points_are_finite(points: &Vec<delaunator::Point>) -> (r: bool)
    ensures
        r == points_finite(points@),
{
    for p in points.iter() {
        if !p.x.is_finite() || !p.y.is_finite() {
            return false;
        }
    }
    true
}

/// The flat triangle list (vertex-index triples) of the Delaunay
/// triangulation of `pts`; it is a function of the point coordinates alone.
pub uninterp spec fn delaunay_triangles_of(pts: Seq<delaunator::Point>) -> Seq<usize>;

/// Relies on delaunator::triangulate: the `triangles` field of the returned
/// triangulation lists the vertex indices of the Delaunay triangles, three
/// per triangle, each an index into `points` and the three always pairwise
/// distinct; fewer than three input points admit no triangle at all. The
/// finiteness precondition keeps out coordinates on which the triangulator's
/// hull walk indexes out of bounds.
#[verifier::external_body]
fn triangulate_indices(points: &Vec<delaunator::Point>) -> (r: Vec<usize>)
    requires
        points_finite(points@),
    ensures
        r@ == delaunay_triangles_of(points@),
        r@.len() % 3 == 0,
        forall|i: int| 0 <= i < r@.len() ==> r@[i] < points@.len(),
        distinct_triples(r@),
        points@.len() < 3 ==> r@.len() == 0,
{
    delaunator::triangulate(points).triangles
}

/// Triangulates `points` and returns the undirected adjacency graph whose
/// edges are exactly the triangulation's edges, over the same indices: one
/// vertex per point, symmetric neighbor lists without duplicates or
/// self-loops. Fewer than three points admit no triangle and yield a graph
/// with every neighbor list empty.
pub fn triangulate_to_graph(points: &Vec<delaunator::Point>) -> (g: DMGraph)
    requires
        points_finite(points@),
    ensures
        g.wf(),
        g.count == points@.len(),
        g@ == graph_edges_of(points@.len() as nat, delaunay_triangles_of(points@)),
        symmetric(g@),
        no_dups(g@),
        no_self_loops(g@),
        points@.len() < 3 ==> g@ == empty_edges(points@.len() as nat),
{
    let tris = triangulate_indices(points);
    let g = graph_from_triangles(points.len(), &tris);
    proof {
        law_graph_symmetric_no_dups(points@.len() as nat, tris@);
        law_graph_no_self_loops(points@.len() as nat, tris@);
        if points@.len() < 3 {
            law_graph_of_no_triangles(points@.len() as nat, tris@);
        }
    }
    g
}

/// Checks the points and then triangulates them: a point set with a NaN or
/// infinite coordinate is refused with `InvalidArgument` before any geometry
/// is built; any other point set yields the triangulation's adjacency graph,
/// exactly as `triangulate_to_graph` describes it.
pub fn triangulate_to_graph_checked(points: &Vec<delaunator::Point>) -> (r: Result<
    DMGraph,
    GeometryError,
>)
    ensures
        match r {
            Ok(g) => {
                &&& points_finite(points@)
                &&& g.wf()
                &&& g.count == points@.len()
                &&& g@ == graph_edges_of(points@.len() as nat, delaunay_triangles_of(points@))
                &&& symmetric(g@)
                &&& no_dups(g@)
                &&& no_self_loops(g@)
                &&& points@.len() < 3 ==> g@ == empty_edges(points@.len() as nat)
            },
            Err(e) => e == GeometryError::InvalidArgument && !points_finite(points@),
        },
{
    if points_are_finite(points) {
        Ok(triangulate_to_graph(points))
    } else {
        Err(GeometryError::InvalidArgument)
    }
}

} // verus!
