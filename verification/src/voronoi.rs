//! Voronoi diagrams bounded by a caller-supplied box, paired with the
//! adjacency graph of their dual Delaunay triangulation.
//!
//! The diagram is computed by the `voronoice` crate and carried as an opaque
//! `voronoice::Voronoi` value; callers read the per-site cell polygons from
//! it. What this module verifies is the graph derived from the diagram's
//! triangulation, and the shape of the whole call: which arguments are
//! refused outright, exactly when a diagram is produced, when the single-site
//! fallback applies, and when the call fails.
//!
//! The builder's clipping arithmetic is not robust: on some near-degenerate
//! site sets (a sliver triangle whose circumcenter overflows to infinity) it
//! faults instead of returning. `voronoi_build_outcome` names what the
//! builder does on given arguments, and every path into it carries the
//! precondition that the construction completes; this library cannot decide
//! that predicate, it can only make the assumption explicit.

use vstd::prelude::*;

use crate::delaunay::{points_are_finite, points_finite};
use crate::graph::{empty_edges, graph_edges_of, graph_from_triangles, no_dups, no_self_loops,
    symmetric, DMGraph};
use crate::laws::{distinct_triples, law_graph_no_self_loops, law_graph_of_no_triangles,
    law_graph_symmetric_no_dups};
use crate::GeometryError;

verus! {

#[verifier::external_type_specification]
#[verifier::external_body]
pub struct ExBoundingBox(voronoice::BoundingBox);

#[verifier::external_type_specification]
#[verifier::external_body]
pub struct ExVoronoi(voronoice::Voronoi);

/// What `VoronoiBuilder::build` does on these sites and box; a function of
/// the arguments alone. `None` stands for the runs on which the builder's
/// non-robust clipping arithmetic faults instead of returning; `Some(built)`
/// for the runs that complete, with `built` telling whether a diagram comes
/// back rather than nothing.
pub uninterp spec fn voronoi_build_outcome(
    sites: Seq<voronoice::Point>,
    bounds: voronoice::BoundingBox,
) -> Option<bool>;

/// The number of sites a built diagram holds: the given sites that lay inside
/// its bounding box, in their given order.
pub uninterp spec fn voronoi_site_count(v: voronoice::Voronoi) -> nat;

/// The flat triangle list (site-index triples) of the Delaunay triangulation
/// underlying a built diagram.
pub uninterp spec fn voronoi_triangles_of(v: voronoice::Voronoi) -> Seq<usize>;

/// Relies on voronoice::VoronoiBuilder: on the runs that complete, `build`
/// returns `None` exactly when no triangle can be formed from the kept sites,
/// and a returned diagram keeps the sites that lie inside the bounding box,
/// never more than were given. The precondition leaves out the arguments on
/// which the builder faults.
#[verifier::external_body]
fn build_voronoi(sites: Vec<voronoice::Point>, bounds: voronoice::BoundingBox) -> (r: Option<
    voronoice::Voronoi,
>)
    requires
        voronoi_build_outcome(sites@, bounds) is Some,
    ensures
        (r is Some) == (voronoi_build_outcome(sites@, bounds) == Some(true)),
        match r {
            Some(v) => voronoi_site_count(v) <= sites@.len(),
            None => true,
        },
{
    voronoice::VoronoiBuilder::default().set_sites(sites).set_bounding_box(bounds).build()
}

/// Relies on voronoice::Voronoi::sites: the diagram answers for exactly this
/// many sites, and cell indices range over them.
#[verifier::external_body]
fn voronoi_site_len(v: &voronoice::Voronoi) -> (n: usize)
    ensures
        n == voronoi_site_count(*v),
{
    v.sites().len()
}

/// Relies on voronoice::Voronoi::triangulation: its `triangles` vector holds
/// the vertex indices of the Delaunay triangles over the diagram's sites,
/// three per triangle, each below the site count and the three always
/// pairwise distinct.
#[verifier::external_body]
fn voronoi_triangle_indices(v: &voronoice::Voronoi) -> (r: Vec<usize>)
    ensures
        r@ == voronoi_triangles_of(*v),
        r@.len() % 3 == 0,
        forall|i: int| 0 <= i < r@.len() ==> r@[i] < voronoi_site_count(*v),
        distinct_triples(r@),
{
    v.triangulation().triangles.clone()
}

/// Builds the adjacency graph of a diagram's Delaunay triangulation: one
/// vertex per site, one undirected edge per triangulation edge; the neighbor
/// lists are symmetric, without duplicates or self-loops.
pub fn graph_of_voronoi(v: &voronoice::Voronoi) -> (g: DMGraph)
    ensures
        g.wf(),
        g.count == voronoi_site_count(*v),
        g@ == graph_edges_of(voronoi_site_count(*v), voronoi_triangles_of(*v)),
        symmetric(g@),
        no_dups(g@),
        no_self_loops(g@),
{
    let n = voronoi_site_len(v);
    let tris = voronoi_triangle_indices(v);
    let g = graph_from_triangles(n, &tris);
    proof {
        law_graph_symmetric_no_dups(voronoi_site_count(*v), tris@);
        law_graph_no_self_loops(voronoi_site_count(*v), tris@);
    }
    g
}

/// A built diagram together with the adjacency graph of its dual
/// triangulation. `diagram` is `None` only for the single-site call, where no
/// triangulation exists and the one site's cell is the entire bounding box.
pub struct VoronoiGraph {
    pub diagram: Option<voronoice::Voronoi>,
    pub graph: DMGraph,
}

/// Builds the Voronoi diagram of `sites` clipped to `bounds`, and the
/// adjacency graph of its dual triangulation.
///
/// A negative bounding-box margin (reported by the caller, who computed the
/// box) or a NaN or infinite coordinate is refused with `InvalidArgument`
/// before any geometry is built — never answered with a silently shrunken or
/// broken box. A single site always succeeds: its cell is the entire bounding
/// box, and its graph has one vertex and no edges. No sites, or sites that
/// admit no triangle (two sites, collinear sites, a box that excludes them),
/// fail with `ConstructionError`; no partial result is returned. The
/// precondition assumes the builder completes on the arguments it is actually
/// given; on arguments where its float arithmetic faults, this library
/// cannot do better.
pub fn voronoi_diagram_graph(
    sites: Vec<voronoice::Point>,
    bounds: voronoice::BoundingBox,
    margin_nonnegative: bool,
) -> (r: Result<VoronoiGraph, GeometryError>)
    requires
        (margin_nonnegative && points_finite(sites@) && sites@.len() >= 2)
            ==> voronoi_build_outcome(sites@, bounds) is Some,
    ensures
        !(margin_nonnegative && points_finite(sites@)) ==> r == Err::<
            VoronoiGraph,
            GeometryError,
        >(GeometryError::InvalidArgument),
        margin_nonnegative && points_finite(sites@) ==> match r {
            Ok(vg) => {
                &&& vg.graph.wf()
                &&& symmetric(vg.graph@)
                &&& no_dups(vg.graph@)
                &&& no_self_loops(vg.graph@)
                &&& match vg.diagram {
                    Some(v) => sites@.len() >= 2 && voronoi_build_outcome(sites@, bounds) == Some(
                        true,
                    ) && voronoi_site_count(v) <= sites@.len() && vg.graph.count
                        == voronoi_site_count(v) && vg.graph@ == graph_edges_of(
                        voronoi_site_count(v),
                        voronoi_triangles_of(v),
                    ),
                    None => sites@.len() == 1 && vg.graph.count == 1 && vg.graph@ == empty_edges(
                        1,
                    ),
                }
            },
            Err(e) => {
                &&& e == GeometryError::ConstructionError
                &&& sites@.len() != 1
                &&& sites@.len() >= 2 ==> voronoi_build_outcome(sites@, bounds) == Some(false)
            },
        },
        margin_nonnegative && points_finite(sites@) && sites@.len() == 1 ==> r is Ok,
        margin_nonnegative && points_finite(sites@) && sites@.len() == 0 ==> r is Err,
{
    if !margin_nonnegative {
        return Err(GeometryError::InvalidArgument);
    }
    if !points_are_finite(&sites) {
        return Err(GeometryError::InvalidArgument);
    }
    let n = sites.len();
    if n == 0 {
        return Err(GeometryError::ConstructionError);
    }
    if n == 1 {
        let g = DMGraph::empty_of_size(1);
        proof {
            law_graph_symmetric_no_dups(1, Seq::<usize>::empty());
            law_graph_no_self_loops(1, Seq::<usize>::empty());
            law_graph_of_no_triangles(1, Seq::<usize>::empty());
        }
        return Ok(VoronoiGraph { diagram: None, graph: g });
    }
    match build_voronoi(sites, bounds) {
        Some(v) => {
            let g = graph_of_voronoi(&v);
            Ok(VoronoiGraph { diagram: Some(v), graph: g })
        },
        None => Err(GeometryError::ConstructionError),
    }
}

} // verus!

