//! Properties of built graphs: every graph assembled from a triangle list is
//! well-formed, symmetric and free of duplicate neighbor entries; triangles
//! with three distinct corners never create self-loops; and feeding the same
//! triangle list through the builder a second time changes nothing.

use vstd::prelude::*;

use crate::graph::{
    empty_edges, graph_edges_of, insert_edge, insert_single, insert_triangle, insert_triangles,
    no_dups, no_self_loops, symmetric, tris_in_range, wf_edges,
};

verus! {

/// The undirected edge `{a, b}` is recorded in both endpoints' lists.
pub open spec fn edge_present(edges: Seq<Seq<usize>>, a: usize, b: usize) -> bool {
    edges[a as int].contains(b) && edges[b as int].contains(a)
}

/// All three edges of triangle `(a, b, c)` are recorded.
pub open spec fn triangle_edges_present(
    edges: Seq<Seq<usize>>,
    a: usize,
    b: usize,
    c: usize,
) -> bool {
    edge_present(edges, a, b) && edge_present(edges, a, c) && edge_present(edges, b, c)
}

/// Every full triple of the flat triangle list has its edges recorded.
pub open spec fn triangles_present(edges: Seq<Seq<usize>>, tris: Seq<usize>) -> bool
    decreases tris.len(),
{
    tris.len() < 3 || (triangle_edges_present(edges, tris[0], tris[1], tris[2])
        && triangles_present(edges, tris.subrange(3, tris.len() as int)))
}

/// Every full triple of the flat triangle list has three pairwise distinct
/// corners.
pub open spec fn distinct_triples(tris: Seq<usize>) -> bool
    decreases tris.len(),
{
    tris.len() < 3 || (tris[0] != tris[1] && tris[0] != tris[2] && tris[1] != tris[2]
        && distinct_triples(tris.subrange(3, tris.len() as int)))
}

proof fn lemma_push_contains(s: Seq<usize>, v: usize, x: usize)
    ensures
        s.push(v).contains(x) <==> (s.contains(x) || x == v),
{
    if s.push(v).contains(x) {
        let m = choose|m: int| 0 <= m < s.push(v).len() && s.push(v)[m] == x;
        if m < s.len() {
            assert(s[m] == x);
        }
    }
    if s.contains(x) {
        let m = choose|m: int| 0 <= m < s.len() && s[m] == x;
        assert(s.push(v)[m] == x);
    }
    assert(s.push(v)[s.len() as int] == v);
}

proof fn lemma_insert_single_facts(edges: Seq<Seq<usize>>, a: usize, b: usize)
    requires
        a < edges.len(),
    ensures
        ({
            let r = insert_single(edges, a, b);
            &&& r.len() == edges.len()
            &&& r[a as int].contains(b)
            &&& forall|i: int| 0 <= i < edges.len() && i != a ==> r[i] == edges[i]
            &&& (r[a as int] == edges[a as int] || (r[a as int] == edges[a as int].push(b)
                && !edges[a as int].contains(b)))
            &&& forall|i: int, x: usize|
                0 <= i < edges.len() && edges[i].contains(x) ==> #[trigger] r[i].contains(x)
            &&& forall|i: int, x: usize|
                0 <= i < edges.len() && #[trigger] r[i].contains(x) ==> edges[i].contains(x) || (i
                    == a && x == b)
        }),
{
    let r = insert_single(edges, a, b);
    if !edges[a as int].contains(b) {
        assert forall|x: usize| true implies (#[trigger] r[a as int].contains(x) <==> (
        edges[a as int].contains(x) || x == b)) by {
            lemma_push_contains(edges[a as int], b, x);
        }
    }
}

proof fn lemma_insert_edge_facts(edges: Seq<Seq<usize>>, a: usize, b: usize)
    requires
        a < edges.len(),
        b < edges.len(),
    ensures
        ({
            let r = insert_edge(edges, a, b);
            &&& r.len() == edges.len()
            &&& edge_present(r, a, b)
            &&& forall|i: int| 0 <= i < edges.len() && i != a && i != b ==> r[i] == edges[i]
            &&& forall|i: int, x: usize|
                0 <= i < edges.len() && edges[i].contains(x) ==> #[trigger] r[i].contains(x)
            &&& forall|i: int, x: usize|
                0 <= i < edges.len() && #[trigger] r[i].contains(x) ==> edges[i].contains(x) || (i
                    == a && x == b) || (i == b && x == a)
        }),
{
    let e1 = insert_single(edges, a, b);
    lemma_insert_single_facts(edges, a, b);
    lemma_insert_single_facts(e1, b, a);
}

proof fn lemma_insert_edge_preserves(edges: Seq<Seq<usize>>, a: usize, b: usize, count: nat)
    requires
        wf_edges(edges, count),
        a < count,
        b < count,
    ensures
        ({
            let r = insert_edge(edges, a, b);
            &&& wf_edges(r, count)
            &&& symmetric(edges) ==> symmetric(r)
            &&& no_dups(edges) ==> no_dups(r)
            &&& (no_self_loops(edges) && a != b) ==> no_self_loops(r)
        }),
{
    let e1 = insert_single(edges, a, b);
    let r = insert_edge(edges, a, b);
    lemma_insert_single_facts(edges, a, b);
    lemma_insert_single_facts(e1, b, a);
    lemma_insert_single_preserves(edges, a, b, count);
    lemma_insert_single_preserves(e1, b, a, count);
    if symmetric(edges) {
        assert forall|p: usize, q: usize| p < r.len() && q < r.len() implies (
        #[trigger] r[p as int].contains(q)) == r[q as int].contains(p) by {
            lemma_insert_edge_facts(edges, a, b);
            if r[p as int].contains(q) {
                assert(edges[p as int].contains(q) || (p == a && q == b) || (p == b && q == a));
                if edges[p as int].contains(q) {
                    assert(edges[q as int].contains(p));
                }
                assert(r[q as int].contains(p));
            }
            if r[q as int].contains(p) {
                assert(edges[q as int].contains(p) || (q == a && p == b) || (q == b && p == a));
                if edges[q as int].contains(p) {
                    assert(edges[p as int].contains(q));
                }
                assert(r[p as int].contains(q));
            }
        }
    }
    if no_self_loops(edges) && a != b {
        assert forall|i: int| 0 <= i < r.len() implies !(#[trigger] r[i].contains(i as usize)) by {
            lemma_insert_edge_facts(edges, a, b);
            if r[i].contains(i as usize) {
                assert(edges[i].contains(i as usize) || (i == a && i as usize == b) || (i == b && i
                    as usize == a));
            }
        }
    }
}

proof fn lemma_insert_single_preserves(edges: Seq<Seq<usize>>, a: usize, b: usize, count: nat)
    requires
        wf_edges(edges, count),
        a < count,
        b < count,
    ensures
        ({
            let r = insert_single(edges, a, b);
            &&& wf_edges(r, count)
            &&& no_dups(edges) ==> no_dups(r)
        }),
{
    let r = insert_single(edges, a, b);
    lemma_insert_single_facts(edges, a, b);
    if !edges[a as int].contains(b) {
        let row = edges[a as int];
        let new_row = row.push(b);
        assert forall|k: int, l: int| 0 <= k < l < new_row.len() && no_dups(edges) implies
            new_row[k] != new_row[l] by {
            if l == row.len() {
                assert(new_row[l] == b);
                assert(new_row[k] == row[k]);
                if row[k] == b {
                    assert(row.contains(b));
                }
            }
        }
        assert(wf_edges(r, count)) by {
            assert forall|i: int, k: int|
                0 <= i < r.len() && 0 <= k < r[i].len() implies (#[trigger] r[i][k]) < count by {
                if i == a && k == row.len() {
                    assert(r[i][k] == b);
                }
            }
        }
        if no_dups(edges) {
            assert forall|i: int, k: int, l: int|
                0 <= i < r.len() && 0 <= k < l < r[i].len() implies (#[trigger] r[i][k]) != (
            #[trigger] r[i][l]) by {
                if i == a {
                    assert(new_row[k] != new_row[l]);
                }
            }
        }
    }
}

proof fn lemma_insert_triangle_preserves(
    edges: Seq<Seq<usize>>,
    a: usize,
    b: usize,
    c: usize,
    count: nat,
)
    requires
        wf_edges(edges, count),
        a < count,
        b < count,
        c < count,
    ensures
        ({
            let r = insert_triangle(edges, a, b, c);
            &&& wf_edges(r, count)
            &&& symmetric(edges) ==> symmetric(r)
            &&& no_dups(edges) ==> no_dups(r)
            &&& (no_self_loops(edges) && a != b && a != c && b != c) ==> no_self_loops(r)
            &&& forall|i: int, x: usize|
                0 <= i < count && edges[i].contains(x) ==> #[trigger] r[i].contains(x)
            &&& triangle_edges_present(r, a, b, c)
        }),
{
    let e1 = insert_edge(edges, a, b);
    let e2 = insert_edge(e1, a, c);
    let r = insert_edge(e2, b, c);
    lemma_insert_edge_facts(edges, a, b);
    lemma_insert_edge_preserves(edges, a, b, count);
    lemma_insert_edge_facts(e1, a, c);
    lemma_insert_edge_preserves(e1, a, c, count);
    lemma_insert_edge_facts(e2, b, c);
    lemma_insert_edge_preserves(e2, b, c, count);
}

proof fn lemma_insert_triangles_preserves(edges: Seq<Seq<usize>>, tris: Seq<usize>, count: nat)
    requires
        wf_edges(edges, count),
        tris_in_range(tris, count),
    ensures
        ({
            let r = insert_triangles(edges, tris);
            &&& wf_edges(r, count)
            &&& symmetric(edges) ==> symmetric(r)
            &&& no_dups(edges) ==> no_dups(r)
            &&& (no_self_loops(edges) && distinct_triples(tris)) ==> no_self_loops(r)
            &&& forall|i: int, x: usize|
                0 <= i < count && edges[i].contains(x) ==> #[trigger] r[i].contains(x)
        }),
    decreases tris.len(),
{
    if tris.len() >= 3 {
        let rest = tris.subrange(3, tris.len() as int);
        let e1 = insert_triangle(edges, tris[0], tris[1], tris[2]);
        lemma_insert_triangle_preserves(edges, tris[0], tris[1], tris[2], count);
        assert(tris_in_range(rest, count));
        lemma_insert_triangles_preserves(e1, rest, count);
    }
}

proof fn lemma_triangles_present_monotone(
    e1: Seq<Seq<usize>>,
    e2: Seq<Seq<usize>>,
    tris: Seq<usize>,
    count: nat,
)
    requires
        e1.len() == count,
        e2.len() == count,
        tris_in_range(tris, count),
        triangles_present(e1, tris),
        forall|i: int, x: usize|
            0 <= i < count && #[trigger] e1[i].contains(x) ==> e2[i].contains(x),
    ensures
        triangles_present(e2, tris),
    decreases tris.len(),
{
    if tris.len() >= 3 {
        let rest = tris.subrange(3, tris.len() as int);
        assert(tris_in_range(rest, count));
        lemma_triangles_present_monotone(e1, e2, rest, count);
    }
}

proof fn lemma_insert_triangles_makes_present(edges: Seq<Seq<usize>>, tris: Seq<usize>, count: nat)
    requires
        wf_edges(edges, count),
        tris_in_range(tris, count),
    ensures
        triangles_present(insert_triangles(edges, tris), tris),
    decreases tris.len(),
{
    if tris.len() >= 3 {
        let rest = tris.subrange(3, tris.len() as int);
        let e1 = insert_triangle(edges, tris[0], tris[1], tris[2]);
        let r = insert_triangles(e1, rest);
        lemma_insert_triangle_preserves(edges, tris[0], tris[1], tris[2], count);
        assert(tris_in_range(rest, count));
        lemma_insert_triangles_makes_present(e1, rest, count);
        lemma_insert_triangles_preserves(e1, rest, count);
        assert(triangle_edges_present(r, tris[0], tris[1], tris[2]));
        assert(insert_triangles(edges, tris) == r);
    }
}

proof fn lemma_insert_triangles_noop(edges: Seq<Seq<usize>>, tris: Seq<usize>, count: nat)
    requires
        wf_edges(edges, count),
        tris_in_range(tris, count),
        triangles_present(edges, tris),
    ensures
        insert_triangles(edges, tris) == edges,
    decreases tris.len(),
{
    if tris.len() >= 3 {
        let rest = tris.subrange(3, tris.len() as int);
        assert(insert_edge(edges, tris[0], tris[1]) == edges);
        assert(insert_edge(edges, tris[0], tris[2]) == edges);
        assert(insert_edge(edges, tris[1], tris[2]) == edges);
        assert(insert_triangle(edges, tris[0], tris[1], tris[2]) == edges);
        assert(tris_in_range(rest, count));
        lemma_insert_triangles_noop(edges, rest, count);
    }
}

proof fn lemma_empty_edges_props(count: nat)
    ensures
        wf_edges(empty_edges(count), count),
        symmetric(empty_edges(count)),
        no_dups(empty_edges(count)),
        no_self_loops(empty_edges(count)),
{
    let e = empty_edges(count);
    assert forall|a: usize, b: usize| a < e.len() && b < e.len() implies (
    #[trigger] e[a as int].contains(b)) == e[b as int].contains(a) by {
        assert(!e[a as int].contains(b));
        assert(!e[b as int].contains(a));
    }
    assert forall|i: int| 0 <= i < e.len() implies !(#[trigger] e[i].contains(i as usize)) by {
        assert(!e[i].contains(i as usize));
    }
}

/// Law: the graph built over `count` vertices from any in-range triangle list
/// is well-formed, symmetric, and has no duplicate entry in any neighbor
/// list.
pub proof fn law_graph_symmetric_no_dups(count: nat, tris: Seq<usize>)
    requires
        tris_in_range(tris, count),
    ensures
        wf_edges(graph_edges_of(count, tris), count),
        symmetric(graph_edges_of(count, tris)),
        no_dups(graph_edges_of(count, tris)),
{
    lemma_empty_edges_props(count);
    lemma_insert_triangles_preserves(empty_edges(count), tris, count);
}

/// Law: when every triangle of the list has three pairwise distinct corners,
/// the built graph has no self-loops.
pub proof fn law_graph_no_self_loops(count: nat, tris: Seq<usize>)
    requires
        tris_in_range(tris, count),
        distinct_triples(tris),
    ensures
        no_self_loops(graph_edges_of(count, tris)),
{
    lemma_empty_edges_props(count);
    lemma_insert_triangles_preserves(empty_edges(count), tris, count);
}

/// Law: inserting an undirected edge that both endpoints already record
/// changes nothing, so replaying the connect calls of an already-inserted
/// triangle list leaves the graph identical.
pub proof fn law_connect_idempotent(edges: Seq<Seq<usize>>, a: usize, b: usize)
    requires
        a < edges.len(),
        b < edges.len(),
        edges[a as int].contains(b),
        edges[b as int].contains(a),
    ensures
        insert_edge(edges, a, b) == edges,
{
}

/// Law: building is idempotent — feeding the same triangle list into an
/// already-built graph leaves it unchanged, so running the builder twice
/// yields the identical graph.
pub proof fn law_graph_build_idempotent(count: nat, tris: Seq<usize>)
    requires
        tris_in_range(tris, count),
    ensures
        insert_triangles(graph_edges_of(count, tris), tris) == graph_edges_of(count, tris),
{
    lemma_empty_edges_props(count);
    lemma_insert_triangles_preserves(empty_edges(count), tris, count);
    lemma_insert_triangles_makes_present(empty_edges(count), tris, count);
    lemma_insert_triangles_noop(graph_edges_of(count, tris), tris, count);
}

/// Law: a triangle list shorter than one full triangle yields a graph with
/// every neighbor list empty.
pub proof fn law_graph_of_no_triangles(count: nat, tris: Seq<usize>)
    requires
        tris.len() < 3,
    ensures
        graph_edges_of(count, tris) == empty_edges(count),
{
}

} // verus!

