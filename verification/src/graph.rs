//! Undirected adjacency graphs over vertex indices, built from triangle lists.
//!
//! A triangle list is a flat sequence of vertex indices read in groups of
//! three; each triple contributes its three undirected edges to the graph.
//! Edge insertion is idempotent and always updates both endpoints, so a built
//! graph is symmetric and free of duplicate neighbor entries.

use vstd::prelude::*;

verus! {

/// Undirected adjacency graph: `count` vertices, and for each vertex the list
/// of its neighbor indices.
pub struct DMGraph {
    /// Number of vertices; valid vertex indices are `0 .. count`.
    pub count: usize,
    /// `edges[i]` lists the neighbors of vertex `i`, without duplicates.
    pub edges: Vec<Vec<usize>>,
}

impl View for DMGraph {
    type V = Seq<Seq<usize>>;

    open spec fn view(&self) -> Seq<Seq<usize>> {
        self.edges@.map_values(|row: Vec<usize>| row@)
    }
}

impl DMGraph {
    /// The vertex count matches the number of neighbor lists.
    pub open spec fn wf(self) -> bool {
        self.edges@.len() == self.count
    }
}

/// `count` empty neighbor lists.
pub open spec fn empty_edges(count: nat) -> Seq<Seq<usize>> {
    Seq::new(count, |i: int| Seq::<usize>::empty())
}

/// Neighbor lists after recording that `b` neighbors `a` (one direction only);
/// recording an already-present neighbor changes nothing.
pub open spec fn insert_single(edges: Seq<Seq<usize>>, a: usize, b: usize) -> Seq<Seq<usize>>
    recommends
        a < edges.len(),
{
    if edges[a as int].contains(b) {
        edges
    } else {
        edges.update(a as int, edges[a as int].push(b))
    }
}

/// Neighbor lists after inserting the undirected edge `{a, b}`: both
/// endpoints' lists are updated in the same operation.
pub open spec fn insert_edge(edges: Seq<Seq<usize>>, a: usize, b: usize) -> Seq<Seq<usize>> {
    insert_single(insert_single(edges, a, b), b, a)
}

/// Neighbor lists after inserting the three edges of triangle `(a, b, c)`.
pub open spec fn insert_triangle(
    edges: Seq<Seq<usize>>,
    a: usize,
    b: usize,
    c: usize,
) -> Seq<Seq<usize>> {
    insert_edge(insert_edge(insert_edge(edges, a, b), a, c), b, c)
}

/// Neighbor lists after inserting every triangle of the flat list `tris`,
/// read in groups of three; a trailing group of fewer than three indices is
/// ignored.
pub open spec fn insert_triangles(edges: Seq<Seq<usize>>, tris: Seq<usize>) -> Seq<Seq<usize>>
    decreases tris.len(),
{
    if tris.len() < 3 {
        edges
    } else {
        insert_triangles(
            insert_triangle(edges, tris[0], tris[1], tris[2]),
            tris.subrange(3, tris.len() as int),
        )
    }
}

/// The neighbor lists of the graph built over `count` vertices from the flat
/// triangle list `tris`.
pub open spec fn graph_edges_of(count: nat, tris: Seq<usize>) -> Seq<Seq<usize>> {
    insert_triangles(empty_edges(count), tris)
}

/// Every index of the flat triangle list is a valid vertex index.
pub open spec fn tris_in_range(tris: Seq<usize>, count: nat) -> bool {
    forall|i: int| 0 <= i < tris.len() ==> tris[i] < count
}

/// There are `count` neighbor lists and every entry is a valid vertex index.
pub open spec fn wf_edges(edges: Seq<Seq<usize>>, count: nat) -> bool {
    &&& edges.len() == count
    &&& forall|i: int, k: int|
        0 <= i < edges.len() && 0 <= k < edges[i].len() ==> (#[trigger] edges[i][k]) < count
}

/// Undirected symmetry: `b` is listed under `a` exactly when `a` is listed
/// under `b`.
pub open spec fn symmetric(edges: Seq<Seq<usize>>) -> bool {
    forall|a: usize, b: usize|
        a < edges.len() && b < edges.len() ==> (#[trigger] edges[a as int].contains(b))
            == edges[b as int].contains(a)
}

/// No neighbor list holds the same index twice.
pub open spec fn no_dups(edges: Seq<Seq<usize>>) -> bool {
    forall|i: int, k: int, l: int|
        0 <= i < edges.len() && 0 <= k < l < edges[i].len() ==> (#[trigger] edges[i][k]) != (
        #[trigger] edges[i][l])
}

/// No vertex lists itself as a neighbor.
pub open spec fn no_self_loops(edges: Seq<Seq<usize>>) -> bool {
    forall|i: int| 0 <= i < edges.len() ==> !(#[trigger] edges[i].contains(i as usize))
}

impl DMGraph {
    /// Creates a graph with `size` vertices and no edges at all.
    pub fn empty_of_size(size: usize) -> (g: DMGraph)
        ensures
            g.wf(),
            g.count == size,
            g@ == empty_edges(size as nat),
    {
        let mut edges: Vec<Vec<usize>> = Vec::new();
        while edges.len() < size
            invariant
                edges@.len() <= size,
                forall|i: int| 0 <= i < edges@.len() ==> (#[trigger] edges@[i])@
                    == Seq::<usize>::empty(),
            decreases size - edges@.len(),
        {
            edges.push(Vec::new());
        }
        let g = DMGraph { count: size, edges };
        proof {
            assert(g@ =~= empty_edges(size as nat));
        }
        g
    }

    /// Records that `b` neighbors `a` (one direction only), unless `b` is
    /// already listed; duplicates are never introduced.
    pub fn connect_single(&mut self, a: usize, b: usize)
        requires
            old(self).wf(),
            a < old(self).count,
        ensures
            final(self).wf(),
            final(self).count == old(self).count,
            final(self)@ == insert_single(old(self)@, a, b),
    {
        let ghost row: Seq<usize> = self@[a as int];
        let row_len: usize = self.edges[a].len();
        let mut k: usize = 0;
        let mut found = false;
        while k < row_len
            invariant
                *self == *old(self),
                row == self@[a as int],
                a < self.edges@.len(),
                row_len == row.len(),
                k <= row_len,
                found <==> exists|m: int| 0 <= m < k && row[m] == b,
            decreases row_len - k,
        {
            if self.edges[a][k] == b {
                found = true;
            }
            k = k + 1;
        }
        proof {
            assert(found <==> row.contains(b));
        }
        if !found {
            let list = &mut self.edges[a];
            list.push(b);
            proof {
                assert(self@ =~= insert_single(old(self)@, a, b));
            }
        } else {
            proof {
                assert(self@ =~= insert_single(old(self)@, a, b));
            }
        }
    }

    /// Inserts the undirected edge `{a, b}`, updating both endpoints' lists;
    /// inserting an edge that is already present changes nothing.
    pub fn connect(&mut self, a: usize, b: usize)
        requires
            old(self).wf(),
            a < old(self).count,
            b < old(self).count,
        ensures
            final(self).wf(),
            final(self).count == old(self).count,
            final(self)@ == insert_edge(old(self)@, a, b),
    {
        self.connect_single(a, b);
        self.connect_single(b, a);
    }
}

/// Builds the adjacency graph of a flat triangle list over `count` vertices:
/// each group of three indices contributes its three undirected edges.
pub fn graph_from_triangles(count: usize, triangles: &Vec<usize>) -> (g: DMGraph)
    requires
        tris_in_range(triangles@, count as nat),
    ensures
        g.wf(),
        g.count == count,
        g@ == graph_edges_of(count as nat, triangles@),
{
    let mut g = DMGraph::empty_of_size(count);
    let mut i: usize = 0;
    proof {
        assert(triangles@.subrange(0, triangles@.len() as int) =~= triangles@);
    }
    while triangles.len() - i >= 3
        invariant
            g.wf(),
            g.count == count,
            i <= triangles@.len(),
            tris_in_range(triangles@, count as nat),
            insert_triangles(g@, triangles@.subrange(i as int, triangles@.len() as int))
                == graph_edges_of(count as nat, triangles@),
        decreases triangles@.len() - i,
    {
        let ghost prev: Seq<Seq<usize>> = g@;
        let a = triangles[i];
        let b = triangles[i + 1];
        let c = triangles[i + 2];
        g.connect(a, b);
        g.connect(a, c);
        g.connect(b, c);
        proof {
            lemma_insert_triangles_step(prev, triangles@, i as int);
        }
        i = i + 3;
    }
    proof {
        assert(insert_triangles(g@, triangles@.subrange(i as int, triangles@.len() as int))
            == g@);
    }
    g
}

/// Peels the first triangle off the pending part of a flat triangle list.
proof fn lemma_insert_triangles_step(edges: Seq<Seq<usize>>, tris: Seq<usize>, i: int)
    requires
        0 <= i,
        i + 3 <= tris.len(),
    ensures
        insert_triangles(edges, tris.subrange(i, tris.len() as int)) == insert_triangles(
            insert_triangle(edges, tris[i], tris[i + 1], tris[i + 2]),
            tris.subrange(i + 3, tris.len() as int),
        ),
{
    let s = tris.subrange(i, tris.len() as int);
    assert(s.len() >= 3);
    assert(s[0] == tris[i]);
    assert(s[1] == tris[i + 1]);
    assert(s[2] == tris[i + 2]);
    assert(s.subrange(3, s.len() as int) =~= tris.subrange(i + 3, tris.len() as int));
}

} // verus!
