use geometry::graph::{graph_from_triangles, DMGraph};

#[test]
fn empty_graph_has_no_edges() {
    let g = DMGraph::empty_of_size(5);
    assert_eq!(g.count, 5);
    assert_eq!(g.edges.len(), 5);
    for row in &g.edges {
        assert!(row.is_empty());
    }
}

#[test]
fn empty_graph_of_size_zero() {
    let g = DMGraph::empty_of_size(0);
    assert_eq!(g.count, 0);
    assert!(g.edges.is_empty());
}

#[test]
fn connect_updates_both_endpoints() {
    let mut g = DMGraph::empty_of_size(3);
    g.connect(0, 2);
    assert_eq!(g.edges[0], vec![2]);
    assert_eq!(g.edges[1], Vec::<usize>::new());
    assert_eq!(g.edges[2], vec![0]);
}

#[test]
fn connect_is_idempotent() {
    let mut g = DMGraph::empty_of_size(3);
    g.connect(0, 1);
    g.connect(1, 0);
    g.connect(0, 1);
    assert_eq!(g.edges[0], vec![1]);
    assert_eq!(g.edges[1], vec![0]);
    assert_eq!(g.edges[2], Vec::<usize>::new());
}

#[test]
fn connect_single_updates_one_endpoint() {
    let mut g = DMGraph::empty_of_size(2);
    g.connect_single(0, 1);
    assert_eq!(g.edges[0], vec![1]);
    assert_eq!(g.edges[1], Vec::<usize>::new());
    g.connect_single(0, 1);
    assert_eq!(g.edges[0], vec![1]);
}

#[test]
fn graph_from_triangles_two_triangles() {
    // Two triangles sharing the edge {1, 2}.
    let tris: Vec<usize> = vec![0, 1, 2, 1, 2, 3];
    let g = graph_from_triangles(4, &tris);
    assert_eq!(g.count, 4);
    assert_eq!(g.edges[0], vec![1, 2]);
    assert_eq!(g.edges[1], vec![0, 2, 3]);
    assert_eq!(g.edges[2], vec![0, 1, 3]);
    assert_eq!(g.edges[3], vec![1, 2]);
}

#[test]
fn graph_from_triangles_is_symmetric_and_deduplicated() {
    // The shared edge {1, 2} appears in both triangles; it must be recorded once.
    let tris: Vec<usize> = vec![0, 1, 2, 1, 2, 3];
    let g = graph_from_triangles(4, &tris);
    for a in 0..4 {
        let mut seen = Vec::new();
        for &b in &g.edges[a] {
            assert!(!seen.contains(&b), "duplicate neighbor {b} of {a}");
            seen.push(b);
            assert!(g.edges[b].contains(&a), "edge {a}-{b} not symmetric");
        }
    }
}

#[test]
fn building_twice_gives_identical_graphs() {
    let tris: Vec<usize> = vec![0, 1, 2, 1, 2, 3, 0, 1, 2];
    let g1 = graph_from_triangles(4, &tris);
    let g2 = graph_from_triangles(4, &tris);
    assert_eq!(g1.count, g2.count);
    assert_eq!(g1.edges, g2.edges);
}

#[test]
fn trailing_partial_triple_is_ignored() {
    let tris: Vec<usize> = vec![0, 1, 2, 3, 1];
    let g = graph_from_triangles(4, &tris);
    assert_eq!(g.edges[0], vec![1, 2]);
    assert_eq!(g.edges[3], Vec::<usize>::new());
}

#[test]
fn graph_from_no_triangles_is_empty() {
    let tris: Vec<usize> = Vec::new();
    let g = graph_from_triangles(3, &tris);
    assert_eq!(g.count, 3);
    for row in &g.edges {
        assert!(row.is_empty());
    }
}
