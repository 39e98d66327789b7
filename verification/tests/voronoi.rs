use geometry::delaunay::triangulate_to_graph;
use geometry::voronoi::{graph_of_voronoi, voronoi_diagram_graph};
use geometry::GeometryError;
use voronoice::{BoundingBox, Point, VoronoiBuilder};

fn points(coords: &[(f64, f64)]) -> Vec<Point> {
    coords.iter().map(|&(x, y)| Point { x, y }).collect()
}

/// The box the boundary layer builds: the points' extent widened by `margin`
/// on every side.
fn margin_box(coords: &[(f64, f64)], margin: f64) -> BoundingBox {
    let mut x_low = f64::INFINITY;
    let mut x_high = f64::NEG_INFINITY;
    let mut y_low = f64::INFINITY;
    let mut y_high = f64::NEG_INFINITY;
    for &(x, y) in coords {
        x_low = x_low.min(x);
        x_high = x_high.max(x);
        y_low = y_low.min(y);
        y_high = y_high.max(y);
    }
    let center = Point {
        x: x_low + (x_high - x_low) * 0.5,
        y: y_low + (y_high - y_low) * 0.5,
    };
    BoundingBox::new(center, (x_high - x_low) + margin * 2.0, (y_high - y_low) + margin * 2.0)
}

#[test]
fn single_site_cell_is_the_whole_box() {
    // One site at the origin with margin 1: the cell is the box [-1,1]x[-1,1].
    let coords = [(0.0, 0.0)];
    let bounds = margin_box(&coords, 1.0);
    let vg = voronoi_diagram_graph(points(&coords), bounds, true).unwrap();
    assert!(vg.diagram.is_none());
    assert_eq!(vg.graph.count, 1);
    assert_eq!(vg.graph.edges, vec![Vec::<usize>::new()]);
    // The corners the boundary layer reports for that cell.
    let bounds = margin_box(&coords, 1.0);
    let mut corners: Vec<(f64, f64)> =
        bounds.corners().iter().map(|p| (p.x, p.y)).collect();
    corners.sort_by(|a, b| a.partial_cmp(b).unwrap());
    assert_eq!(corners, vec![(-1.0, -1.0), (-1.0, 1.0), (1.0, -1.0), (1.0, 1.0)]);
}

#[test]
fn negative_margin_is_invalid_argument() {
    // A caller reporting a negative margin is refused outright, never
    // answered with a shrunken box.
    let coords = [(0.0, 0.0), (1.0, 0.0), (0.0, 1.0)];
    let r = voronoi_diagram_graph(points(&coords), margin_box(&coords, 1.0), false);
    assert!(matches!(r, Err(GeometryError::InvalidArgument)));
}

#[test]
fn non_finite_site_is_invalid_argument() {
    let coords = [(0.0, 0.0), (1.0, 0.0), (0.0, 1.0)];
    let mut sites = points(&coords);
    sites.push(Point { x: f64::NAN, y: 0.5 });
    let r = voronoi_diagram_graph(sites, margin_box(&coords, 1.0), true);
    assert!(matches!(r, Err(GeometryError::InvalidArgument)));
}

#[test]
fn no_sites_fail_with_construction_error() {
    let bounds = BoundingBox::new_centered_square(2.0);
    let r = voronoi_diagram_graph(Vec::new(), bounds, true);
    assert!(matches!(r, Err(GeometryError::ConstructionError)));
}

#[test]
fn two_sites_fail_with_construction_error() {
    let coords = [(0.0, 0.0), (1.0, 0.0)];
    let r = voronoi_diagram_graph(points(&coords), margin_box(&coords, 1.0), true);
    assert!(matches!(r, Err(GeometryError::ConstructionError)));
}

#[test]
fn collinear_sites_fail_with_construction_error() {
    let coords = [(0.0, 0.0), (1.0, 0.0), (2.0, 0.0)];
    let r = voronoi_diagram_graph(points(&coords), margin_box(&coords, 1.0), true);
    assert!(matches!(r, Err(GeometryError::ConstructionError)));
}

#[test]
fn square_sites_give_same_graph_as_direct_triangulation() {
    let coords = [(0.0, 0.0), (1.0, 0.0), (0.0, 1.0), (1.0, 1.0)];
    let vg = voronoi_diagram_graph(points(&coords), margin_box(&coords, 2.0), true).unwrap();
    assert!(vg.diagram.is_some());
    assert_eq!(vg.graph.count, 4);
    let direct = triangulate_to_graph(&points(&coords));
    assert_eq!(vg.graph.edges, direct.edges);
}

#[test]
fn square_sites_have_box_bounded_cells() {
    let coords = [(0.0, 0.0), (1.0, 0.0), (0.0, 1.0), (1.0, 1.0)];
    let margin = 2.0;
    let vg = voronoi_diagram_graph(points(&coords), margin_box(&coords, margin), true).unwrap();
    let diagram = vg.diagram.unwrap();
    for i in 0..4 {
        let cell: Vec<(f64, f64)> = diagram
            .cell(i)
            .iter_vertices()
            .map(|p| (p.x, p.y))
            .collect();
        assert!(cell.len() >= 3, "cell {i} is degenerate");
        for &(x, y) in &cell {
            assert!((-2.0..=3.0).contains(&x), "cell {i} leaves the box: x = {x}");
            assert!((-2.0..=3.0).contains(&y), "cell {i} leaves the box: y = {y}");
        }
    }
}

#[test]
fn graph_of_voronoi_matches_pipeline_graph() {
    let coords = [(0.0, 0.0), (3.0, 0.0), (0.0, 3.0), (2.0, 2.0), (1.0, 1.0)];
    let diagram = VoronoiBuilder::default()
        .set_sites(points(&coords))
        .set_bounding_box(margin_box(&coords, 1.0))
        .build()
        .unwrap();
    let g = graph_of_voronoi(&diagram);
    assert_eq!(g.count, 5);
    let vg = voronoi_diagram_graph(points(&coords), margin_box(&coords, 1.0), true).unwrap();
    assert_eq!(g.edges, vg.graph.edges);
}

#[test]
fn sites_outside_the_box_are_dropped() {
    // Three sites fit in the box; the fourth lies far outside and is dropped,
    // so the graph answers for three sites only.
    let coords = [(0.0, 0.0), (1.0, 0.0), (0.0, 1.0)];
    let mut sites = points(&coords);
    sites.push(Point { x: 100.0, y: 100.0 });
    let vg = voronoi_diagram_graph(sites, margin_box(&coords, 1.0), true).unwrap();
    assert_eq!(vg.graph.count, 3);
}
