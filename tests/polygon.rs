use geokernel::{
    ConvexPolygon, FromPoint, FromPoints, GeometryError, SimplePolygon, SinglePolygon,
};

fn square() -> Vec<(f64, f64)> {
    vec![(0.0, 0.0), (4.0, 0.0), (4.0, 4.0), (0.0, 4.0), (0.0, 0.0)]
}

fn inner() -> Vec<(f64, f64)> {
    vec![(1.0, 1.0), (2.0, 1.0), (2.0, 2.0), (1.0, 1.0)]
}

#[test]
fn simple_polygon_keeps_ring() {
    let pol = SimplePolygon::new(square());
    assert_eq!(pol.vertices(), square());
    assert_eq!(pol.len(), 1);
    assert!(!pol.has_hole());
    assert_eq!(pol.num_hole(), 0);
    assert!(pol.holes().is_empty());
    assert!(pol.is_simple());
}

#[test]
fn simple_polygon_does_not_close_open_ring() {
    let open = vec![(0.0, 0.0), (1.0, 0.0), (1.0, 1.0)];
    let pol = SimplePolygon::from_points(open.clone());
    assert_eq!(pol.vertices(), open);
    let by_ref = <SimplePolygon<(f64, f64)> as FromPoint<&Vec<(f64, f64)>>>::from_points(&open);
    assert_eq!(by_ref.vertices(), open);
}

#[test]
fn simple_polygon_from_flat_pairs_coordinates() {
    let pol = SimplePolygon::from_flat(vec![0.0, 0.0, 4.0, 0.0, 4.0, 1.0]).unwrap();
    assert_eq!(pol.vertices(), vec![(0.0, 0.0), (4.0, 0.0), (4.0, 1.0)]);
}

#[test]
fn simple_polygon_from_flat_rejects_odd_length() {
    let r = SimplePolygon::from_flat(vec![0.0, 0.0, 4.0]);
    assert!(matches!(r, Err(GeometryError::InvalidInput)));
}

#[test]
fn simple_polygon_from_flat_empty() {
    let pol = SimplePolygon::<(i32, i32)>::from_flat(vec![]).unwrap();
    assert!(pol.vertices().is_empty());
}

#[test]
fn single_polygon_holes() {
    let pol = SinglePolygon::from_points(square(), vec![inner()]);
    assert_eq!(pol.len(), 1);
    assert!(pol.has_hole());
    assert_eq!(pol.num_hole(), 1);
    assert!(!pol.is_simple());
    assert_eq!(pol.vertices(), square());
    let holes = pol.holes();
    assert_eq!(holes.len(), 1);
    assert_eq!(holes[0].vertices(), inner());
    assert_eq!(pol.hole(0).unwrap().vertices(), inner());
    assert_eq!(pol.out_polygon().vertices(), square());
}

#[test]
fn single_polygon_hole_out_of_range_is_absent() {
    let pol = SinglePolygon::from_points(square(), vec![inner()]);
    assert!(pol.hole(1).is_none());
    assert!(pol.hole(usize::MAX).is_none());
    let plain = SinglePolygon::new(square(), vec![]);
    assert!(plain.hole(0).is_none());
    assert!(plain.is_simple());
    assert!(!plain.has_hole());
}

#[test]
fn single_polygon_hole_order_kept() {
    let second = vec![(3.0, 3.0), (3.5, 3.0), (3.5, 3.5), (3.0, 3.0)];
    let pol = SinglePolygon::new(square(), vec![inner(), second.clone()]);
    assert_eq!(pol.num_hole(), 2);
    assert_eq!(pol.hole(1).unwrap().vertices(), second);
    let holes = pol.holes();
    assert_eq!(holes[0].vertices(), inner());
    assert_eq!(holes[1].vertices(), second);
}

#[test]
fn single_polygon_from_flat() {
    let pol = SinglePolygon::from_flat(
        vec![0, 0, 4, 0, 4, 4, 0, 4, 0, 0],
        vec![vec![1, 1, 2, 1, 2, 2, 1, 1]],
    )
    .unwrap();
    assert_eq!(pol.vertices(), vec![(0, 0), (4, 0), (4, 4), (0, 4), (0, 0)]);
    assert_eq!(pol.hole(0).unwrap().vertices(), vec![(1, 1), (2, 1), (2, 2), (1, 1)]);
}

#[test]
fn single_polygon_from_flat_rejects_odd_exterior() {
    let r = SinglePolygon::from_flat(vec![0, 0, 4], vec![]);
    assert!(matches!(r, Err(GeometryError::InvalidInput)));
}

#[test]
fn single_polygon_from_flat_rejects_odd_hole() {
    let r = SinglePolygon::from_flat(vec![0, 0, 4, 0], vec![vec![1, 1], vec![1, 1, 2]]);
    assert!(matches!(r, Err(GeometryError::InvalidInput)));
}

#[test]
fn conversions_between_variants() {
    let convex = ConvexPolygon::new(square());
    assert!(convex.is_simple());
    assert!(!convex.has_hole());
    assert_eq!(convex.num_hole(), 0);
    assert!(convex.holes().is_empty());
    assert_eq!(convex.len(), 1);

    let widened = SinglePolygon::from_convex(ConvexPolygon::new(square()));
    assert_eq!(widened.vertices(), square());
    assert_eq!(widened.num_hole(), 0);

    let simple = SimplePolygon::from_convex(convex);
    assert_eq!(simple.vertices(), square());

    let single = SinglePolygon::from_simple(simple);
    assert_eq!(single.vertices(), square());
    assert!(single.is_simple());

    let with_hole = SinglePolygon::new(square(), vec![inner()]);
    let narrowed = SimplePolygon::from_single(with_hole);
    assert_eq!(narrowed.vertices(), square());
    assert_eq!(narrowed.num_hole(), 0);
}
