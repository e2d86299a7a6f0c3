use geo_core::LineString;
use geo_core::Point;
use geo_core::Winding;
use geo_core::WindingOrder;
use geo_core::winding_order::twice_signed_ring_area;

#[test]
fn winding_order() {
    // 3 points forming a triangle
    let a = Point::new(0, 0);
    let b = Point::new(2, 0);
    let c = Point::new(1, 2);

    // That triangle, but in clockwise ordering
    let cw_line = LineString::from(vec![a.0, c.0, b.0, a.0]);
    // That triangle, but in counterclockwise ordering
    let ccw_line = LineString::from(vec![a.0, b.0, c.0, a.0]);

    assert_eq!(cw_line.winding_order(), Some(WindingOrder::Clockwise));
    assert_eq!(cw_line.is_cw(), true);
    assert_eq!(cw_line.is_ccw(), false);
    assert_eq!(
        ccw_line.winding_order(),
        Some(WindingOrder::CounterClockwise)
    );
    assert_eq!(ccw_line.is_cw(), false);
    assert_eq!(ccw_line.is_ccw(), true);

    let mut cw_points1: Vec<Point> = Vec::new();
    let mut it1 = cw_line.points_cw();
    while let Some(p) = it1.next() {
        cw_points1.push(p);
    }
    assert_eq!(cw_points1.len(), 4);
    assert_eq!(cw_points1[0], a);
    assert_eq!(cw_points1[1], c);
    assert_eq!(cw_points1[2], b);
    assert_eq!(cw_points1[3], a);

    let mut ccw_points1: Vec<Point> = Vec::new();
    let mut it2 = cw_line.points_ccw();
    while let Some(p) = it2.next() {
        ccw_points1.push(p);
    }
    assert_eq!(ccw_points1.len(), 4);
    assert_eq!(ccw_points1[0], a);
    assert_eq!(ccw_points1[1], b);
    assert_eq!(ccw_points1[2], c);
    assert_eq!(ccw_points1[3], a);

    assert_ne!(cw_points1, ccw_points1);

    let mut cw_points2: Vec<Point> = Vec::new();
    let mut it3 = ccw_line.points_cw();
    while let Some(p) = it3.next() {
        cw_points2.push(p);
    }
    let mut ccw_points2: Vec<Point> = Vec::new();
    let mut it4 = ccw_line.points_ccw();
    while let Some(p) = it4.next() {
        ccw_points2.push(p);
    }

    // cw_line and ccw_line are wound differently, but the ordered winding iterator should have
    // make them similar
    assert_eq!(cw_points2, cw_points2);
    assert_eq!(ccw_points2, ccw_points2);

    // test make_clockwise_winding
    let mut new_line1 = ccw_line.clone();
    new_line1.make_cw_winding();
    assert_eq!(new_line1.winding_order(), Some(WindingOrder::Clockwise));
    assert_eq!(new_line1, cw_line);
    assert_ne!(new_line1, ccw_line);

    // test make_counterclockwise_winding
    let mut new_line2 = cw_line.clone();
    new_line2.make_ccw_winding();
    assert_eq!(
        new_line2.winding_order(),
        Some(WindingOrder::CounterClockwise)
    );
    assert_ne!(new_line2, cw_line);
    assert_eq!(new_line2, ccw_line);
}

#[test]
fn twice_signed_ring_area_values() {
    let a = Point::new(0, 0);
    let b = Point::new(2, 0);
    let c = Point::new(1, 2);
    let cw_line = LineString::from(vec![a.0, c.0, b.0, a.0]);
    let ccw_line = LineString::from(vec![a.0, b.0, c.0, a.0]);
    assert_eq!(twice_signed_ring_area(&cw_line), -4);
    assert_eq!(twice_signed_ring_area(&ccw_line), 4);
}

#[test]
fn degenerate_rings_have_no_winding() {
    let empty = LineString::new(Vec::new());
    assert_eq!(twice_signed_ring_area(&empty), 0);
    assert_eq!(empty.winding_order(), None);
    assert_eq!(empty.is_cw(), false);
    assert_eq!(empty.is_ccw(), false);

    let single = LineString::from(vec![Point::new(3, 4).0]);
    assert_eq!(twice_signed_ring_area(&single), 0);
    assert_eq!(single.winding_order(), None);

    // Collinear ring: zero enclosed area, winding undefined, both tests false.
    let collinear = LineString::from(vec![
        Point::new(0, 0).0,
        Point::new(1, 1).0,
        Point::new(2, 2).0,
        Point::new(0, 0).0,
    ]);
    assert_eq!(twice_signed_ring_area(&collinear), 0);
    assert_eq!(collinear.winding_order(), None);
    assert_eq!(collinear.is_cw(), false);
    assert_eq!(collinear.is_ccw(), false);
}

#[test]
fn winding_flips_under_reversal() {
    let a = Point::new(0, 0);
    let b = Point::new(2, 0);
    let c = Point::new(1, 2);
    let mut line = LineString::from(vec![a.0, b.0, c.0, a.0]);
    assert_eq!(line.winding_order(), Some(WindingOrder::CounterClockwise));
    line.reverse_points();
    assert_eq!(line.winding_order(), Some(WindingOrder::Clockwise));
    line.reverse_points();
    assert_eq!(line.winding_order(), Some(WindingOrder::CounterClockwise));
}

#[test]
fn winding_invariant_under_rotation() {
    let a = Point::new(0, 0);
    let b = Point::new(2, 0);
    let c = Point::new(1, 2);
    // The same closed triangle, started at each of its three vertices.
    let ring0 = LineString::from(vec![a.0, b.0, c.0, a.0]);
    let ring1 = LineString::from(vec![b.0, c.0, a.0, b.0]);
    let ring2 = LineString::from(vec![c.0, a.0, b.0, c.0]);
    assert_eq!(ring0.winding_order(), Some(WindingOrder::CounterClockwise));
    assert_eq!(ring1.winding_order(), Some(WindingOrder::CounterClockwise));
    assert_eq!(ring2.winding_order(), Some(WindingOrder::CounterClockwise));
}

#[test]
fn make_cw_winding_is_idempotent() {
    let a = Point::new(0, 0);
    let b = Point::new(2, 0);
    let c = Point::new(1, 2);
    let mut line = LineString::from(vec![a.0, b.0, c.0, a.0]);
    line.make_cw_winding();
    let once = line.clone();
    line.make_cw_winding();
    assert_eq!(line, once);

    let mut undefined = LineString::from(vec![a.0, b.0]);
    let before = undefined.clone();
    undefined.make_cw_winding();
    assert_eq!(undefined, before);
}

#[test]
fn make_ccw_winding_is_idempotent() {
    let a = Point::new(0, 0);
    let b = Point::new(2, 0);
    let c = Point::new(1, 2);
    let mut line = LineString::from(vec![a.0, c.0, b.0, a.0]);
    line.make_ccw_winding();
    let once = line.clone();
    line.make_ccw_winding();
    assert_eq!(line, once);
}

#[test]
fn make_cw_then_ccw_restores_ccw_ring() {
    let a = Point::new(0, 0);
    let b = Point::new(2, 0);
    let c = Point::new(1, 2);
    let mut line = LineString::from(vec![a.0, b.0, c.0, a.0]);
    let original = line.clone();
    line.make_cw_winding();
    assert_ne!(line, original);
    line.make_ccw_winding();
    assert_eq!(line, original);
}

#[test]
fn make_winding_order_dispatches() {
    let a = Point::new(0, 0);
    let b = Point::new(2, 0);
    let c = Point::new(1, 2);
    let cw_line = LineString::from(vec![a.0, c.0, b.0, a.0]);
    let ccw_line = LineString::from(vec![a.0, b.0, c.0, a.0]);

    let mut line = ccw_line.clone();
    line.make_winding_order(WindingOrder::Clockwise);
    assert_eq!(line, cw_line);
    line.make_winding_order(WindingOrder::CounterClockwise);
    assert_eq!(line, ccw_line);
}

#[test]
fn clone_to_winding_order_leaves_original() {
    let a = Point::new(0, 0);
    let b = Point::new(2, 0);
    let c = Point::new(1, 2);
    let cw_line = LineString::from(vec![a.0, c.0, b.0, a.0]);
    let ccw_line = LineString::from(vec![a.0, b.0, c.0, a.0]);

    let cloned = ccw_line.clone_to_winding_order(WindingOrder::Clockwise);
    assert_eq!(cloned, cw_line);
    assert_eq!(ccw_line.winding_order(), Some(WindingOrder::CounterClockwise));

    let unchanged = ccw_line.clone_to_winding_order(WindingOrder::CounterClockwise);
    assert_eq!(unchanged, ccw_line);
}

#[test]
fn points_view_is_exhausted_once() {
    let a = Point::new(0, 0);
    let b = Point::new(2, 0);
    let line = LineString::from(vec![a.0, b.0]);
    let mut it = line.points_cw();
    assert_eq!(it.next(), Some(a));
    assert_eq!(it.next(), Some(b));
    assert_eq!(it.next(), None);
    assert_eq!(it.next(), None);

    // The view is a fresh pass each time and never mutates the linestring.
    let mut again = line.points_cw();
    assert_eq!(again.next(), Some(a));
    assert_eq!(line.num_coords(), 2);
}

#[test]
fn area_of_extreme_triangle_is_exact() {
    let a = Point::new(i32::MIN, i32::MIN);
    let b = Point::new(i32::MAX, i32::MIN);
    let c = Point::new(0, i32::MAX);
    let ring = LineString::from(vec![a.0, b.0, c.0, a.0]);
    assert_eq!(twice_signed_ring_area(&ring), 18446744065119617025);
    assert_eq!(ring.winding_order(), Some(WindingOrder::CounterClockwise));
}
