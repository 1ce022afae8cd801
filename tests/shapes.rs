use svg_art::shapes::{isotoxal_star_order, star_polygon_order, ShapeError, StarVertex};

#[test]
fn pentagram_order() {
    assert_eq!(star_polygon_order(5, 2), Ok(vec![0, 2, 4, 1, 3]));
}

#[test]
fn star_step_larger_than_count_wraps() {
    assert_eq!(star_polygon_order(5, 7), Ok(vec![0, 2, 4, 1, 3]));
    assert_eq!(star_polygon_order(7, 3), Ok(vec![0, 3, 6, 2, 5, 1, 4]));
    assert_eq!(star_polygon_order(50, 13).map(|v| v.len()), Ok(50));
}

#[test]
fn star_polygon_errors() {
    assert_eq!(star_polygon_order(5, 0), Err(ShapeError::ZeroStep));
    assert_eq!(star_polygon_order(2, 1), Err(ShapeError::TooFewVertices));
    assert_eq!(star_polygon_order(6, 4), Err(ShapeError::NotCoprime));
    assert_eq!(star_polygon_order(9, 3), Err(ShapeError::NotCoprime));
}

#[test]
fn isotoxal_star_alternates() {
    let v = isotoxal_star_order(5, 2, None).unwrap();
    assert_eq!(v.len(), 10);
    assert_eq!(v[0], StarVertex { outer: true, step: 0 });
    assert_eq!(v[1], StarVertex { outer: false, step: 0 });
    assert_eq!(v[2], StarVertex { outer: true, step: 1 });
    assert_eq!(v[9], StarVertex { outer: false, step: 4 });
}

#[test]
fn isotoxal_star_deformation_shifts_inner_vertices() {
    let v = isotoxal_star_order(13, 10, Some(3)).unwrap();
    assert_eq!(v.len(), 26);
    assert_eq!(v[1], StarVertex { outer: false, step: 2 });
    assert_eq!(v[4], StarVertex { outer: true, step: 2 });
    assert_eq!(v[25], StarVertex { outer: false, step: 14 });
}

#[test]
fn isotoxal_star_errors() {
    assert_eq!(isotoxal_star_order(2, 1, None), Err(ShapeError::TooFewVertices));
    assert_eq!(isotoxal_star_order(5, 5, None), Err(ShapeError::NotConcave));
    assert_eq!(isotoxal_star_order(5, 6, None), Err(ShapeError::NotConcave));
    assert_eq!(isotoxal_star_order(5, 4, None), Err(ShapeError::NotConcave));
    assert_eq!(isotoxal_star_order(8, 6, None), Err(ShapeError::NotCoprime));
}

fn check_star_13_3(order: Vec<usize>) {
    assert_eq!(order.len(), 13);
    assert_eq!(&order[..5], &[0, 3, 6, 9, 12]);
    let mut seen = order.clone();
    seen.sort();
    assert_eq!(seen, (0..13).collect::<Vec<usize>>());
}

fn check_isotoxal_13_3(shift: usize) {
    let v = isotoxal_star_order(13, 3, Some(shift)).unwrap();
    assert_eq!(v.len(), 26);
    for (i, vertex) in v.iter().enumerate() {
        if i % 2 == 0 {
            assert_eq!(*vertex, StarVertex { outer: true, step: i / 2 });
        } else {
            assert_eq!(*vertex, StarVertex { outer: false, step: (i + shift) / 2 });
        }
    }
}

#[test]
fn test_base_shapes_test_add_star_polygon() {
    check_star_13_3(star_polygon_order(13, 3).unwrap());
}

#[test]
fn unit_tests_test_add_star_polygon() {
    check_star_13_3(star_polygon_order(13, 3).unwrap());
}

#[test]
fn test_base_shapes_test_add_isotoxal_star() {
    check_isotoxal_13_3(0);
    check_isotoxal_13_3(13);
    check_isotoxal_13_3(10);
}

#[test]
fn unit_tests_test_add_isotoxal_star() {
    check_isotoxal_13_3(0);
    check_isotoxal_13_3(13);
    check_isotoxal_13_3(10);
}
