use svg_art::geometry::{Point, YantraError};
use svg_art::names::CoordName;
use svg_art::yantra::ShriYantra;

/// One drawing unit on the integer grid.
const UNIT: i64 = 1_000_000;

fn origin() -> Point {
    Point::new(0, 0)
}

fn constructed(radius: i64, center: Point) -> ShriYantra {
    let mut sri = ShriYantra::new(radius, center, None, None, None, None, None);
    assert_eq!(sri.construct_all_points(), Ok(()));
    sri
}

fn all_paths(sri: &ShriYantra) -> Vec<Vec<Point>> {
    vec![
        sri.first_outer_path(),
        sri.first_inner_path(),
        sri.second_outer_path(),
        sri.second_inner_path(),
        sri.third_outer_path(),
        sri.third_inner_path(),
        sri.fourth_outer_path(),
        sri.fourth_inner_path(),
        sri.fifth_outer_path(),
    ]
}

const EAST_WEST: [(CoordName, CoordName); 29] = [
    (CoordName::UL1, CoordName::UR1),
    (CoordName::DL1, CoordName::DR1),
    (CoordName::NWG1, CoordName::NEG1),
    (CoordName::SWG1, CoordName::SEG1),
    (CoordName::WH1, CoordName::EH1),
    (CoordName::SWG3, CoordName::SEG3),
    (CoordName::SWG2, CoordName::SEG2),
    (CoordName::UL4, CoordName::UR4),
    (CoordName::NWG3, CoordName::NEG3),
    (CoordName::NWG2, CoordName::NEG2),
    (CoordName::DL5, CoordName::DR5),
    (CoordName::UL2, CoordName::UR2),
    (CoordName::DL2, CoordName::DR2),
    (CoordName::NWH, CoordName::NEH),
    (CoordName::SWH, CoordName::SEH),
    (CoordName::WI2, CoordName::EI2),
    (CoordName::WI1, CoordName::EI1),
    (CoordName::WI3, CoordName::EI3),
    (CoordName::UL3, CoordName::UR3),
    (CoordName::WG, CoordName::EG),
    (CoordName::SWG4, CoordName::SEG4),
    (CoordName::DL3, CoordName::DR3),
    (CoordName::NWG4, CoordName::NEG4),
    (CoordName::NWF, CoordName::NEF),
    (CoordName::SWF, CoordName::SEF),
    (CoordName::WK, CoordName::EK),
    (CoordName::DL4, CoordName::DR4),
    (CoordName::WJ1, CoordName::EJ1),
    (CoordName::WJ2, CoordName::EJ2),
];

fn proper_cross(a: Point, b: Point, c: Point, d: Point) -> bool {
    fn orient(p: Point, q: Point, r: Point) -> i128 {
        let v = (q.x as i128 - p.x as i128) * (r.y as i128 - p.y as i128)
            - (q.y as i128 - p.y as i128) * (r.x as i128 - p.x as i128);
        v.signum()
    }
    let o1 = orient(a, b, c);
    let o2 = orient(a, b, d);
    let o3 = orient(c, d, a);
    let o4 = orient(c, d, b);
    o1 * o2 < 0 && o3 * o4 < 0
}

#[test]
fn test_yantra_test_sri_points() {
    let radius = 100 * UNIT;
    let diameter = radius * 2;
    let mut sri = ShriYantra::new(
        radius,
        origin(),
        Some(diameter * 6 / 48),
        Some(diameter * 17 / 48),
        Some(diameter * 27 / 48),
        Some(diameter * 30 / 48),
        Some(diameter * 42 / 48),
    );
    assert_eq!(sri.construct_all_points(), Ok(()));
    let points = sri.get_all_points();
    assert_eq!(points.len(), 70);
}

#[test]
fn test_sri_canvas() {
    let radius = 100 * UNIT;
    let diameter = radius * 2;
    let mut sri = ShriYantra::new(
        radius,
        origin(),
        Some(diameter * 5 / 48),
        None,
        Some(diameter * 53 / 96),
        Some(diameter * 30 / 48),
        Some(diameter * 42 / 48),
    );
    assert_eq!(sri.construct_all_points(), Ok(()));
    let lengths: Vec<usize> = all_paths(&sri).iter().map(|p| p.len()).collect();
    assert_eq!(lengths, vec![28, 6, 20, 6, 20, 6, 16, 6, 3]);
}

#[test]
fn unit_tests_test_sri_points() {
    let radius = 100 * UNIT;
    let diameter = radius * 2;
    let mut sri = ShriYantra::new(
        radius,
        origin(),
        Some(diameter * 6 / 48),
        Some(diameter * 17 / 48),
        Some(diameter * 27 / 48),
        Some(diameter * 30 / 48),
        Some(diameter * 42 / 48),
    );
    assert_eq!(sri.construct_all_points(), Ok(()));
    assert_eq!(sri.get_all_points().len(), 70);
}

#[test]
fn test_sri_yantra() {
    let radius = 100 * UNIT;
    let diameter = radius * 2;
    let mut sri = ShriYantra::new(
        radius,
        origin(),
        Some(diameter * 5 / 48),
        None,
        Some(diameter * 53 / 96),
        Some(diameter * 30 / 48),
        Some(diameter * 42 / 48),
    );
    assert_eq!(sri.construct_all_points(), Ok(()));
    for path in all_paths(&sri) {
        assert!(path.len() >= 3);
    }
}

#[test]
fn default_diagram_end_to_end() {
    let radius = 100 * UNIT;
    let sri = constructed(radius, origin());
    let points = sri.get_all_points();
    assert_eq!(points.len(), 70);
    // every point lies within the circle, up to a small tolerance
    let tolerance = UNIT / 100;
    for p in &points {
        let d2 = (p.x as i128) * (p.x as i128) + (p.y as i128) * (p.y as i128);
        let r = (radius + tolerance) as i128;
        assert!(d2 <= r * r, "{:?} lies outside the circle", p);
    }
    let outer = sri.first_outer_path();
    assert_eq!(outer.len(), 28);
    // the boundary does not cross itself
    let n = outer.len();
    for i in 0..n {
        for j in (i + 2)..n {
            if i == 0 && j == n - 1 {
                continue;
            }
            let (a, b) = (outer[i], outer[(i + 1) % n]);
            let (c, d) = (outer[j], outer[(j + 1) % n]);
            assert!(!proper_cross(a, b, c, d), "edges {} and {} cross", i, j);
        }
    }
}

#[test]
fn default_diagram_with_unit_grid() {
    let sri = constructed(100, origin());
    assert_eq!(sri.get_all_points().len(), 70);
}

#[test]
fn mirrored_points_are_symmetric() {
    let center = Point::new(3 * UNIT, -2 * UNIT);
    let sri = constructed(100 * UNIT, center);
    for (west, east) in EAST_WEST {
        let w = sri.get(west).unwrap();
        let e = sri.get(east).unwrap();
        assert_eq!(e.x, center.x - (w.x - center.x));
        assert_eq!(e.y, w.y);
    }
    let up = sri.get(CoordName::UT1).unwrap();
    let down = sri.get(CoordName::DT1).unwrap();
    assert_eq!(up, Point::new(center.x, center.y + 100 * UNIT));
    assert_eq!(down.x, up.x);
    assert_eq!(down.y, center.y - (up.y - center.y));
    assert_eq!(sri.get(CoordName::BINDU), Ok(center));
}

#[test]
fn shifted_center_shifts_every_point() {
    let shift = Point::new(7 * UNIT, 5 * UNIT);
    let a = constructed(100 * UNIT, origin());
    let b = constructed(100 * UNIT, shift);
    let pa = a.get_all_points();
    let pb = b.get_all_points();
    assert_eq!(pa.len(), pb.len());
    for (p, q) in pa.iter().zip(pb.iter()) {
        assert!((q.x - shift.x - p.x).abs() <= 1 && (q.y - shift.y - p.y).abs() <= 1);
    }
}

#[test]
fn same_parameters_same_diagram() {
    let a = constructed(100 * UNIT, origin());
    let b = constructed(100 * UNIT, origin());
    assert_eq!(a.get_all_points(), b.get_all_points());
    assert_eq!(all_paths(&a), all_paths(&b));
}

#[test]
fn constructing_twice_gives_the_same_points() {
    let mut sri = constructed(100 * UNIT, origin());
    let first = sri.get_all_points();
    assert_eq!(sri.construct_all_points(), Ok(()));
    assert_eq!(sri.get_all_points(), first);
}

#[test]
fn path_lengths_follow_the_west_lists() {
    let sri = constructed(100 * UNIT, origin());
    // thirteen western points and both end points
    assert_eq!(sri.first_outer_path().len(), 2 * 13 + 2);
    // three western points, no end point: even
    assert_eq!(sri.first_inner_path().len(), 6);
    assert_eq!(sri.second_inner_path().len() % 2, 0);
    // one western point and a bottom end point: odd
    assert_eq!(sri.fifth_outer_path().len(), 3);
    assert_eq!(sri.fourth_outer_path().len(), 2 * 7 + 2);
}

#[test]
fn outer_path_is_west_top_mirrored_east_bottom() {
    let sri = constructed(100 * UNIT, origin());
    let path = sri.first_outer_path();
    let get = |id| sri.get(id).unwrap();
    assert_eq!(path[0], get(CoordName::SWH));
    assert_eq!(path[12], get(CoordName::NWH));
    assert_eq!(path[13], get(CoordName::UT1));
    assert_eq!(path[14], get(CoordName::NEH));
    assert_eq!(path[26], get(CoordName::SEH));
    assert_eq!(path[27], get(CoordName::DT1));
    let fifth = sri.fifth_outer_path();
    assert_eq!(fifth, vec![get(CoordName::WG), get(CoordName::EG), get(CoordName::UM3)]);
    let inner = sri.third_inner_path();
    assert_eq!(
        inner,
        vec![
            get(CoordName::SWF),
            get(CoordName::WK),
            get(CoordName::NWF),
            get(CoordName::NEF),
            get(CoordName::EK),
            get(CoordName::SEF),
        ]
    );
}

#[test]
fn unset_parameters_take_default_fractions() {
    let radius = 100 * UNIT;
    let diameter = 2 * radius;
    let a = ShriYantra::new(radius, origin(), None, None, None, None, None);
    let b = ShriYantra::new(
        radius,
        origin(),
        Some(diameter * 5 / 48),
        Some(diameter * 17 / 48),
        Some(diameter * 53 / 96),
        Some(diameter * 30 / 48),
        Some(diameter * 42 / 48),
    );
    assert_eq!(a.parameters(), b.parameters());
    let p = a.parameters();
    assert_eq!(p.param_a, 20_833_333);
    assert_eq!(p.param_c, 70_833_333);
    assert_eq!(p.param_f, 110_416_666);
    assert_eq!(p.param_g, 125_000_000);
    assert_eq!(p.param_i, 175_000_000);
    let mut a = a;
    let mut b = b;
    assert_eq!(a.construct_all_points(), Ok(()));
    assert_eq!(b.construct_all_points(), Ok(()));
    assert_eq!(a.get_all_points(), b.get_all_points());
}

#[test]
fn getters_return_the_parameters() {
    let center = Point::new(1, 2);
    let sri = ShriYantra::new(1000, center, Some(1), Some(2), Some(3), Some(4), Some(5));
    assert_eq!(sri.radius(), 1000);
    assert_eq!(sri.center(), center);
    let p = sri.parameters();
    assert_eq!((p.param_a, p.param_c, p.param_f, p.param_g, p.param_i), (1, 2, 3, 4, 5));
}

#[test]
fn unknown_point_before_construction() {
    let sri = ShriYantra::new(100 * UNIT, origin(), None, None, None, None, None);
    assert_eq!(sri.get(CoordName::UT1), Err(YantraError::UnknownPoint));
    assert!(sri.get_all_points().is_empty());
}

#[test]
fn unreachable_base_fails_and_keeps_nothing() {
    // the base of the first up triangle would lie below the circle
    let radius = 100 * UNIT;
    let mut sri = ShriYantra::new(radius, origin(), None, None, None, Some(5 * radius / 2), None);
    assert_eq!(sri.construct_all_points(), Err(YantraError::NoIntersection));
    assert!(sri.get_all_points().is_empty());
    assert_eq!(sri.get(CoordName::UM1), Err(YantraError::UnknownPoint));
}

#[test]
fn degenerate_parameters_fail() {
    // first up and down triangles on the same base line
    let radius = 100 * UNIT;
    let mut sri = ShriYantra::new(radius, origin(), None, Some(radius), None, Some(radius), None);
    assert_eq!(sri.construct_all_points(), Err(YantraError::NoIntersection));
    assert!(sri.get_all_points().is_empty());
}

#[test]
fn default_diagram_points_are_distinct() {
    let sri = constructed(100 * UNIT, origin());
    let mut points: Vec<(i64, i64)> = sri.get_all_points().iter().map(|p| (p.x, p.y)).collect();
    points.sort();
    points.dedup();
    assert_eq!(points.len(), 70);
}
