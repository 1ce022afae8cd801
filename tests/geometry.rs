use svg_art::geometry::{
    half_chord_length, integer_sqrt, intersection, line_intersection, mid_point,
    reflect_east_west, reflect_up_down, Point, YantraError,
};
use svg_art::names::CoordName;
use svg_art::registry::Registry;

fn pt(x: i64, y: i64) -> Point {
    Point::new(x, y)
}

#[test]
fn parallel_lines_do_not_intersect() {
    let r = line_intersection(pt(0, 0), pt(1, 0), pt(0, 1), pt(1, 1));
    assert_eq!(r, Err(YantraError::NoIntersection));
}

#[test]
fn collinear_lines_do_not_intersect() {
    let r = line_intersection(pt(0, 0), pt(1, 1), pt(2, 2), pt(3, 3));
    assert_eq!(r, Err(YantraError::NoIntersection));
}

#[test]
fn crossing_lines_meet() {
    assert_eq!(line_intersection(pt(0, 0), pt(4, 4), pt(0, 4), pt(4, 0)), Ok(pt(2, 2)));
    // the lines meet beyond both segments, within their extension
    assert_eq!(line_intersection(pt(0, 0), pt(1, 1), pt(3, 0), pt(2, 1)), Ok(pt(1, 1)));
}

#[test]
fn lines_meeting_beyond_the_extension_fail() {
    // y = 0 and y = x - 99 meet at x = 99, 99 lengths beyond the first segment
    let r = line_intersection(pt(0, 0), pt(1, 0), pt(100, 1), pt(101, 2));
    assert_eq!(r, Err(YantraError::NoIntersection));
    // 20 lengths away is within reach
    assert_eq!(line_intersection(pt(0, 0), pt(1, 0), pt(21, 1), pt(22, 2)), Ok(pt(20, 0)));
}

#[test]
fn segments_intersect_only_within_themselves() {
    assert_eq!(intersection(pt(0, 0), pt(2, 2), pt(0, 2), pt(2, 0)), Ok(pt(1, 1)));
    assert_eq!(
        intersection(pt(0, 0), pt(1, 1), pt(3, 0), pt(2, 1)),
        Err(YantraError::NoIntersection)
    );
    assert_eq!(
        intersection(pt(0, 0), pt(1, 0), pt(0, 1), pt(1, 1)),
        Err(YantraError::NoIntersection)
    );
    // touching at an end point counts
    assert_eq!(intersection(pt(0, 0), pt(2, 0), pt(2, 0), pt(2, 5)), Ok(pt(2, 0)));
}

#[test]
fn crossing_rounds_down() {
    // the lines meet at (1.5, 1.5)
    assert_eq!(intersection(pt(0, 0), pt(3, 3), pt(0, 3), pt(3, 0)), Ok(pt(1, 1)));
    // and at (-1.5, -1.5)
    assert_eq!(intersection(pt(0, 0), pt(-3, -3), pt(0, -3), pt(-3, 0)), Ok(pt(-2, -2)));
}

#[test]
fn square_roots_round_down() {
    assert_eq!(integer_sqrt(0), 0);
    assert_eq!(integer_sqrt(1), 1);
    assert_eq!(integer_sqrt(15), 3);
    assert_eq!(integer_sqrt(16), 4);
    assert_eq!(integer_sqrt(1 << 60), 1 << 30);
    assert_eq!(integer_sqrt((1 << 60) - 1), (1 << 30) - 1);
}

#[test]
fn half_chords() {
    assert_eq!(half_chord_length(5, 3), Some(4));
    assert_eq!(half_chord_length(5, -4), Some(3));
    assert_eq!(half_chord_length(5, 5), Some(0));
    assert_eq!(half_chord_length(5, 0), Some(5));
    assert_eq!(half_chord_length(5, 6), None);
    assert_eq!(half_chord_length(10, 7), Some(7));
}

#[test]
fn midpoints_and_reflections() {
    assert_eq!(mid_point(pt(1, 1), pt(2, 4)), pt(1, 2));
    assert_eq!(mid_point(pt(-1, -1), pt(0, 0)), pt(-1, -1));
    assert_eq!(reflect_east_west(pt(3, 5), pt(1, 0)), pt(-1, 5));
    assert_eq!(reflect_up_down(pt(3, 5), pt(1, 0)), pt(3, -5));
}

#[test]
fn registry_stores_and_mirrors() {
    let mut reg = Registry::new();
    assert_eq!(reg.get(CoordName::UL1), Err(YantraError::UnknownPoint));
    let center = pt(10, 20);
    reg.insert_mirrored_vertical(CoordName::UL1, CoordName::UR1, pt(4, 25), center);
    reg.insert_mirrored_horizontal(CoordName::UT1, CoordName::DT1, pt(10, 30), center);
    reg.insert(CoordName::BINDU, center);
    assert_eq!(reg.get(CoordName::UL1), Ok(pt(4, 25)));
    assert_eq!(reg.get(CoordName::UR1), Ok(pt(16, 25)));
    assert_eq!(reg.get(CoordName::UT1), Ok(pt(10, 30)));
    assert_eq!(reg.get(CoordName::DT1), Ok(pt(10, 10)));
    // listed in the order of construction of the names
    assert_eq!(
        reg.all_points(),
        vec![pt(10, 30), pt(10, 10), pt(4, 25), pt(16, 25), center]
    );
    reg.insert(CoordName::UL1, pt(0, 0));
    assert_eq!(reg.get(CoordName::UL1), Ok(pt(0, 0)));
    assert_eq!(reg.all_points().len(), 5);
}
