//! A Sri Yantra diagram: its parameters, the construction of its points,
//! and the boundary paths read from them.
use crate::geometry::{
    half_chord_length, line_intersection, mid_point, mirror_east_west, reflect_east_west, Point,
    YantraError, COORD_LIMIT, RADIUS_LIMIT,
};
use crate::names::{CoordName, ID_COUNT};
use crate::names::CoordName as C;
use crate::registry::{lemma_listed_len, listed, Registry};
use crate::rules::{
    built, height, is_layout, lemma_built_complete, lemma_built_empty, lemma_built_extend,
    lemma_built_reads, lemma_layout_unique, lemma_no_layout, lemma_rules_acyclic, obeys, rule_of,
    value_of, Params, Radial, Rule,
};
use vstd::prelude::*;

verus! {

/// `num / den` of the diameter `2 * radius`, rounded down.
pub open spec fn fraction_of_diameter(radius: i64, num: int, den: int) -> i64 {
    (2 * radius * num / den) as i64
}

/// The parameters of a diagram with bounding circle (`radius`, `center`),
/// where each length left unset takes its default: 5/48, 17/48, 26.5/48,
/// 30/48 and 42/48 of the diameter.
pub open spec fn params_from(
    radius: i64,
    center: Point,
    param_a: Option<i64>,
    param_c: Option<i64>,
    param_f: Option<i64>,
    param_g: Option<i64>,
    param_i: Option<i64>,
) -> Params {
    Params {
        radius,
        center,
        param_a: match param_a {
            Some(v) => v,
            None => fraction_of_diameter(radius, 5, 48),
        },
        param_c: match param_c {
            Some(v) => v,
            None => fraction_of_diameter(radius, 17, 48),
        },
        param_f: match param_f {
            Some(v) => v,
            None => fraction_of_diameter(radius, 53, 96),
        },
        param_g: match param_g {
            Some(v) => v,
            None => fraction_of_diameter(radius, 30, 48),
        },
        param_i: match param_i {
            Some(v) => v,
            None => fraction_of_diameter(radius, 42, 48),
        },
    }
}

/// An optional length that, when given, lies in the accepted range.
pub open spec fn param_in_range(v: Option<i64>) -> bool {
    v matches Some(x) ==> -RADIUS_LIMIT <= x <= 2 * RADIUS_LIMIT
}

/// A closed boundary path on the points `m`: the points of `west`, listed
/// from the bottom up, then `top` if given, then the mirror images of the
/// points of `west` across the vertical axis through `center` from the top
/// down, then `bottom` if given.
pub open spec fn closed_path(
    m: Map<CoordName, Point>,
    center: Point,
    west: Seq<CoordName>,
    top: Option<CoordName>,
    bottom: Option<CoordName>,
) -> Seq<Point> {
    let w = west.map_values(|id: CoordName| m[id]);
    let e = w.map_values(|q: Point| mirror_east_west(center, q)).reverse();
    let w_top = match top {
        Some(t) => w.push(m[t]),
        None => w,
    };
    let e_bottom = match bottom {
        Some(b) => e.push(m[b]),
        None => e,
    };
    w_top + e_bottom
}

/// The western points of the first path, from the bottom up.
pub open spec fn first_outer_west() -> Seq<CoordName> {
    seq![
        C::SWH,
        C::UL4,
        C::SWG2,
        C::UL2,
        C::SWG1,
        C::UL1,
        C::WH1,
        C::DL1,
        C::NWG1,
        C::DL2,
        C::NWG2,
        C::DL5,
        C::NWH,
    ]
}

/// The western points of the inner figure of the first path, from the bottom up.
pub open spec fn first_inner_west() -> Seq<CoordName> {
    seq![C::SWH, C::WH1, C::NWH]
}

/// The western points of the second path, from the bottom up.
pub open spec fn second_outer_west() -> Seq<CoordName> {
    seq![
        C::WI3,
        C::SWG2,
        C::SWG3,
        C::SWG1,
        C::WI2,
        C::NWG1,
        C::NWG3,
        C::NWG2,
        C::WI1,
    ]
}

/// The western points of the inner figure of the second path, from the bottom up.
pub open spec fn second_inner_west() -> Seq<CoordName> {
    seq![C::WI3, C::WI2, C::WI1]
}

/// The western points of the third path, from the bottom up.
pub open spec fn third_outer_west() -> Seq<CoordName> {
    seq![
        C::SWF,
        C::SWG3,
        C::SWG4,
        C::UL3,
        C::WK,
        C::DL3,
        C::NWG4,
        C::NWG3,
        C::NWF,
    ]
}

/// The western points of the inner figure of the third path, from the bottom up.
pub open spec fn third_inner_west() -> Seq<CoordName> {
    seq![C::SWF, C::WK, C::NWF]
}

/// The western points of the fourth path, from the bottom up.
pub open spec fn fourth_outer_west() -> Seq<CoordName> {
    seq![C::WJ3, C::SWG4, C::WJ2, C::DL4, C::WG, C::NWG4, C::WJ1]
}

/// The western points of the inner figure of the fourth path, from the bottom up.
pub open spec fn fourth_inner_west() -> Seq<CoordName> {
    seq![C::WJ3, C::WJ2, C::WJ1]
}

/// The western points of the fifth path, from the bottom up.
pub open spec fn fifth_outer_west() -> Seq<CoordName> {
    seq![C::WG]
}

/// A Sri Yantra: four up and five down triangles inscribed in a circle,
/// whose crossings form five nested paths. Its points are computed once,
/// by `construct_all_points`, and read afterwards.
#[derive(Clone)]
pub struct ShriYantra {
    params: Params,
    coords: Registry,
}

impl ShriYantra {
    /// The parameters of the diagram.
    pub closed spec fn params(&self) -> Params {
        self.params
    }

    /// The points computed so far, by name.
    pub closed spec fn points(&self) -> Map<CoordName, Point> {
        self.coords@
    }

    /// The store is sound and every stored point lies near the center.
    pub closed spec fn storage_ok(&self) -> bool {
        &&& self.coords.wf()
        &&& forall|id: CoordName| #[trigger]
            self.coords@.contains_key(id) ==> self.coords@[id].near(self.params.center)
    }

    /// The points are all computed, each by its rule.
    pub open spec fn is_constructed(&self) -> bool {
        is_layout(self.params(), self.points())
    }

    /// A diagram either holds no point yet or is completely constructed.
    pub open spec fn wf(&self) -> bool {
        &&& self.params().valid()
        &&& self.storage_ok()
        &&& (self.points() == Map::<CoordName, Point>::empty() || self.is_constructed())
    }

    /// The store holds the points of the first `k` names, by their rules.
    #[verifier::opaque]
    closed spec fn building(&self, k: nat) -> bool {
        &&& self.params.valid()
        &&& self.coords.wf()
        &&& built(self.params, self.coords@, k)
    }

    /// `v` is the point that the rule of `id` gives on the stored points,
    /// and it lies near the center.
    #[verifier::opaque]
    closed spec fn step_ok(&self, id: CoordName, v: Point) -> bool {
        value_of(self.params, self.coords@, rule_of(id)) == Some(v) && v.near(self.params.center)
    }

    /// What a step that computes the point of `id` may return: the point
    /// that its rule gives, or `NoIntersection` where the parameters admit
    /// no diagram.
    closed spec fn step_result(&self, id: CoordName, r: Result<Point, YantraError>) -> bool {
        match r {
            Ok(v) => self.step_ok(id, v),
            Err(e) => e == YantraError::NoIntersection && forall|m: Map<CoordName, Point>|
                !is_layout(self.params, m),
        }
    }

    /// A diagram with bounding circle (`radius`, `center`); each of the
    /// five lengths left unset takes its default fraction of the diameter.
    pub fn new(
        radius: i64,
        center: Point,
        param_a: Option<i64>,
        param_c: Option<i64>,
        param_f: Option<i64>,
        param_g: Option<i64>,
        param_i: Option<i64>,
    ) -> (r: Self)
        requires
            0 < radius <= RADIUS_LIMIT,
            center.within(COORD_LIMIT as int),
            param_in_range(param_a),
            param_in_range(param_c),
            param_in_range(param_f),
            param_in_range(param_g),
            param_in_range(param_i),
        ensures
            r.wf(),
            r.params() == params_from(radius, center, param_a, param_c, param_f, param_g, param_i),
            r.points() == Map::<CoordName, Point>::empty(),
    {
        let diameter = radius * 2;
        let params = Params {
            radius,
            center,
            param_a: match param_a {
                Some(v) => v,
                None => diameter * 5 / 48,
            },
            param_c: match param_c {
                Some(v) => v,
                None => diameter * 17 / 48,
            },
            param_f: match param_f {
                Some(v) => v,
                None => diameter * 53 / 96,
            },
            param_g: match param_g {
                Some(v) => v,
                None => diameter * 30 / 48,
            },
            param_i: match param_i {
                Some(v) => v,
                None => diameter * 42 / 48,
            },
        };
        ShriYantra { params, coords: Registry::new() }
    }

    /// The radius of the bounding circle.
    pub fn radius(&self) -> (r: i64)
        ensures
            r == self.params().radius,
    {
        self.params.radius
    }

    /// The center of the bounding circle.
    pub fn center(&self) -> (r: Point)
        ensures
            r == self.params().center,
    {
        self.params.center
    }

    /// The parameters of the diagram.
    pub fn parameters(&self) -> (r: Params)
        ensures
            r == self.params(),
    {
        self.params
    }

    /// How far above the center the length `h` places its point.
    fn height_of(&self, h: Radial) -> (r: i64)
        requires
            self.params.valid(),
        ensures
            r == height(self.params, h),
    {
        let p = &self.params;
        match h {
            Radial::Top => p.radius,
            Radial::A => p.radius - p.param_a,
            Radial::C => p.radius - p.param_c,
            Radial::F => p.radius - p.param_f,
            Radial::G => p.radius - p.param_g,
            Radial::I => p.radius - p.param_i,
        }
    }

    /// The point of `id`, read from the store.
    fn get_point(&self, id: CoordName) -> (r: Point)
        requires
            self.coords.wf(),
            self.coords@.contains_key(id),
        ensures
            r == self.coords@[id],
    {
        self.coords.point(id)
    }

    /// The point that `id`'s rule places on the vertical axis.
    fn point_on_axis(&self, id: CoordName, h: Radial) -> (r: Point)
        requires
            self.building(id.ord()),
            rule_of(id) == Rule::OnAxis(h),
        ensures
            self.step_result(id, Ok(r)),
    {
        proof {
            reveal(ShriYantra::building);
            reveal(ShriYantra::step_ok);
        }
        Point { x: self.params.center.x, y: self.params.center.y + self.height_of(h) }
    }

    /// The western end of the chord at the height that `h` gives.
    fn point_on_rim(&self, id: CoordName, h: Radial) -> (r: Result<Point, YantraError>)
        requires
            self.building(id.ord()),
            rule_of(id) == Rule::Rim(h),
        ensures
            self.step_result(id, r),
    {
        proof {
            reveal(ShriYantra::building);
            reveal(ShriYantra::step_ok);
        }
        let dy = self.height_of(h);
        match half_chord_length(self.params.radius, dy) {
            Some(w) => Ok(Point { x: self.params.center.x - w, y: self.params.center.y + dy }),
            None => {
                proof {
                    lemma_no_layout(self.params, self.coords@, id);
                }
                Err(YantraError::NoIntersection)
            },
        }
    }

    /// `point` if it lies near the center, else `NoIntersection`; the rule
    /// of `id` gives `point` exactly when it lies near the center.
    fn keep_near(&self, id: CoordName, point: Point) -> (r: Result<Point, YantraError>)
        requires
            self.building(id.ord()),
            value_of(self.params, self.coords@, rule_of(id)) == if point.near(self.params.center) {
                Some(point)
            } else {
                None
            },
        ensures
            self.step_result(id, r),
    {
        proof {
            reveal(ShriYantra::building);
            reveal(ShriYantra::step_ok);
        }
        let c = self.params.center;
        let dx = point.x as i128 - c.x as i128;
        let dy = point.y as i128 - c.y as i128;
        let limit = COORD_LIMIT as i128;
        if -limit <= dx && dx <= limit && -limit <= dy && dy <= limit {
            Ok(point)
        } else {
            proof {
                lemma_no_layout(self.params, self.coords@, id);
            }
            Err(YantraError::NoIntersection)
        }
    }

    /// The point of `id`, where the line through `a` and `b` meets the line
    /// through `d` and `e`.
    fn interpolate_and_intersect(
        &self,
        id: CoordName,
        a: CoordName,
        b: CoordName,
        d: CoordName,
        e: CoordName,
    ) -> (r: Result<Point, YantraError>)
        requires
            self.building(id.ord()),
            rule_of(id) == Rule::Meet(a, b, d, e),
        ensures
            self.step_result(id, r),
    {
        proof {
            reveal(ShriYantra::building);
            reveal(ShriYantra::step_ok);
        }
        proof {
            lemma_rules_acyclic(id);
            lemma_built_reads(self.params, self.coords@, id.ord(), a);
            lemma_built_reads(self.params, self.coords@, id.ord(), b);
            lemma_built_reads(self.params, self.coords@, id.ord(), d);
            lemma_built_reads(self.params, self.coords@, id.ord(), e);
        }
        let point1 = self.get_point(a);
        let point2 = self.get_point(b);
        let point3 = self.get_point(d);
        let point4 = self.get_point(e);
        match line_intersection(point1, point2, point3, point4) {
            Ok(x) => self.keep_near(id, x),
            Err(err) => {
                proof {
                    lemma_no_layout(self.params, self.coords@, id);
                }
                Err(err)
            },
        }
    }

    /// The point of `id`, where the line through `a` and `b` meets the
    /// horizontal chord of the circle at the height of `chord_point`.
    fn interpolate_and_intersect_with_chord(
        &self,
        id: CoordName,
        chord_point: CoordName,
        a: CoordName,
        b: CoordName,
    ) -> (r: Result<Point, YantraError>)
        requires
            self.building(id.ord()),
            rule_of(id) == Rule::ChordMeet(chord_point, a, b),
        ensures
            self.step_result(id, r),
    {
        proof {
            reveal(ShriYantra::building);
            reveal(ShriYantra::step_ok);
        }
        proof {
            lemma_rules_acyclic(id);
            lemma_built_reads(self.params, self.coords@, id.ord(), chord_point);
            lemma_built_reads(self.params, self.coords@, id.ord(), a);
            lemma_built_reads(self.params, self.coords@, id.ord(), b);
        }
        let point1 = self.get_point(a);
        let point2 = self.get_point(b);
        let chord_point = self.get_point(chord_point);
        let c = self.params.center;
        match half_chord_length(self.params.radius, chord_point.y - c.y) {
            None => {
                proof {
                    lemma_no_layout(self.params, self.coords@, id);
                }
                Err(YantraError::NoIntersection)
            },
            Some(w) => {
                let chord_end = Point { x: c.x + w, y: chord_point.y };
                match line_intersection(point1, point2, chord_point, chord_end) {
                    Ok(x) => self.keep_near(id, x),
                    Err(err) => {
                        proof {
                            lemma_no_layout(self.params, self.coords@, id);
                        }
                        Err(err)
                    },
                }
            },
        }
    }

    /// The point of `id`, the midpoint of `a` and `b`.
    fn mid_point(&self, id: CoordName, a: CoordName, b: CoordName) -> (r: Point)
        requires
            self.building(id.ord()),
            rule_of(id) == Rule::Mid(a, b),
        ensures
            self.step_result(id, Ok(r)),
    {
        proof {
            reveal(ShriYantra::building);
            reveal(ShriYantra::step_ok);
        }
        proof {
            lemma_rules_acyclic(id);
            lemma_built_reads(self.params, self.coords@, id.ord(), a);
            lemma_built_reads(self.params, self.coords@, id.ord(), b);
        }
        mid_point(self.get_point(a), self.get_point(b))
    }

    /// Stores the point of `id`.
    fn insert(&mut self, id: CoordName, point: Point)
        requires
            old(self).building(id.ord()),
            old(self).step_result(id, Ok(point)),
        ensures
            final(self).building(id.ord() + 1),
            final(self).params == old(self).params,
    {
        proof {
            reveal(ShriYantra::building);
            reveal(ShriYantra::step_ok);
        }
        proof {
            lemma_built_extend(self.params, self.coords@, id.ord(), id, point);
        }
        self.coords.insert(id, point);
    }

    /// Stores the point of `left` and its mirror image under `right`.
    fn insert_east_west(&mut self, left: CoordName, right: CoordName, left_point: Point)
        requires
            old(self).building(left.ord()),
            old(self).step_result(left, Ok(left_point)),
            right.ord() == left.ord() + 1,
            rule_of(right) == Rule::MirrorEastWest(left),
        ensures
            final(self).building(left.ord() + 2),
            final(self).params == old(self).params,
    {
        proof {
            reveal(ShriYantra::building);
            reveal(ShriYantra::step_ok);
        }
        let ghost m = self.coords@;
        let ghost m1 = m.insert(left, left_point);
        let ghost v = mirror_east_west(self.params.center, left_point);
        proof {
            lemma_built_extend(self.params, m, left.ord(), left, left_point);
            lemma_built_extend(self.params, m1, right.ord(), right, v);
        }
        self.coords.insert_mirrored_vertical(left, right, left_point, self.params.center);
    }

    /// Stores the point of `up` and its mirror image under `down`.
    fn insert_up_down(&mut self, up: CoordName, down: CoordName, up_point: Point)
        requires
            old(self).building(up.ord()),
            old(self).step_result(up, Ok(up_point)),
            down.ord() == up.ord() + 1,
            rule_of(down) == Rule::MirrorUpDown(up),
        ensures
            final(self).building(up.ord() + 2),
            final(self).params == old(self).params,
    {
        proof {
            reveal(ShriYantra::building);
            reveal(ShriYantra::step_ok);
        }
        let ghost m = self.coords@;
        let ghost m1 = m.insert(up, up_point);
        let ghost v = crate::geometry::mirror_up_down(self.params.center, up_point);
        proof {
            lemma_built_extend(self.params, m, up.ord(), up, up_point);
            lemma_built_extend(self.params, m1, down.ord(), down, v);
        }
        self.coords.insert_mirrored_horizontal(up, down, up_point, self.params.center);
    }

    /// Stores the center, the last point.
    fn add_bindu(&mut self)
        requires
            old(self).building(C::BINDU.ord()),
        ensures
            final(self).building(ID_COUNT as nat),
            final(self).params == old(self).params,
    {
        proof {
            reveal(ShriYantra::building);
            reveal(ShriYantra::step_ok);
        }
        let center = self.params.center;
        self.insert(C::BINDU, center);
    }

    /// Computes every point from the parameters, in the order of the names.
    fn build_points(&mut self) -> (r: Result<(), YantraError>)
        requires
            old(self).building(0),
        ensures
            final(self).params == old(self).params,
            r is Ok ==> final(self).building(ID_COUNT as nat),
            r is Err ==> r == Err::<(), YantraError>(YantraError::NoIntersection) && forall|
                m: Map<CoordName, Point>,
            | !is_layout(final(self).params, m),
    {
        // The first up and down triangles, from the lengths g and c.
        let um_1 = self.point_on_axis(C::UM1, Radial::G);
        self.insert(C::UM1, um_1);
        let ut_1 = self.point_on_axis(C::UT1, Radial::Top);
        self.insert_up_down(C::UT1, C::DT1, ut_1);
        let ul_1 = self.point_on_rim(C::UL1, Radial::G)?;
        self.insert_east_west(C::UL1, C::UR1, ul_1);
        let dm_1 = self.point_on_axis(C::DM1, Radial::C);
        self.insert(C::DM1, dm_1);
        let dl_1 = self.point_on_rim(C::DL1, Radial::C)?;
        self.insert_east_west(C::DL1, C::DR1, dl_1);

        // Their crossings.
        let nwg_1 = self.interpolate_and_intersect(C::NWG1, C::UT1, C::UL1, C::DL1, C::DR1)?;
        self.insert_east_west(C::NWG1, C::NEG1, nwg_1);
        let swg_1 = self.interpolate_and_intersect(C::SWG1, C::DT1, C::DL1, C::UL1, C::UR1)?;
        self.insert_east_west(C::SWG1, C::SEG1, swg_1);
        let wh_1 = self.interpolate_and_intersect(C::WH1, C::UT1, C::UL1, C::DL1, C::DT1)?;
        self.insert_east_west(C::WH1, C::EH1, wh_1);

        // The tip of the second down triangle, from the length i, and the
        // southernmost triple points of the first and second paths.
        let dt_2 = self.point_on_axis(C::DT2, Radial::I);
        self.insert(C::DT2, dt_2);
        let swg_3 = self.interpolate_and_intersect(C::SWG3, C::NWG1, C::DT2, C::UL1, C::UR1)?;
        self.insert_east_west(C::SWG3, C::SEG3, swg_3);
        let swg_2 = self.interpolate_and_intersect(C::SWG2, C::DM1, C::SWG3, C::DL1, C::DT1)?;
        self.insert_east_west(C::SWG2, C::SEG2, swg_2);

        // The base of the fourth up triangle.
        let ul_4 = self.interpolate_and_intersect_with_chord(C::UL4, C::DT2, C::DM1, C::SWG3)?;
        self.insert_east_west(C::UL4, C::UR4, ul_4);

        // The tip of the second up triangle, from the length a, and the
        // remaining triple point of the second path.
        let ut_2 = self.point_on_axis(C::UT2, Radial::A);
        self.insert(C::UT2, ut_2);
        let nwg_3 = self.interpolate_and_intersect(C::NWG3, C::SWG1, C::UT2, C::DL1, C::DR1)?;
        self.insert_east_west(C::NWG3, C::NEG3, nwg_3);

        // The base of the third up triangle, from the length f, and the
        // remaining triple point of the first path.
        let um_3 = self.point_on_axis(C::UM3, Radial::F);
        self.insert(C::UM3, um_3);
        let nwg_2 = self.interpolate_and_intersect(C::NWG2, C::UM3, C::NWG3, C::UL1, C::UT1)?;
        self.insert_east_west(C::NWG2, C::NEG2, nwg_2);

        // The remaining points of the first path.
        let dl_5 = self.interpolate_and_intersect_with_chord(C::DL5, C::UT2, C::UM3, C::NWG3)?;
        self.insert_east_west(C::DL5, C::DR5, dl_5);
        let ul_2 = self.interpolate_and_intersect(C::UL2, C::UT2, C::SWG1, C::SWG2, C::SEG2)?;
        self.insert_east_west(C::UL2, C::UR2, ul_2);
        let dl_2 = self.interpolate_and_intersect(C::DL2, C::DT2, C::NWG1, C::NWG2, C::NEG2)?;
        self.insert_east_west(C::DL2, C::DR2, dl_2);
        let nwh = self.interpolate_and_intersect_with_chord(C::NWH, C::UT2, C::UT1, C::UL1)?;
        self.insert_east_west(C::NWH, C::NEH, nwh);
        let swh = self.interpolate_and_intersect_with_chord(C::SWH, C::DT2, C::DT1, C::DL1)?;
        self.insert_east_west(C::SWH, C::SEH, swh);

        // The remaining points of the second path.
        let wi_2 = self.interpolate_and_intersect(C::WI2, C::UT2, C::SWG1, C::DT2, C::NWG1)?;
        self.insert_east_west(C::WI2, C::EI2, wi_2);
        let wi_1 = self.interpolate_and_intersect(C::WI1, C::UT2, C::NWG3, C::NWG2, C::NEG2)?;
        self.insert_east_west(C::WI1, C::EI1, wi_1);
        let wi_3 = self.interpolate_and_intersect(C::WI3, C::DT2, C::SWG3, C::SWG2, C::SEG2)?;
        self.insert_east_west(C::WI3, C::EI3, wi_3);

        // The third up triangle.
        let ut_3 = self.mid_point(C::UT3, C::WI1, C::EI1);
        self.insert(C::UT3, ut_3);
        let ul_3 = self.interpolate_and_intersect_with_chord(C::UL3, C::UM3, C::NWG1, C::DT2)?;
        self.insert_east_west(C::UL3, C::UR3, ul_3);

        // The last triple points and the third down triangle.
        let wg = self.interpolate_and_intersect(C::WG, C::UM3, C::NWG3, C::DM1, C::SWG3)?;
        self.insert_east_west(C::WG, C::EG, wg);
        let swg_4 = self.interpolate_and_intersect_with_chord(C::SWG4, C::UM3, C::DM1, C::SWG2)?;
        self.insert_east_west(C::SWG4, C::SEG4, swg_4);
        let dt_3 = self.mid_point(C::DT3, C::WI3, C::EI3);
        self.insert(C::DT3, dt_3);
        let dl_3 = self.interpolate_and_intersect(C::DL3, C::DT3, C::SWG4, C::UT2, C::SWG1)?;
        self.insert_east_west(C::DL3, C::DR3, dl_3);
        let nwg_4 = self.interpolate_and_intersect(C::NWG4, C::UT3, C::UL3, C::DL3, C::DR3)?;
        self.insert_east_west(C::NWG4, C::NEG4, nwg_4);

        // The remaining double points of the third path.
        let nwf = self.interpolate_and_intersect_with_chord(C::NWF, C::DM1, C::UT3, C::UL3)?;
        self.insert_east_west(C::NWF, C::NEF, nwf);
        let swf = self.interpolate_and_intersect_with_chord(C::SWF, C::UM1, C::DT3, C::DL3)?;
        self.insert_east_west(C::SWF, C::SEF, swf);
        let wk = self.interpolate_and_intersect(C::WK, C::UT3, C::UL3, C::DT3, C::DL3)?;
        self.insert_east_west(C::WK, C::EK, wk);

        // The fourth down triangle.
        let dl_4 = self.interpolate_and_intersect_with_chord(C::DL4, C::EG, C::UT3, C::UL3)?;
        self.insert_east_west(C::DL4, C::DR4, dl_4);

        // The remaining points of the fourth path.
        let wj_1 = self.interpolate_and_intersect_with_chord(C::WJ1, C::DL3, C::DM1, C::SWG2)?;
        self.insert_east_west(C::WJ1, C::EJ1, wj_1);
        let wj_2 = self.interpolate_and_intersect(C::WJ2, C::UM1, C::DL4, C::DM1, C::SWG2)?;
        self.insert_east_west(C::WJ2, C::EJ2, wj_2);
        let wj_3 = self.interpolate_and_intersect_with_chord(C::WJ3, C::UM3, C::UM1, C::DL4)?;
        self.insert_east_west(C::WJ3, C::EJ3, wj_3);

        // Finally, the bindu.
        self.add_bindu();
        Ok(())
    }

    /// Computes every point of the diagram from its parameters, replacing
    /// whatever was computed before; on a constructed diagram it succeeds
    /// again with the same points. Fails with `NoIntersection`, and
    /// keeps no point, exactly when the parameters admit no diagram: some
    /// rule meets parallel lines, lines that cross beyond their extended
    /// range or far from the center, or a height that the circle does not
    /// reach.
    pub fn construct_all_points(&mut self) -> (r: Result<(), YantraError>)
        requires
            old(self).wf(),
        ensures
            final(self).wf(),
            final(self).params() == old(self).params(),
            match r {
                Ok(()) => final(self).is_constructed(),
                Err(e) => e == YantraError::NoIntersection && final(self).points() == Map::<
                    CoordName,
                    Point,
                >::empty() && forall|m: Map<CoordName, Point>| !is_layout(final(self).params(), m),
            },
            old(self).is_constructed() ==> r is Ok && final(self).points() == old(self).points(),
    {
        let ghost before = self.coords@;
        proof {
            reveal(ShriYantra::building);
            reveal(ShriYantra::step_ok);
        }
        self.coords = Registry::new();
        proof {
            lemma_built_empty(self.params);
        }
        let r = self.build_points();
        proof {
            if r is Ok {
                lemma_built_complete(self.params, self.coords@);
                if is_layout(self.params, before) {
                    lemma_layout_unique(self.params, before, self.coords@);
                }
            }
        }
        if r.is_err() {
            self.coords = Registry::new();
        }
        r
    }

    /// The point named `id`; `UnknownPoint` before the construction.
    pub fn get(&self, id: CoordName) -> (r: Result<Point, YantraError>)
        requires
            self.wf(),
        ensures
            match r {
                Ok(p) => self.points().contains_key(id) && p == self.points()[id],
                Err(e) => !self.points().contains_key(id) && e == YantraError::UnknownPoint,
            },
    {
        self.coords.get(id)
    }

    /// Every computed point, in the order of construction of the names.
    pub fn get_all_points(&self) -> (r: Vec<Point>)
        requires
            self.wf(),
        ensures
            r@ == listed(self.points(), ID_COUNT as nat),
            self.is_constructed() ==> r@.len() == ID_COUNT,
    {
        proof {
            if self.is_constructed() {
                assert forall|id: CoordName| #[trigger] self.points().contains_key(id) by {
                    assert(obeys(self.params, self.coords@, id));
                }
                lemma_listed_len(self.points(), ID_COUNT as nat);
            }
        }
        self.coords.all_points()
    }

    /// Reads the points of `west_path_coords` (listed from the bottom up),
    /// mirrors them to the east in reverse order, and closes the path with
    /// the optional `top_coord` and `bottom_coord`.
    fn reflected_and_closed_path(
        &self,
        west_path_coords: Vec<CoordName>,
        top_coord: Option<CoordName>,
        bottom_coord: Option<CoordName>,
    ) -> (r: Vec<Point>)
        requires
            self.wf(),
            self.is_constructed(),
        ensures
            r@ == closed_path(
                self.points(),
                self.params().center,
                west_path_coords@,
                top_coord,
                bottom_coord,
            ),
    {
        let ghost m = self.coords@;
        let c = self.params.center;
        let n = west_path_coords.len();
        let mut west_path: Vec<Point> = Vec::new();
        let mut i: usize = 0;
        while i < n
            invariant
                self.wf(),
                self.is_constructed(),
                m == self.coords@,
                c == self.params.center,
                n == west_path_coords@.len(),
                i <= n,
                west_path@.len() == i,
                forall|k: int| 0 <= k < i ==> west_path@[k] == m[west_path_coords@[k]],
                forall|k: int| 0 <= k < i ==> #[trigger] west_path@[k].near(c),
            decreases n - i,
        {
            let id = west_path_coords[i];
            assert(obeys(self.params, m, id));
            assert(m[id].near(c));
            west_path.push(self.get_point(id));
            i = i + 1;
        }
        let mut east_path: Vec<Point> = Vec::new();
        let mut j: usize = n;
        while j > 0
            invariant
                self.params.valid(),
                c == self.params.center,
                j <= n,
                west_path@.len() == n,
                forall|k: int| 0 <= k < n ==> #[trigger] west_path@[k].near(c),
                east_path@.len() == n - j,
                forall|k: int|
                    0 <= k < n - j ==> east_path@[k] == mirror_east_west(c, west_path@[n - 1 - k]),
            decreases j,
        {
            j = j - 1;
            east_path.push(reflect_east_west(west_path[j], c));
        }
        let ghost w = west_path@;
        let ghost e = east_path@;
        match top_coord {
            Some(t) => {
                assert(obeys(self.params, m, t));
                west_path.push(self.get_point(t));
            },
            None => {},
        }
        match bottom_coord {
            Some(b) => {
                assert(obeys(self.params, m, b));
                east_path.push(self.get_point(b));
            },
            None => {},
        }
        west_path.append(&mut east_path);
        proof {
            let ws = west_path_coords@.map_values(|id: CoordName| m[id]);
            assert(w =~= ws);
            assert(e =~= ws.map_values(|q: Point| mirror_east_west(c, q)).reverse());
            assert(west_path@ =~= closed_path(m, c, west_path_coords@, top_coord, bottom_coord));
        }
        west_path
    }

    /// The boundary of the first path.
    pub fn first_outer_path(&self) -> (r: Vec<Point>)
        requires
            self.wf(),
            self.is_constructed(),
        ensures
            r@ == closed_path(
                self.points(),
                self.params().center,
                first_outer_west(),
                Some(C::UT1),
                Some(C::DT1),
            ),
    {
        let west_path = vec![
            C::SWH,
            C::UL4,
            C::SWG2,
            C::UL2,
            C::SWG1,
            C::UL1,
            C::WH1,
            C::DL1,
            C::NWG1,
            C::DL2,
            C::NWG2,
            C::DL5,
            C::NWH,
        ];
        assert(west_path@ =~= first_outer_west());
        self.reflected_and_closed_path(west_path, Some(C::UT1), Some(C::DT1))
    }

    /// The boundary of the inner figure of the first path.
    pub fn first_inner_path(&self) -> (r: Vec<Point>)
        requires
            self.wf(),
            self.is_constructed(),
        ensures
            r@ == closed_path(
                self.points(),
                self.params().center,
                first_inner_west(),
                None,
                None,
            ),
    {
        let west_path = vec![C::SWH, C::WH1, C::NWH];
        assert(west_path@ =~= first_inner_west());
        self.reflected_and_closed_path(west_path, None, None)
    }

    /// The boundary of the second path.
    pub fn second_outer_path(&self) -> (r: Vec<Point>)
        requires
            self.wf(),
            self.is_constructed(),
        ensures
            r@ == closed_path(
                self.points(),
                self.params().center,
                second_outer_west(),
                Some(C::UT2),
                Some(C::DT2),
            ),
    {
        let west_path = vec![
            C::WI3,
            C::SWG2,
            C::SWG3,
            C::SWG1,
            C::WI2,
            C::NWG1,
            C::NWG3,
            C::NWG2,
            C::WI1,
        ];
        assert(west_path@ =~= second_outer_west());
        self.reflected_and_closed_path(west_path, Some(C::UT2), Some(C::DT2))
    }

    /// The boundary of the inner figure of the second path.
    pub fn second_inner_path(&self) -> (r: Vec<Point>)
        requires
            self.wf(),
            self.is_constructed(),
        ensures
            r@ == closed_path(
                self.points(),
                self.params().center,
                second_inner_west(),
                None,
                None,
            ),
    {
        let west_path = vec![C::WI3, C::WI2, C::WI1];
        assert(west_path@ =~= second_inner_west());
        self.reflected_and_closed_path(west_path, None, None)
    }

    /// The boundary of the third path.
    pub fn third_outer_path(&self) -> (r: Vec<Point>)
        requires
            self.wf(),
            self.is_constructed(),
        ensures
            r@ == closed_path(
                self.points(),
                self.params().center,
                third_outer_west(),
                Some(C::UT3),
                Some(C::DT3),
            ),
    {
        let west_path = vec![
            C::SWF,
            C::SWG3,
            C::SWG4,
            C::UL3,
            C::WK,
            C::DL3,
            C::NWG4,
            C::NWG3,
            C::NWF,
        ];
        assert(west_path@ =~= third_outer_west());
        self.reflected_and_closed_path(west_path, Some(C::UT3), Some(C::DT3))
    }

    /// The boundary of the inner figure of the third path.
    pub fn third_inner_path(&self) -> (r: Vec<Point>)
        requires
            self.wf(),
            self.is_constructed(),
        ensures
            r@ == closed_path(
                self.points(),
                self.params().center,
                third_inner_west(),
                None,
                None,
            ),
    {
        let west_path = vec![C::SWF, C::WK, C::NWF];
        assert(west_path@ =~= third_inner_west());
        self.reflected_and_closed_path(west_path, None, None)
    }

    /// The boundary of the fourth path.
    pub fn fourth_outer_path(&self) -> (r: Vec<Point>)
        requires
            self.wf(),
            self.is_constructed(),
        ensures
            r@ == closed_path(
                self.points(),
                self.params().center,
                fourth_outer_west(),
                Some(C::DM1),
                Some(C::UM1),
            ),
    {
        let west_path = vec![C::WJ3, C::SWG4, C::WJ2, C::DL4, C::WG, C::NWG4, C::WJ1];
        assert(west_path@ =~= fourth_outer_west());
        self.reflected_and_closed_path(west_path, Some(C::DM1), Some(C::UM1))
    }

    /// The boundary of the inner figure of the fourth path.
    pub fn fourth_inner_path(&self) -> (r: Vec<Point>)
        requires
            self.wf(),
            self.is_constructed(),
        ensures
            r@ == closed_path(
                self.points(),
                self.params().center,
                fourth_inner_west(),
                None,
                None,
            ),
    {
        let west_path = vec![C::WJ3, C::WJ2, C::WJ1];
        assert(west_path@ =~= fourth_inner_west());
        self.reflected_and_closed_path(west_path, None, None)
    }

    /// The boundary of the fifth path.
    pub fn fifth_outer_path(&self) -> (r: Vec<Point>)
        requires
            self.wf(),
            self.is_constructed(),
        ensures
            r@ == closed_path(
                self.points(),
                self.params().center,
                fifth_outer_west(),
                None,
                Some(C::UM3),
            ),
    {
        let west_path = vec![C::WG];
        assert(west_path@ =~= fifth_outer_west());
        self.reflected_and_closed_path(west_path, None, Some(C::UM3))
    }
} // impl ShriYantra

/// In a constructed diagram each eastern point is the mirror image of its
/// western twin across the vertical axis through the center, and the tip
/// of the first down triangle is that of the first up triangle across the
/// horizontal axis.
pub proof fn lemma_mirror_symmetry(s: &ShriYantra)
    requires
        s.wf(),
        s.is_constructed(),
    ensures
        forall|east: CoordName| #[trigger]
            rule_of(east) is MirrorEastWest ==> {
                let west = rule_of(east)->MirrorEastWest_0;
                let c = s.params().center;
                &&& s.points()[east].x == c.x - (s.points()[west].x - c.x)
                &&& s.points()[east].y == s.points()[west].y
            },
        forall|down: CoordName| #[trigger]
            rule_of(down) is MirrorUpDown ==> {
                let up = rule_of(down)->MirrorUpDown_0;
                let c = s.params().center;
                &&& s.points()[down].x == s.points()[up].x
                &&& s.points()[down].y == c.y - (s.points()[up].y - c.y)
            },
{
    let m = s.points();
    let p = s.params();
    assert forall|east: CoordName| #[trigger] rule_of(east) is MirrorEastWest implies {
        let west = rule_of(east)->MirrorEastWest_0;
        &&& m[east].x == p.center.x - (m[west].x - p.center.x)
        &&& m[east].y == m[west].y
    } by {
        let west = rule_of(east)->MirrorEastWest_0;
        assert(obeys(p, m, east));
        assert(obeys(p, m, west));
        assert(m[west].near(p.center));
    }
    assert forall|down: CoordName| #[trigger] rule_of(down) is MirrorUpDown implies {
        let up = rule_of(down)->MirrorUpDown_0;
        &&& m[down].x == m[up].x
        &&& m[down].y == p.center.y - (m[up].y - p.center.y)
    } by {
        let up = rule_of(down)->MirrorUpDown_0;
        assert(obeys(p, m, down));
        assert(obeys(p, m, up));
        assert(m[up].near(p.center));
    }
}

/// Two constructed diagrams with the same parameters hold the same points,
/// and therefore the same paths.
pub proof fn lemma_construction_deterministic(s1: &ShriYantra, s2: &ShriYantra)
    requires
        s1.wf(),
        s1.is_constructed(),
        s2.wf(),
        s2.is_constructed(),
        s1.params() == s2.params(),
    ensures
        s1.points() == s2.points(),
{
    lemma_layout_unique(s1.params(), s1.points(), s2.points());
}

/// A closed path has two points for each western name, plus one for each
/// end point given: an even number without end points, an odd one with
/// exactly one.
pub proof fn lemma_path_length(
    m: Map<CoordName, Point>,
    center: Point,
    west: Seq<CoordName>,
    top: Option<CoordName>,
    bottom: Option<CoordName>,
)
    ensures
        closed_path(m, center, west, top, bottom).len() == 2 * west.len() + (if top is Some {
            1int
        } else {
            0
        }) + (if bottom is Some {
            1int
        } else {
            0
        }),
        top is None && bottom is None ==> closed_path(m, center, west, top, bottom).len() % 2
            == 0,
        top is Some != bottom is Some ==> closed_path(m, center, west, top, bottom).len() % 2
            == 1,
{
}

/// Leaving the five lengths unset gives the same parameters as setting
/// them to 5/48, 17/48, 26.5/48, 30/48 and 42/48 of the diameter.
pub proof fn lemma_default_params(radius: i64, center: Point)
    ensures
        params_from(radius, center, None, None, None, None, None) == params_from(
            radius,
            center,
            Some(fraction_of_diameter(radius, 5, 48)),
            Some(fraction_of_diameter(radius, 17, 48)),
            Some(fraction_of_diameter(radius, 53, 96)),
            Some(fraction_of_diameter(radius, 30, 48)),
            Some(fraction_of_diameter(radius, 42, 48)),
        ),
{
}

} // verus!
