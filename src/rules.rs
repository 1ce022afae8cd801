//! The rules that place each named point of a Sri Yantra, and what follows
//! from them: a diagram is determined by its parameters.
use crate::geometry::{
    half_chord, lines_meet, meeting_point, midpoint, mirror_east_west, mirror_up_down, Point,
    COORD_LIMIT, RADIUS_LIMIT,
};
use crate::names::{lemma_ord_inverse, CoordName, ID_COUNT};
use crate::names::CoordName as C;
use vstd::prelude::*;

verus! {

/// The free parameters of a diagram: the radius and center of the bounding
/// circle, and five lengths measured down the vertical axis from the top
/// of the circle.
#[derive(Clone, Copy, Debug, PartialEq, Eq, Structural)]
pub struct Params {
    pub radius: i64,
    pub center: Point,
    /// Places the tip of the second up triangle.
    pub param_a: i64,
    /// Places the base of the first down triangle.
    pub param_c: i64,
    /// Places the base of the third up triangle.
    pub param_f: i64,
    /// Places the base of the first up triangle.
    pub param_g: i64,
    /// Places the tip of the second down triangle.
    pub param_i: i64,
}

impl Params {
    /// The parameters lie in the range in which the construction computes
    /// without overflow.
    pub open spec fn valid(self) -> bool {
        &&& 0 < self.radius <= RADIUS_LIMIT
        &&& self.center.within(COORD_LIMIT as int)
        &&& -RADIUS_LIMIT <= self.param_a <= 2 * RADIUS_LIMIT
        &&& -RADIUS_LIMIT <= self.param_c <= 2 * RADIUS_LIMIT
        &&& -RADIUS_LIMIT <= self.param_f <= 2 * RADIUS_LIMIT
        &&& -RADIUS_LIMIT <= self.param_g <= 2 * RADIUS_LIMIT
        &&& -RADIUS_LIMIT <= self.param_i <= 2 * RADIUS_LIMIT
    }
}

/// The length that places a point on the vertical axis.
#[derive(Clone, Copy, Debug, PartialEq, Eq, Structural)]
pub enum Radial {
    /// The top of the circle itself.
    Top,
    /// The length `param_a`.
    A,
    /// The length `param_c`.
    C,
    /// The length `param_f`.
    F,
    /// The length `param_g`.
    G,
    /// The length `param_i`.
    I,
}

/// How far above the center the length `h` places its point.
pub open spec fn height(p: Params, h: Radial) -> int {
    match h {
        Radial::Top => p.radius as int,
        Radial::A => p.radius - p.param_a,
        Radial::C => p.radius - p.param_c,
        Radial::F => p.radius - p.param_f,
        Radial::G => p.radius - p.param_g,
        Radial::I => p.radius - p.param_i,
    }
}

/// How one named point is obtained from the parameters and from points
/// named before it.
#[derive(Clone, Copy, Debug, PartialEq, Eq, Structural)]
pub enum Rule {
    /// On the vertical axis, at the height that the length gives.
    OnAxis(Radial),
    /// The western end of the chord of the circle at that height.
    Rim(Radial),
    /// The mirror image of a point across the horizontal axis.
    MirrorUpDown(CoordName),
    /// The mirror image of a point across the vertical axis.
    MirrorEastWest(CoordName),
    /// Where the line through the first two points meets the line through
    /// the other two.
    Meet(CoordName, CoordName, CoordName, CoordName),
    /// Where the line through the last two points meets the horizontal
    /// chord of the circle at the height of the first.
    ChordMeet(CoordName, CoordName, CoordName),
    /// The midpoint of two points.
    Mid(CoordName, CoordName),
    /// The center of the circle.
    Center,
}

/// The rule of each named point: the dependency graph of the construction.
pub open spec fn rule_of(id: CoordName) -> Rule {
    match id {
        C::UM1 => Rule::OnAxis(Radial::G),
        C::UT1 => Rule::OnAxis(Radial::Top),
        C::DT1 => Rule::MirrorUpDown(C::UT1),
        C::UL1 => Rule::Rim(Radial::G),
        C::UR1 => Rule::MirrorEastWest(C::UL1),
        C::DM1 => Rule::OnAxis(Radial::C),
        C::DL1 => Rule::Rim(Radial::C),
        C::DR1 => Rule::MirrorEastWest(C::DL1),
        C::NWG1 => Rule::Meet(C::UT1, C::UL1, C::DL1, C::DR1),
        C::NEG1 => Rule::MirrorEastWest(C::NWG1),
        C::SWG1 => Rule::Meet(C::DT1, C::DL1, C::UL1, C::UR1),
        C::SEG1 => Rule::MirrorEastWest(C::SWG1),
        C::WH1 => Rule::Meet(C::UT1, C::UL1, C::DL1, C::DT1),
        C::EH1 => Rule::MirrorEastWest(C::WH1),
        C::DT2 => Rule::OnAxis(Radial::I),
        C::SWG3 => Rule::Meet(C::NWG1, C::DT2, C::UL1, C::UR1),
        C::SEG3 => Rule::MirrorEastWest(C::SWG3),
        C::SWG2 => Rule::Meet(C::DM1, C::SWG3, C::DL1, C::DT1),
        C::SEG2 => Rule::MirrorEastWest(C::SWG2),
        C::UL4 => Rule::ChordMeet(C::DT2, C::DM1, C::SWG3),
        C::UR4 => Rule::MirrorEastWest(C::UL4),
        C::UT2 => Rule::OnAxis(Radial::A),
        C::NWG3 => Rule::Meet(C::SWG1, C::UT2, C::DL1, C::DR1),
        C::NEG3 => Rule::MirrorEastWest(C::NWG3),
        C::UM3 => Rule::OnAxis(Radial::F),
        C::NWG2 => Rule::Meet(C::UM3, C::NWG3, C::UL1, C::UT1),
        C::NEG2 => Rule::MirrorEastWest(C::NWG2),
        C::DL5 => Rule::ChordMeet(C::UT2, C::UM3, C::NWG3),
        C::DR5 => Rule::MirrorEastWest(C::DL5),
        C::UL2 => Rule::Meet(C::UT2, C::SWG1, C::SWG2, C::SEG2),
        C::UR2 => Rule::MirrorEastWest(C::UL2),
        C::DL2 => Rule::Meet(C::DT2, C::NWG1, C::NWG2, C::NEG2),
        C::DR2 => Rule::MirrorEastWest(C::DL2),
        C::NWH => Rule::ChordMeet(C::UT2, C::UT1, C::UL1),
        C::NEH => Rule::MirrorEastWest(C::NWH),
        C::SWH => Rule::ChordMeet(C::DT2, C::DT1, C::DL1),
        C::SEH => Rule::MirrorEastWest(C::SWH),
        C::WI2 => Rule::Meet(C::UT2, C::SWG1, C::DT2, C::NWG1),
        C::EI2 => Rule::MirrorEastWest(C::WI2),
        C::WI1 => Rule::Meet(C::UT2, C::NWG3, C::NWG2, C::NEG2),
        C::EI1 => Rule::MirrorEastWest(C::WI1),
        C::WI3 => Rule::Meet(C::DT2, C::SWG3, C::SWG2, C::SEG2),
        C::EI3 => Rule::MirrorEastWest(C::WI3),
        C::UT3 => Rule::Mid(C::WI1, C::EI1),
        C::UL3 => Rule::ChordMeet(C::UM3, C::NWG1, C::DT2),
        C::UR3 => Rule::MirrorEastWest(C::UL3),
        C::WG => Rule::Meet(C::UM3, C::NWG3, C::DM1, C::SWG3),
        C::EG => Rule::MirrorEastWest(C::WG),
        C::SWG4 => Rule::ChordMeet(C::UM3, C::DM1, C::SWG2),
        C::SEG4 => Rule::MirrorEastWest(C::SWG4),
        C::DT3 => Rule::Mid(C::WI3, C::EI3),
        C::DL3 => Rule::Meet(C::DT3, C::SWG4, C::UT2, C::SWG1),
        C::DR3 => Rule::MirrorEastWest(C::DL3),
        C::NWG4 => Rule::Meet(C::UT3, C::UL3, C::DL3, C::DR3),
        C::NEG4 => Rule::MirrorEastWest(C::NWG4),
        C::NWF => Rule::ChordMeet(C::DM1, C::UT3, C::UL3),
        C::NEF => Rule::MirrorEastWest(C::NWF),
        C::SWF => Rule::ChordMeet(C::UM1, C::DT3, C::DL3),
        C::SEF => Rule::MirrorEastWest(C::SWF),
        C::WK => Rule::Meet(C::UT3, C::UL3, C::DT3, C::DL3),
        C::EK => Rule::MirrorEastWest(C::WK),
        C::DL4 => Rule::ChordMeet(C::EG, C::UT3, C::UL3),
        C::DR4 => Rule::MirrorEastWest(C::DL4),
        C::WJ1 => Rule::ChordMeet(C::DL3, C::DM1, C::SWG2),
        C::EJ1 => Rule::MirrorEastWest(C::WJ1),
        C::WJ2 => Rule::Meet(C::UM1, C::DL4, C::DM1, C::SWG2),
        C::EJ2 => Rule::MirrorEastWest(C::WJ2),
        C::WJ3 => Rule::ChordMeet(C::UM3, C::UM1, C::DL4),
        C::EJ3 => Rule::MirrorEastWest(C::WJ3),
        C::BINDU => Rule::Center,
    }
}

/// The point on the vertical axis that the length `h` places.
pub open spec fn on_axis(p: Params, h: Radial) -> Point {
    Point { x: p.center.x, y: (p.center.y + height(p, h)) as i64 }
}

/// The western end of the chord of the circle at the height that `h`
/// gives; `None` where the circle does not reach that height.
pub open spec fn rim_point(p: Params, h: Radial) -> Option<Point> {
    match half_chord(p.radius as int, height(p, h)) {
        Some(w) => Some(
            Point { x: (p.center.x - w) as i64, y: (p.center.y + height(p, h)) as i64 },
        ),
        None => None,
    }
}

/// Where the line through `a` and `b` meets the line through `d` and `e`,
/// provided that it does and the point lies near `center`.
pub open spec fn meet_near(center: Point, a: Point, b: Point, d: Point, e: Point) -> Option<Point> {
    if lines_meet(a, b, d, e) && meeting_point(a, b, d, e).near(center) {
        Some(meeting_point(a, b, d, e))
    } else {
        None
    }
}

/// The eastern end of the chord of the circle at the height of `k`.
pub open spec fn chord_end(p: Params, w: int, k: Point) -> Point {
    Point { x: (p.center.x + w) as i64, y: k.y }
}

/// Where the line through `a` and `b` meets the horizontal chord of the
/// circle at the height of `k`, taken as the line through `k` and the
/// chord's eastern end.
pub open spec fn chord_meet(p: Params, k: Point, a: Point, b: Point) -> Option<Point> {
    match half_chord(p.radius as int, k.y - p.center.y) {
        Some(w) => meet_near(p.center, a, b, k, chord_end(p, w, k)),
        None => None,
    }
}

/// The point that rule `r` gives on the points `m`; `None` where the rule
/// cannot be applied.
pub open spec fn value_of(p: Params, m: Map<CoordName, Point>, r: Rule) -> Option<Point> {
    match r {
        Rule::OnAxis(h) => Some(on_axis(p, h)),
        Rule::Rim(h) => rim_point(p, h),
        Rule::MirrorUpDown(s) => Some(mirror_up_down(p.center, m[s])),
        Rule::MirrorEastWest(s) => Some(mirror_east_west(p.center, m[s])),
        Rule::Meet(a, b, d, e) => meet_near(p.center, m[a], m[b], m[d], m[e]),
        Rule::ChordMeet(k, a, b) => chord_meet(p, m[k], m[a], m[b]),
        Rule::Mid(a, b) => Some(midpoint(m[a], m[b])),
        Rule::Center => Some(p.center),
    }
}

/// `m` holds a point under `id`, the one that the rule of `id` gives.
pub open spec fn obeys(p: Params, m: Map<CoordName, Point>, id: CoordName) -> bool {
    m.contains_key(id) && value_of(p, m, rule_of(id)) == Some(m[id])
}

/// `m` is a complete diagram for the parameters `p`: every name has a
/// point, and every point is the one its rule gives.
pub open spec fn is_layout(p: Params, m: Map<CoordName, Point>) -> bool {
    forall|id: CoordName| #[trigger] obeys(p, m, id)
}

/// Every point that rule `r` reads is named before position `n`.
pub open spec fn reads_before(r: Rule, n: nat) -> bool {
    match r {
        Rule::MirrorUpDown(s) => s.ord() < n,
        Rule::MirrorEastWest(s) => s.ord() < n,
        Rule::Meet(a, b, d, e) => a.ord() < n && b.ord() < n && d.ord() < n && e.ord() < n,
        Rule::ChordMeet(k, a, b) => k.ord() < n && a.ord() < n && b.ord() < n,
        Rule::Mid(a, b) => a.ord() < n && b.ord() < n,
        _ => true,
    }
}

/// The points that rule `r` reads are the same in `m1` and `m2`.
pub open spec fn same_reads(r: Rule, m1: Map<CoordName, Point>, m2: Map<CoordName, Point>) -> bool {
    match r {
        Rule::MirrorUpDown(s) => m1[s] == m2[s],
        Rule::MirrorEastWest(s) => m1[s] == m2[s],
        Rule::Meet(a, b, d, e) => m1[a] == m2[a] && m1[b] == m2[b] && m1[d] == m2[d] && m1[e]
            == m2[e],
        Rule::ChordMeet(k, a, b) => m1[k] == m2[k] && m1[a] == m2[a] && m1[b] == m2[b],
        Rule::Mid(a, b) => m1[a] == m2[a] && m1[b] == m2[b],
        _ => true,
    }
}

/// Each rule reads only points named before its own: the order of the
/// names is an order in which the whole diagram can be computed.
pub proof fn lemma_rules_acyclic(id: CoordName)
    ensures
        reads_before(rule_of(id), id.ord()),
{
    match id {
        C::UM1 => {},
        C::UT1 => {},
        C::DT1 => {},
        C::UL1 => {},
        C::UR1 => {},
        C::DM1 => {},
        C::DL1 => {},
        C::DR1 => {},
        C::NWG1 => {},
        C::NEG1 => {},
        C::SWG1 => {},
        C::SEG1 => {},
        C::WH1 => {},
        C::EH1 => {},
        C::DT2 => {},
        C::SWG3 => {},
        C::SEG3 => {},
        C::SWG2 => {},
        C::SEG2 => {},
        C::UL4 => {},
        C::UR4 => {},
        C::UT2 => {},
        C::NWG3 => {},
        C::NEG3 => {},
        C::UM3 => {},
        C::NWG2 => {},
        C::NEG2 => {},
        C::DL5 => {},
        C::DR5 => {},
        C::UL2 => {},
        C::UR2 => {},
        C::DL2 => {},
        C::DR2 => {},
        C::NWH => {},
        C::NEH => {},
        C::SWH => {},
        C::SEH => {},
        C::WI2 => {},
        C::EI2 => {},
        C::WI1 => {},
        C::EI1 => {},
        C::WI3 => {},
        C::EI3 => {},
        C::UT3 => {},
        C::UL3 => {},
        C::UR3 => {},
        C::WG => {},
        C::EG => {},
        C::SWG4 => {},
        C::SEG4 => {},
        C::DT3 => {},
        C::DL3 => {},
        C::DR3 => {},
        C::NWG4 => {},
        C::NEG4 => {},
        C::NWF => {},
        C::NEF => {},
        C::SWF => {},
        C::SEF => {},
        C::WK => {},
        C::EK => {},
        C::DL4 => {},
        C::DR4 => {},
        C::WJ1 => {},
        C::EJ1 => {},
        C::WJ2 => {},
        C::EJ2 => {},
        C::WJ3 => {},
        C::EJ3 => {},
        C::BINDU => {},
    }
}

/// A rule gives the same point on two maps that agree on what it reads.
pub proof fn lemma_value_of_reads(p: Params, r: Rule, m1: Map<CoordName, Point>, m2: Map<
    CoordName,
    Point,
>)
    requires
        same_reads(r, m1, m2),
    ensures
        value_of(p, m1, r) == value_of(p, m2, r),
{
}

/// Two maps that obey the rules of all names before `id` agree on what the
/// rule of `id` reads.
proof fn lemma_reads_agree(
    p: Params,
    m1: Map<CoordName, Point>,
    m2: Map<CoordName, Point>,
    id: CoordName,
)
    requires
        forall|j: CoordName| j.ord() < id.ord() ==> obeys(p, m1, j) && obeys(p, m2, j),
    ensures
        same_reads(rule_of(id), m1, m2),
    decreases id.ord(), 1nat,
{
    lemma_rules_acyclic(id);
    match rule_of(id) {
        Rule::MirrorUpDown(s) => {
            lemma_agree(p, m1, m2, s);
        },
        Rule::MirrorEastWest(s) => {
            lemma_agree(p, m1, m2, s);
        },
        Rule::Meet(a, b, d, e) => {
            lemma_agree(p, m1, m2, a);
            lemma_agree(p, m1, m2, b);
            lemma_agree(p, m1, m2, d);
            lemma_agree(p, m1, m2, e);
        },
        Rule::ChordMeet(k, a, b) => {
            lemma_agree(p, m1, m2, k);
            lemma_agree(p, m1, m2, a);
            lemma_agree(p, m1, m2, b);
        },
        Rule::Mid(a, b) => {
            lemma_agree(p, m1, m2, a);
            lemma_agree(p, m1, m2, b);
        },
        _ => {},
    }
}

/// Two maps that obey the rules of `id` and of all names before it hold
/// the same point under `id`.
proof fn lemma_agree(
    p: Params,
    m1: Map<CoordName, Point>,
    m2: Map<CoordName, Point>,
    id: CoordName,
)
    requires
        forall|j: CoordName| j.ord() <= id.ord() ==> obeys(p, m1, j) && obeys(p, m2, j),
    ensures
        m1[id] == m2[id],
    decreases id.ord(), 2nat,
{
    lemma_reads_agree(p, m1, m2, id);
    lemma_value_of_reads(p, rule_of(id), m1, m2);
    assert(obeys(p, m1, id) && obeys(p, m2, id));
}

/// The rules determine the diagram: two complete diagrams with the same
/// parameters hold the same points.
pub proof fn lemma_layout_unique(p: Params, m1: Map<CoordName, Point>, m2: Map<CoordName, Point>)
    requires
        is_layout(p, m1),
        is_layout(p, m2),
    ensures
        m1 == m2,
{
    assert forall|id: CoordName| #[trigger] m1.contains_key(id) && m2.contains_key(id) by {
        assert(obeys(p, m1, id) && obeys(p, m2, id));
    }
    assert forall|id: CoordName| #[trigger] m1[id] == m2[id] by {
        lemma_agree(p, m1, m2, id);
    }
    assert(m1.dom() =~= m2.dom());
    assert(m1 =~= m2);
}

/// `m` holds the points of the first `k` names, each the one its rule
/// gives and each near the center, and nothing else.
#[verifier::opaque]
pub open spec fn built(p: Params, m: Map<CoordName, Point>, k: nat) -> bool {
    &&& forall|id: CoordName| #[trigger] m.contains_key(id) <==> id.ord() < k
    &&& forall|id: CoordName| id.ord() < k ==> #[trigger] obeys(p, m, id)
    &&& forall|id: CoordName| m.contains_key(id) ==> #[trigger] m[id].near(p.center)
}

/// The empty map is built up to the first name.
pub proof fn lemma_built_empty(p: Params)
    ensures
        built(p, Map::empty(), 0),
{
    reveal(built);
}

/// A name before position `k` has its point in a map built up to `k`.
pub proof fn lemma_built_reads(p: Params, m: Map<CoordName, Point>, k: nat, id: CoordName)
    requires
        built(p, m, k),
        id.ord() < k,
    ensures
        m.contains_key(id),
        m[id].near(p.center),
{
    reveal(built);
}

/// Adding the point that the rule of the next name gives extends a built map.
pub proof fn lemma_built_extend(
    p: Params,
    m: Map<CoordName, Point>,
    k: nat,
    id: CoordName,
    v: Point,
)
    requires
        built(p, m, k),
        id.ord() == k,
        value_of(p, m, rule_of(id)) == Some(v),
        v.near(p.center),
    ensures
        built(p, m.insert(id, v), k + 1),
{
    reveal(built);
    let m2 = m.insert(id, v);
    assert forall|j: CoordName| j.ord() < k + 1 implies #[trigger] obeys(p, m2, j) by {
        lemma_rules_acyclic(j);
        if j != id {
            crate::names::lemma_ord_injective(j, id);
            assert(obeys(p, m, j));
        }
        lemma_value_of_reads(p, rule_of(j), m, m2);
    }
    assert forall|j: CoordName| #[trigger] m2.contains_key(j) <==> j.ord() < k + 1 by {
        crate::names::lemma_ord_injective(j, id);
    }
}

/// A map built up to the last name is a complete diagram.
pub proof fn lemma_built_complete(p: Params, m: Map<CoordName, Point>)
    requires
        built(p, m, ID_COUNT as nat),
    ensures
        is_layout(p, m),
        forall|id: CoordName| m.contains_key(id) ==> #[trigger] m[id].near(p.center),
{
    reveal(built);
    assert forall|id: CoordName| #[trigger] obeys(p, m, id) by {
        lemma_ord_inverse(id);
    }
}

/// Where the rule of the next name cannot be applied to a built map, the
/// parameters admit no complete diagram.
pub proof fn lemma_no_layout(p: Params, m: Map<CoordName, Point>, id: CoordName)
    requires
        built(p, m, id.ord()),
        value_of(p, m, rule_of(id)) is None,
    ensures
        forall|m2: Map<CoordName, Point>| !is_layout(p, m2),
{
    reveal(built);
    assert forall|m2: Map<CoordName, Point>| !is_layout(p, m2) by {
        if is_layout(p, m2) {
            lemma_reads_agree(p, m2, m, id);
            lemma_value_of_reads(p, rule_of(id), m2, m);
            assert(obeys(p, m2, id));
        }
    }
}

} // verus!
