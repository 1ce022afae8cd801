//! The names of the points of a Sri Yantra.
use vstd::prelude::*;

verus! {

/// How many named points a Sri Yantra has.
pub const ID_COUNT: usize = 70;

/// The name of a point of the diagram.
///
/// `U` and `D` stand for the up and down triangles, numbered from the
/// largest; `T` is a tip, `M` the midpoint of a base, `L` and `R` its left
/// and right corners. `G` names triple intersections (by quadrant: `NW`,
/// `NE`, `SW`, `SE`), `H`, `I`, `K`, `F`, `J` double intersections on the
/// first to fourth paths, and `BINDU` the center. Western names have an
/// eastern twin that is their mirror image.
///
/// The variants are listed in the order in which the construction writes
/// them, so that every point is computed from points listed before it.
#[derive(Clone, Copy, Debug, PartialEq, Eq, Structural, Hash)]
pub enum CoordName {
    // First up and down triangles
    UM1,
    UT1,
    DT1,
    UL1,
    UR1,
    DM1,
    DL1,
    DR1,
    // Triple and double points on the first path
    NWG1,
    NEG1,
    SWG1,
    SEG1,
    WH1,
    EH1,
    // Tip of the second down triangle, southern triple points, base of the fourth up triangle
    DT2,
    SWG3,
    SEG3,
    SWG2,
    SEG2,
    UL4,
    UR4,
    // Tip of the second up triangle and the points that follow from it
    UT2,
    NWG3,
    NEG3,
    UM3,
    NWG2,
    NEG2,
    DL5,
    DR5,
    UL2,
    UR2,
    DL2,
    DR2,
    NWH,
    NEH,
    SWH,
    SEH,
    // Double points on the second path
    WI2,
    EI2,
    WI1,
    EI1,
    WI3,
    EI3,
    // Third triangles, the fourth triple points and the third path
    UT3,
    UL3,
    UR3,
    WG,
    EG,
    SWG4,
    SEG4,
    DT3,
    DL3,
    DR3,
    NWG4,
    NEG4,
    NWF,
    NEF,
    SWF,
    SEF,
    WK,
    EK,
    // Fourth down triangle and the fourth path
    DL4,
    DR4,
    WJ1,
    EJ1,
    WJ2,
    EJ2,
    WJ3,
    EJ3,
    // The center
    BINDU,
}

impl CoordName {
    /// The position of this name in the order of construction.
    pub open spec fn ord(self) -> nat {
        match self {
            CoordName::UM1 => 0,
            CoordName::UT1 => 1,
            CoordName::DT1 => 2,
            CoordName::UL1 => 3,
            CoordName::UR1 => 4,
            CoordName::DM1 => 5,
            CoordName::DL1 => 6,
            CoordName::DR1 => 7,
            CoordName::NWG1 => 8,
            CoordName::NEG1 => 9,
            CoordName::SWG1 => 10,
            CoordName::SEG1 => 11,
            CoordName::WH1 => 12,
            CoordName::EH1 => 13,
            CoordName::DT2 => 14,
            CoordName::SWG3 => 15,
            CoordName::SEG3 => 16,
            CoordName::SWG2 => 17,
            CoordName::SEG2 => 18,
            CoordName::UL4 => 19,
            CoordName::UR4 => 20,
            CoordName::UT2 => 21,
            CoordName::NWG3 => 22,
            CoordName::NEG3 => 23,
            CoordName::UM3 => 24,
            CoordName::NWG2 => 25,
            CoordName::NEG2 => 26,
            CoordName::DL5 => 27,
            CoordName::DR5 => 28,
            CoordName::UL2 => 29,
            CoordName::UR2 => 30,
            CoordName::DL2 => 31,
            CoordName::DR2 => 32,
            CoordName::NWH => 33,
            CoordName::NEH => 34,
            CoordName::SWH => 35,
            CoordName::SEH => 36,
            CoordName::WI2 => 37,
            CoordName::EI2 => 38,
            CoordName::WI1 => 39,
            CoordName::EI1 => 40,
            CoordName::WI3 => 41,
            CoordName::EI3 => 42,
            CoordName::UT3 => 43,
            CoordName::UL3 => 44,
            CoordName::UR3 => 45,
            CoordName::WG => 46,
            CoordName::EG => 47,
            CoordName::SWG4 => 48,
            CoordName::SEG4 => 49,
            CoordName::DT3 => 50,
            CoordName::DL3 => 51,
            CoordName::DR3 => 52,
            CoordName::NWG4 => 53,
            CoordName::NEG4 => 54,
            CoordName::NWF => 55,
            CoordName::NEF => 56,
            CoordName::SWF => 57,
            CoordName::SEF => 58,
            CoordName::WK => 59,
            CoordName::EK => 60,
            CoordName::DL4 => 61,
            CoordName::DR4 => 62,
            CoordName::WJ1 => 63,
            CoordName::EJ1 => 64,
            CoordName::WJ2 => 65,
            CoordName::EJ2 => 66,
            CoordName::WJ3 => 67,
            CoordName::EJ3 => 68,
            CoordName::BINDU => 69,
        }
    }

    /// The position of this name in the order of construction.
    pub fn index(self) -> (r: usize)
        ensures
            r == self.ord(),
            r < ID_COUNT,
    {
        match self {
            CoordName::UM1 => 0,
            CoordName::UT1 => 1,
            CoordName::DT1 => 2,
            CoordName::UL1 => 3,
            CoordName::UR1 => 4,
            CoordName::DM1 => 5,
            CoordName::DL1 => 6,
            CoordName::DR1 => 7,
            CoordName::NWG1 => 8,
            CoordName::NEG1 => 9,
            CoordName::SWG1 => 10,
            CoordName::SEG1 => 11,
            CoordName::WH1 => 12,
            CoordName::EH1 => 13,
            CoordName::DT2 => 14,
            CoordName::SWG3 => 15,
            CoordName::SEG3 => 16,
            CoordName::SWG2 => 17,
            CoordName::SEG2 => 18,
            CoordName::UL4 => 19,
            CoordName::UR4 => 20,
            CoordName::UT2 => 21,
            CoordName::NWG3 => 22,
            CoordName::NEG3 => 23,
            CoordName::UM3 => 24,
            CoordName::NWG2 => 25,
            CoordName::NEG2 => 26,
            CoordName::DL5 => 27,
            CoordName::DR5 => 28,
            CoordName::UL2 => 29,
            CoordName::UR2 => 30,
            CoordName::DL2 => 31,
            CoordName::DR2 => 32,
            CoordName::NWH => 33,
            CoordName::NEH => 34,
            CoordName::SWH => 35,
            CoordName::SEH => 36,
            CoordName::WI2 => 37,
            CoordName::EI2 => 38,
            CoordName::WI1 => 39,
            CoordName::EI1 => 40,
            CoordName::WI3 => 41,
            CoordName::EI3 => 42,
            CoordName::UT3 => 43,
            CoordName::UL3 => 44,
            CoordName::UR3 => 45,
            CoordName::WG => 46,
            CoordName::EG => 47,
            CoordName::SWG4 => 48,
            CoordName::SEG4 => 49,
            CoordName::DT3 => 50,
            CoordName::DL3 => 51,
            CoordName::DR3 => 52,
            CoordName::NWG4 => 53,
            CoordName::NEG4 => 54,
            CoordName::NWF => 55,
            CoordName::NEF => 56,
            CoordName::SWF => 57,
            CoordName::SEF => 58,
            CoordName::WK => 59,
            CoordName::EK => 60,
            CoordName::DL4 => 61,
            CoordName::DR4 => 62,
            CoordName::WJ1 => 63,
            CoordName::EJ1 => 64,
            CoordName::WJ2 => 65,
            CoordName::EJ2 => 66,
            CoordName::WJ3 => 67,
            CoordName::EJ3 => 68,
            CoordName::BINDU => 69,
        }
    }
}

/// The name at position `i` of the order of construction.
pub open spec fn id_at(i: int) -> CoordName {
    if i == 0 {
        CoordName::UM1
    } else if i == 1 {
        CoordName::UT1
    } else if i == 2 {
        CoordName::DT1
    } else if i == 3 {
        CoordName::UL1
    } else if i == 4 {
        CoordName::UR1
    } else if i == 5 {
        CoordName::DM1
    } else if i == 6 {
        CoordName::DL1
    } else if i == 7 {
        CoordName::DR1
    } else if i == 8 {
        CoordName::NWG1
    } else if i == 9 {
        CoordName::NEG1
    } else if i == 10 {
        CoordName::SWG1
    } else if i == 11 {
        CoordName::SEG1
    } else if i == 12 {
        CoordName::WH1
    } else if i == 13 {
        CoordName::EH1
    } else if i == 14 {
        CoordName::DT2
    } else if i == 15 {
        CoordName::SWG3
    } else if i == 16 {
        CoordName::SEG3
    } else if i == 17 {
        CoordName::SWG2
    } else if i == 18 {
        CoordName::SEG2
    } else if i == 19 {
        CoordName::UL4
    } else if i == 20 {
        CoordName::UR4
    } else if i == 21 {
        CoordName::UT2
    } else if i == 22 {
        CoordName::NWG3
    } else if i == 23 {
        CoordName::NEG3
    } else if i == 24 {
        CoordName::UM3
    } else if i == 25 {
        CoordName::NWG2
    } else if i == 26 {
        CoordName::NEG2
    } else if i == 27 {
        CoordName::DL5
    } else if i == 28 {
        CoordName::DR5
    } else if i == 29 {
        CoordName::UL2
    } else if i == 30 {
        CoordName::UR2
    } else if i == 31 {
        CoordName::DL2
    } else if i == 32 {
        CoordName::DR2
    } else if i == 33 {
        CoordName::NWH
    } else if i == 34 {
        CoordName::NEH
    } else if i == 35 {
        CoordName::SWH
    } else if i == 36 {
        CoordName::SEH
    } else if i == 37 {
        CoordName::WI2
    } else if i == 38 {
        CoordName::EI2
    } else if i == 39 {
        CoordName::WI1
    } else if i == 40 {
        CoordName::EI1
    } else if i == 41 {
        CoordName::WI3
    } else if i == 42 {
        CoordName::EI3
    } else if i == 43 {
        CoordName::UT3
    } else if i == 44 {
        CoordName::UL3
    } else if i == 45 {
        CoordName::UR3
    } else if i == 46 {
        CoordName::WG
    } else if i == 47 {
        CoordName::EG
    } else if i == 48 {
        CoordName::SWG4
    } else if i == 49 {
        CoordName::SEG4
    } else if i == 50 {
        CoordName::DT3
    } else if i == 51 {
        CoordName::DL3
    } else if i == 52 {
        CoordName::DR3
    } else if i == 53 {
        CoordName::NWG4
    } else if i == 54 {
        CoordName::NEG4
    } else if i == 55 {
        CoordName::NWF
    } else if i == 56 {
        CoordName::NEF
    } else if i == 57 {
        CoordName::SWF
    } else if i == 58 {
        CoordName::SEF
    } else if i == 59 {
        CoordName::WK
    } else if i == 60 {
        CoordName::EK
    } else if i == 61 {
        CoordName::DL4
    } else if i == 62 {
        CoordName::DR4
    } else if i == 63 {
        CoordName::WJ1
    } else if i == 64 {
        CoordName::EJ1
    } else if i == 65 {
        CoordName::WJ2
    } else if i == 66 {
        CoordName::EJ2
    } else if i == 67 {
        CoordName::WJ3
    } else if i == 68 {
        CoordName::EJ3
    } else {
        CoordName::BINDU
    }
}

/// Every name has its own position.
pub proof fn lemma_ord_inverse(id: CoordName)
    ensures
        id.ord() < ID_COUNT,
        id_at(id.ord() as int) == id,
{
}

/// Every position below `ID_COUNT` holds a name.
pub proof fn lemma_id_at_inverse(i: int)
    requires
        0 <= i < ID_COUNT,
    ensures
        id_at(i).ord() == i,
{
}

/// Two names at the same position are the same name.
pub proof fn lemma_ord_injective(a: CoordName, b: CoordName)
    ensures
        a.ord() == b.ord() ==> a == b,
{
    lemma_ord_inverse(a);
    lemma_ord_inverse(b);
}

} // verus!
