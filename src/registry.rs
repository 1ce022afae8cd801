//! A store of the named points of a diagram.
use crate::geometry::{
    mirror_east_west, mirror_up_down, reflect_east_west, reflect_up_down, Point, YantraError,
    COORD_LIMIT,
};
use crate::names::{id_at, lemma_id_at_inverse, lemma_ord_injective, CoordName, ID_COUNT};
use vstd::prelude::*;

verus! {

/// The points of `m`, in the order of construction of their names, among
/// the first `k` names.
pub open spec fn listed(m: Map<CoordName, Point>, k: nat) -> Seq<Point>
    decreases k,
{
    if k == 0 {
        Seq::empty()
    } else {
        let before = listed(m, (k - 1) as nat);
        let id = id_at(k - 1);
        if m.contains_key(id) {
            before.push(m[id])
        } else {
            before
        }
    }
}

/// Where every name has a point, all of them are listed.
pub proof fn lemma_listed_len(m: Map<CoordName, Point>, k: nat)
    requires
        forall|id: CoordName| #[trigger] m.contains_key(id),
    ensures
        listed(m, k).len() == k,
    decreases k,
{
    if k > 0 {
        lemma_listed_len(m, (k - 1) as nat);
        assert(m.contains_key(id_at(k - 1)));
    }
}

/// A map from point names to points, one slot per name.
#[derive(Clone)]
pub struct Registry {
    slots: Vec<Option<Point>>,
}

impl View for Registry {
    type V = Map<CoordName, Point>;

    closed spec fn view(&self) -> Map<CoordName, Point> {
        Map::new(
            |id: CoordName| self.slots@[id.ord() as int] is Some,
            |id: CoordName| self.slots@[id.ord() as int]->Some_0,
        )
    }
}

impl Registry {
    /// The store has one slot per name.
    pub closed spec fn wf(&self) -> bool {
        self.slots@.len() == ID_COUNT
    }

    /// An empty store.
    pub fn new() -> (r: Registry)
        ensures
            r.wf(),
            r@ == Map::<CoordName, Point>::empty(),
    {
        let mut slots: Vec<Option<Point>> = Vec::new();
        let mut i: usize = 0;
        while i < ID_COUNT
            invariant
                i <= ID_COUNT,
                slots@.len() == i,
                forall|j: int| 0 <= j < i ==> slots@[j] is None,
            decreases ID_COUNT - i,
        {
            slots.push(None);
            i = i + 1;
        }
        let r = Registry { slots };
        assert(r@ =~= Map::<CoordName, Point>::empty());
        r
    }

    /// Stores `point` under `id`.
    pub fn insert(&mut self, id: CoordName, point: Point)
        requires
            old(self).wf(),
        ensures
            final(self).wf(),
            final(self)@ == old(self)@.insert(id, point),
    {
        let ghost before = self@;
        self.slots.set(id.index(), Some(point));
        assert forall|k: CoordName| k != id implies self.slots@[k.ord() as int] == old(
            self,
        ).slots@[k.ord() as int] by {
            lemma_ord_injective(k, id);
        }
        assert(self@ =~= before.insert(id, point));
    }

    /// Stores `left_point` under `left_id` and its mirror image across the
    /// vertical axis through `center` under `right_id`.
    pub fn insert_mirrored_vertical(
        &mut self,
        left_id: CoordName,
        right_id: CoordName,
        left_point: Point,
        center: Point,
    )
        requires
            old(self).wf(),
            center.within(COORD_LIMIT as int),
            left_point.near(center),
        ensures
            final(self).wf(),
            final(self)@ == old(self)@.insert(left_id, left_point).insert(
                right_id,
                mirror_east_west(center, left_point),
            ),
    {
        self.insert(left_id, left_point);
        self.insert(right_id, reflect_east_west(left_point, center));
    }

    /// Stores `up_point` under `up_id` and its mirror image across the
    /// horizontal axis through `center` under `down_id`.
    pub fn insert_mirrored_horizontal(
        &mut self,
        up_id: CoordName,
        down_id: CoordName,
        up_point: Point,
        center: Point,
    )
        requires
            old(self).wf(),
            center.within(COORD_LIMIT as int),
            up_point.near(center),
        ensures
            final(self).wf(),
            final(self)@ == old(self)@.insert(up_id, up_point).insert(
                down_id,
                mirror_up_down(center, up_point),
            ),
    {
        self.insert(up_id, up_point);
        self.insert(down_id, reflect_up_down(up_point, center));
    }

    /// The point stored under `id`, which must have been stored.
    pub fn point(&self, id: CoordName) -> (r: Point)
        requires
            self.wf(),
            self@.contains_key(id),
        ensures
            r == self@[id],
    {
        self.slots[id.index()].unwrap()
    }

    /// The point stored under `id`; `UnknownPoint` if none was stored.
    pub fn get(&self, id: CoordName) -> (r: Result<Point, YantraError>)
        requires
            self.wf(),
        ensures
            match r {
                Ok(p) => self@.contains_key(id) && p == self@[id],
                Err(e) => !self@.contains_key(id) && e == YantraError::UnknownPoint,
            },
    {
        match self.slots[id.index()] {
            Some(p) => Ok(p),
            None => Err(YantraError::UnknownPoint),
        }
    }

    /// Every stored point, in the order of construction of the names.
    pub fn all_points(&self) -> (r: Vec<Point>)
        requires
            self.wf(),
        ensures
            r@ == listed(self@, ID_COUNT as nat),
    {
        let mut out: Vec<Point> = Vec::new();
        let mut i: usize = 0;
        while i < ID_COUNT
            invariant
                self.wf(),
                i <= ID_COUNT,
                out@ == listed(self@, i as nat),
            decreases ID_COUNT - i,
        {
            proof {
                lemma_id_at_inverse(i as int);
            }
            match self.slots[i] {
                Some(p) => out.push(p),
                None => {},
            }
            i = i + 1;
        }
        out
    }
}

} // verus!
