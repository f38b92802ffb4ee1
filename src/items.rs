use crate::geometry::Position;
use vstd::prelude::*;

verus! {

/// Number of item kinds.
pub const ITEM_KINDS: usize = 1;

/// Greatest distance, in milli-pixels, at which an item can be picked up.
pub const INTERACTION_DISTANCE: i64 = 30_000;

/// A kind of item.
#[derive(Clone, Copy, Debug, PartialEq, Eq, Structural)]
pub enum Item {
    Banana,
}

impl Item {
    pub open spec fn index_spec(self) -> int {
        match self {
            Item::Banana => 0,
        }
    }

    /// What one item of this kind adds to the attack speed, in thousandths.
    pub open spec fn stat_spec(self) -> int {
        match self {
            Item::Banana => 500,
        }
    }

    /// The slot of this kind in an equipment.
    pub fn index(&self) -> (r: usize)
        ensures
            r == self.index_spec(),
            r < ITEM_KINDS,
    {
        match self {
            Item::Banana => 0,
        }
    }

    /// The asset path of the item's image.
    pub fn image(&self) -> (r: String)
        ensures
            r@ == match *self {
                Item::Banana => "banana.png"@,
            },
    {
        match self {
            Item::Banana => "banana.png".to_owned(),
        }
    }

    /// What one item of this kind adds to the attack speed, in thousandths.
    pub fn stat(&self) -> (r: u64)
        ensures
            r == self.stat_spec(),
    {
        match self {
            Item::Banana => 500,
        }
    }
}

/// An item lying in the world.
#[derive(Clone, Copy, Debug, PartialEq, Eq, Structural)]
pub struct WorldItem {
    pub item: Item,
    pub position: Position,
}

/// How many items of each kind the player has picked up.
#[derive(Debug)]
pub struct Equipment {
    pub counts: Vec<u32>,
}

impl Equipment {
    pub open spec fn wf(&self) -> bool {
        self.counts@.len() == ITEM_KINDS
    }

    pub open spec fn count_spec(&self, item: Item) -> int {
        self.counts@[item.index_spec()] as int
    }

    /// The attack-speed bonus of the whole equipment, in thousandths: the sum
    /// over kinds of the kind's stat times its count.
    pub open spec fn bonus_spec(&self) -> int {
        self.count_spec(Item::Banana) * Item::Banana.stat_spec()
    }

    /// Nothing picked up.
    pub fn new() -> (r: Equipment)
        ensures
            r.wf(),
            forall|item: Item| r.count_spec(item) == 0,
    {
        let r = Equipment { counts: vec![0u32; ITEM_KINDS] };
        assert forall|item: Item| r.count_spec(item) == 0 by {
            assert(r.counts@[item.index_spec()] == 0);
        }
        r
    }

    /// How many items of this kind were picked up; zero for a kind never seen.
    pub fn count(&self, item: &Item) -> (r: u32)
        requires
            self.wf(),
        ensures
            r == self.count_spec(*item),
    {
        self.counts[item.index()]
    }

    /// Adds one item.
    pub fn pickup(&mut self, item: Item)
        requires
            old(self).wf(),
            old(self).count_spec(item) < u32::MAX,
        ensures
            final(self).wf(),
            final(self).count_spec(item) == old(self).count_spec(item) + 1,
            forall|other: Item| other != item ==> final(self).count_spec(other) == old(
                self,
            ).count_spec(other),
    {
        let i = item.index();
        let c = self.counts[i];
        self.counts.set(i, c + 1);
    }

    /// The stat contribution of one kind: its count times its stat.
    pub fn item_stat(&self, item: &Item) -> (r: u64)
        requires
            self.wf(),
        ensures
            r == self.count_spec(*item) * item.stat_spec(),
    {
        self.count(item) as u64 * item.stat()
    }
}

pub open spec fn distance_sq(a: Position, b: Position) -> int {
    (a.x - b.x) * (a.x - b.x) + (a.y - b.y) * (a.y - b.y)
}

pub open spec fn in_reach(player: Position, item: WorldItem) -> bool {
    distance_sq(player, item.position) < INTERACTION_DISTANCE * INTERACTION_DISTANCE
}

/// `i` is the first of the items in reach that lie nearest to the player.
pub open spec fn is_nearest_in_reach(player: Position, items: Seq<WorldItem>, i: int) -> bool {
    &&& 0 <= i < items.len()
    &&& in_reach(player, items[i])
    &&& forall|j: int|
        0 <= j < items.len() && in_reach(player, items[j]) ==> distance_sq(
            player,
            items[i].position,
        ) <= distance_sq(player, items[j].position)
    &&& forall|j: int|
        0 <= j < i && in_reach(player, items[j]) ==> distance_sq(player, items[i].position)
            < distance_sq(player, items[j].position)
}

fn distance_sq_exec(a: Position, b: Position) -> (r: u128)
    ensures
        r == distance_sq(a, b),
{
    let dx: i128 = a.x as i128 - b.x as i128;
    let dy: i128 = a.y as i128 - b.y as i128;
    assert(0 <= dx * dx <= 0x1_0000_0000_0000_0000 && 0 <= dy * dy <= 0x1_0000_0000_0000_0000)
        by (nonlinear_arith)
        requires
            -0x1_0000_0000 <= dx <= 0x1_0000_0000,
            -0x1_0000_0000 <= dy <= 0x1_0000_0000,
    ;
    (dx * dx + dy * dy) as u128
}

/// The item to pick up: the first of the nearest items in reach, if any is.
pub fn nearest_in_reach(player: Position, items: &Vec<WorldItem>) -> (r: Option<usize>)
    ensures
        r is None <==> forall|j: int| 0 <= j < items@.len() ==> !in_reach(player, items@[j]),
        r matches Some(i) ==> is_nearest_in_reach(player, items@, i as int),
{
    let mut best: Option<usize> = None;
    let mut best_d: u128 = 0;
    let mut k: usize = 0;
    while k < items.len()
        invariant
            k <= items@.len(),
            best is None <==> forall|j: int| 0 <= j < k ==> !in_reach(player, items@[j]),
            best matches Some(i) ==> {
                &&& i < k
                &&& best_d == distance_sq(player, items@[i as int].position)
                &&& in_reach(player, items@[i as int])
                &&& forall|j: int|
                    0 <= j < k && in_reach(player, items@[j]) ==> best_d <= distance_sq(
                        player,
                        items@[j].position,
                    )
                &&& forall|j: int|
                    0 <= j < i && in_reach(player, items@[j]) ==> best_d < distance_sq(
                        player,
                        items@[j].position,
                    )
            },
        decreases items@.len() - k,
    {
        let d = distance_sq_exec(player, items[k].position);
        if d < (INTERACTION_DISTANCE * INTERACTION_DISTANCE) as u128 {
            match best {
                None => {
                    best = Some(k);
                    best_d = d;
                },
                Some(_) => {
                    if d < best_d {
                        best = Some(k);
                        best_d = d;
                    }
                },
            }
        }
        k = k + 1;
    }
    best
}

/// Picks up the nearest item in reach, if there is one: it leaves the world
/// and is added to the equipment. Tells whether an item was picked up.
pub fn pickup(player: Position, items: &mut Vec<WorldItem>, equipment: &mut Equipment) -> (r:
    bool)
    requires
        old(equipment).wf(),
        forall|item: Item| old(equipment).count_spec(item) < u32::MAX,
    ensures
        final(equipment).wf(),
        r <==> exists|j: int| 0 <= j < old(items)@.len() && in_reach(player, old(items)@[j]),
        !r ==> final(items)@ == old(items)@ && *final(equipment) == *old(equipment),
        r ==> exists|i: int|
            {
                &&& is_nearest_in_reach(player, old(items)@, i)
                &&& final(items)@ == old(items)@.remove(i)
                &&& final(equipment).count_spec(old(items)@[i].item) == old(equipment).count_spec(
                    old(items)@[i].item,
                ) + 1
                &&& forall|other: Item|
                    other != old(items)@[i].item ==> final(equipment).count_spec(other) == old(
                        equipment,
                    ).count_spec(other)
            },
{
    match nearest_in_reach(player, items) {
        None => false,
        Some(i) => {
            let picked = items.remove(i);
            equipment.pickup(picked.item);
            assert(is_nearest_in_reach(player, old(items)@, i as int));
            true
        },
    }
}

} // verus!
