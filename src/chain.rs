//! The chain weapon: a fixed set of link slots that, when fired, fill the run
//! of cells from the player toward the cursor along a row or a column.

use vstd::prelude::*;

use crate::tile::TilePos;

verus! {

/// Number of link slots a chain owns: the farthest it can reach.
pub const CHAIN_CAPACITY: usize = 5;

/// How a visible link is drawn: `Horizontal` is the unrotated link sprite,
/// `Vertical` the sprite turned by a quarter turn.
#[derive(Clone, Copy, Debug, PartialEq, Eq, Structural, Hash)]
pub enum LinkOrientation {
    Horizontal,
    Vertical,
}

/// The grid cell a link slot occupies.
#[derive(Clone, Copy, Debug, PartialEq, Eq, Structural, Hash)]
pub struct ChainPos(pub TilePos);

impl Default for ChainPos {
    /// Off the grid, where an unused link waits.
    fn default() -> (r: ChainPos)
        ensures
            r.0 == TilePos::spec_off_grid(),
    {
        ChainPos(TilePos::off_grid())
    }
}

/// One link of the chain. A hidden slot keeps the cell and orientation it last
/// had; they mean nothing until the slot is shown again.
#[derive(Clone, Copy, Debug, PartialEq, Eq, Structural)]
pub struct ChainSlot {
    pub pos: ChainPos,
    pub visible: bool,
    pub orientation: LinkOrientation,
}

/// The chain's link slots, slot 0 nearest the player.
pub struct Chain {
    slots: Vec<ChainSlot>,
}

/// `|a - b|`.
pub open spec fn dist(a: int, b: int) -> nat {
    if a >= b {
        (a - b) as nat
    } else {
        (b - a) as nat
    }
}

/// The coordinate `m` steps from `a` toward `b` (or `a` itself when `a == b`).
pub open spec fn toward(a: int, b: int, m: int) -> int {
    if b > a {
        a + m
    } else if b < a {
        a - m
    } else {
        a
    }
}

/// The cursor lies on the player's row or column, and not on the player.
pub open spec fn has_target(player: TilePos, cursor: TilePos) -> bool {
    (player.x == cursor.x) != (player.y == cursor.y)
}

/// Number of cells from the player to the cursor along the active axis.
pub open spec fn reach(player: TilePos, cursor: TilePos) -> nat {
    dist(player.x as int, cursor.x as int) + dist(player.y as int, cursor.y as int)
}

/// The `i`-th cell (from 0) of the run from the player outward to the cursor,
/// the player's own cell excluded.
pub open spec fn link_cell(player: TilePos, cursor: TilePos, i: int) -> TilePos {
    TilePos {
        x: toward(player.x as int, cursor.x as int, i + 1) as i64,
        y: toward(player.y as int, cursor.y as int, i + 1) as i64,
    }
}

/// Orientation of the links of a chain fired from `player` to `cursor`:
/// horizontal along a row (same `y`), vertical along a column.
pub open spec fn link_orientation(player: TilePos, cursor: TilePos) -> LinkOrientation {
    if player.y == cursor.y {
        LinkOrientation::Horizontal
    } else {
        LinkOrientation::Vertical
    }
}

/// How many slots a fire from `player` to `cursor` shows: the run's length,
/// cut at the number of slots.
pub open spec fn shown(n: nat, player: TilePos, cursor: TilePos) -> nat {
    if reach(player, cursor) < n {
        reach(player, cursor)
    } else {
        n
    }
}

/// The slots after a fire from `player` to `cursor`: the first ones hold the
/// run's cells in order, visible; the rest are hidden where they were.
pub open spec fn fired_slots(slots: Seq<ChainSlot>, player: TilePos, cursor: TilePos) -> Seq<
    ChainSlot,
> {
    Seq::new(
        slots.len(),
        |i: int|
            if i < shown(slots.len(), player, cursor) {
                ChainSlot {
                    pos: ChainPos(link_cell(player, cursor, i)),
                    visible: true,
                    orientation: link_orientation(player, cursor),
                }
            } else {
                ChainSlot { visible: false, ..slots[i] }
            },
    )
}

/// Number of visible slots in `slots`.
pub open spec fn count_visible(slots: Seq<ChainSlot>) -> nat
    decreases slots.len(),
{
    if slots.len() == 0 {
        0
    } else {
        count_visible(slots.drop_last()) + if slots.last().visible {
            1nat
        } else {
            0nat
        }
    }
}

impl View for Chain {
    type V = Seq<ChainSlot>;

    closed spec fn view(&self) -> Seq<ChainSlot> {
        self.slots@
    }
}

impl Chain {
    /// A chain of `CHAIN_CAPACITY` hidden, horizontal slots, off the grid.
    pub fn new() -> (r: Chain)
        ensures
            r@.len() == CHAIN_CAPACITY,
            forall|i: int|
                0 <= i < r@.len() ==> (#[trigger] r@[i]) == (ChainSlot {
                    pos: ChainPos(TilePos::spec_off_grid()),
                    visible: false,
                    orientation: LinkOrientation::Horizontal,
                }),
    {
        let mut slots: Vec<ChainSlot> = Vec::new();
        let mut i: usize = 0;
        while i < CHAIN_CAPACITY
            invariant
                i <= CHAIN_CAPACITY,
                slots@.len() == i,
                forall|j: int|
                    0 <= j < i ==> (#[trigger] slots@[j]) == (ChainSlot {
                        pos: ChainPos(TilePos::spec_off_grid()),
                        visible: false,
                        orientation: LinkOrientation::Horizontal,
                    }),
            decreases CHAIN_CAPACITY - i,
        {
            slots.push(
                ChainSlot {
                    pos: ChainPos::default(),
                    visible: false,
                    orientation: LinkOrientation::Horizontal,
                },
            );
            i = i + 1;
        }
        Chain { slots }
    }

    /// The slots, slot 0 nearest the player.
    pub fn slots(&self) -> (r: &[ChainSlot])
        ensures
            r@ == self@,
    {
        self.slots.as_slice()
    }

    /// Number of visible slots.
    pub fn visible_count(&self) -> (r: usize)
        ensures
            r == count_visible(self@),
    {
        let mut n: usize = 0;
        let mut i: usize = 0;
        while i < self.slots.len()
            invariant
                i <= self@.len(),
                n == count_visible(self@.subrange(0, i as int)),
                n <= i,
            decreases self@.len() - i,
        {
            proof {
                let s = self@.subrange(0, i as int + 1);
                assert(s.drop_last() =~= self@.subrange(0, i as int));
            }
            if self.slots[i].visible {
                n = n + 1;
            }
            i = i + 1;
        }
        proof {
            assert(self@.subrange(0, self@.len() as int) =~= self@);
        }
        n
    }

    /// Fires the chain from `player` toward `cursor`. When the two share
    /// exactly one coordinate, the slots are laid out afresh along the run of
    /// cells from the player (excluded) to the cursor (included), as far as the
    /// slots reach, and `true` is returned. Otherwise nothing changes and the
    /// result is `false`.
    pub fn fire(&mut self, player: TilePos, cursor: TilePos) -> (hit: bool)
        ensures
            hit == has_target(player, cursor),
            hit ==> final(self)@ == fired_slots(old(self)@, player, cursor),
            !hit ==> final(self)@ == old(self)@,
    {
        let same_x = player.x == cursor.x;
        let same_y = player.y == cursor.y;
        if same_x == same_y {
            return false;
        }
        let orientation = if same_y {
            LinkOrientation::Horizontal
        } else {
            LinkOrientation::Vertical
        };
        let ghost old_slots = self@;
        let ghost n = shown(old_slots.len(), player, cursor);
        let mut cur = player;
        let mut i: usize = 0;
        while i < self.slots.len()
            invariant
                self@.len() == old_slots.len(),
                i <= old_slots.len(),
                has_target(player, cursor),
                orientation == link_orientation(player, cursor),
                n == shown(old_slots.len(), player, cursor),
                cur.x == toward(player.x as int, cursor.x as int, if i < n { i as int } else { n as int }),
                cur.y == toward(player.y as int, cursor.y as int, if i < n { i as int } else { n as int }),
                forall|j: int| 0 <= j < i ==> self@[j] == fired_slots(old_slots, player, cursor)[j],
                forall|j: int| i <= j < old_slots.len() ==> self@[j] == old_slots[j],
            decreases old_slots.len() - i,
        {
            if cur.x == cursor.x && cur.y == cursor.y {
                let mut slot = self.slots[i];
                slot.visible = false;
                self.slots.set(i, slot);
            } else {
                let x: i64 = if cursor.x > cur.x {
                    cur.x + 1
                } else if cursor.x < cur.x {
                    cur.x - 1
                } else {
                    cur.x
                };
                let y: i64 = if cursor.y > cur.y {
                    cur.y + 1
                } else if cursor.y < cur.y {
                    cur.y - 1
                } else {
                    cur.y
                };
                cur = TilePos { x, y };
                self.slots.set(i, ChainSlot { pos: ChainPos(cur), visible: true, orientation });
            }
            i = i + 1;
        }
        proof {
            assert(self@ =~= fired_slots(old_slots, player, cursor));
        }
        true
    }
}

/// In a sequence whose first `k` slots are visible and whose others are hidden,
/// exactly `k` slots are visible.
proof fn lemma_count_visible_prefix(slots: Seq<ChainSlot>, k: nat)
    requires
        k <= slots.len(),
        forall|i: int| 0 <= i < slots.len() ==> (#[trigger] slots[i]).visible == (i < k),
    ensures
        count_visible(slots) == k,
    decreases slots.len(),
{
    if slots.len() > 0 {
        let rest = slots.drop_last();
        if slots.len() > k {
            lemma_count_visible_prefix(rest, k);
        } else {
            lemma_count_visible_prefix(rest, (k - 1) as nat);
        }
    }
}

/// After a fire that hits, the number of visible slots is the length of the
/// run from the player to the cursor, capped by the number of slots.
pub proof fn lemma_fire_visible_count(slots: Seq<ChainSlot>, player: TilePos, cursor: TilePos)
    requires
        has_target(player, cursor),
    ensures
        count_visible(fired_slots(slots, player, cursor)) == shown(slots.len(), player, cursor),
        count_visible(fired_slots(slots, player, cursor)) <= slots.len(),
        count_visible(fired_slots(slots, player, cursor)) <= reach(player, cursor),
{
    lemma_count_visible_prefix(fired_slots(slots, player, cursor), shown(slots.len(), player, cursor));
}

/// After a fire that hits, each visible slot `i` sits on the player's row or
/// column, `i + 1` cells out from the player, between the player (excluded)
/// and the cursor (included); so the slots run outward from the player in
/// order, with no cell twice.
pub proof fn lemma_fire_cells_between(
    slots: Seq<ChainSlot>,
    player: TilePos,
    cursor: TilePos,
    i: int,
    j: int,
)
    requires
        has_target(player, cursor),
        0 <= i < j < shown(slots.len(), player, cursor),
    ensures
        ({
            let a = fired_slots(slots, player, cursor)[i].pos.0;
            let b = fired_slots(slots, player, cursor)[j].pos.0;
            &&& player.x == cursor.x ==> a.x == player.x
            &&& player.y == cursor.y ==> a.y == player.y
            &&& reach(player, a) == i + 1
            &&& 0 < reach(player, a) <= reach(player, cursor)
            &&& reach(player, a) + reach(a, cursor) == reach(player, cursor)
            &&& reach(player, a) < reach(player, b)
        }),
{
}

} // verus!
