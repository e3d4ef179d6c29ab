//! The compose screen: the player drags the eight dealt parts onto the
//! attribute rows and the build and detail slots; once every slot holds a
//! part, the build is sent to the server, and a second press commits it.
use vstd::prelude::*;

use crate::data::{attribute_slot, AttributeKind};
use crate::card::{deck_sorted, sort_deck, stable_rearrangement, VagabondCard};
use crate::text::{decimal, decimal_string};

verus! {

broadcast use {
    vstd::seq_lib::group_to_multiset_ensures,
    vstd::seq_lib::to_multiset_update,
    vstd::multiset::group_multiset_properties,
};

/// Number of parts a build takes, and of parts dealt.
pub const PART_COUNT: usize = 8;

/// A dealt part: `id` is its position among the dealt parts, by which the
/// screen finds its titles again; `values` are its four attribute values.
#[derive(Clone, Copy, Debug)]
pub struct VagabondPart {
    pub id: usize,
    pub seed: u64,
    pub values: [u8; 4],
}

/// The rows a part can be dropped on.
#[derive(Clone, Copy, PartialEq, Eq, Structural, Debug)]
pub enum StatRowKind {
    Analyze,
    Breach,
    Compute,
    Disrupt,
    Build,
    Detail,
}

/// What a part holder of the compose screen is.
#[derive(Clone, Copy, PartialEq, Eq, Structural, Debug)]
pub enum Slot {
    StatRow(StatRowKind),
    Build,
    Detail,
    /// A dealt card, or the part following the pointer.
    Card,
    /// The place of a dealt card; a part dropped here goes back into the card
    /// holder at the given index.
    Empty(usize),
}

/// The position in the build that a part in `slot` fills, if any.
pub open spec fn slot_part_index_spec(slot: Slot) -> Option<int> {
    match slot {
        Slot::StatRow(StatRowKind::Analyze) => Some(0),
        Slot::StatRow(StatRowKind::Breach) => Some(1),
        Slot::StatRow(StatRowKind::Compute) => Some(2),
        Slot::StatRow(StatRowKind::Disrupt) => Some(3),
        Slot::Build => Some(4),
        Slot::StatRow(StatRowKind::Build) => Some(5),
        Slot::Detail => Some(6),
        Slot::StatRow(StatRowKind::Detail) => Some(7),
        Slot::Card => None,
        Slot::Empty(_) => None,
    }
}

/// The position in the build that a part in `slot` fills, if any.
pub fn slot_part_index(slot: Slot) -> (index: Option<usize>)
    ensures
        match slot_part_index_spec(slot) {
            Some(i) => index == Some(i as usize) && i < PART_COUNT,
            None => index is None,
        },
{
    match slot {
        Slot::StatRow(StatRowKind::Analyze) => Some(0),
        Slot::StatRow(StatRowKind::Breach) => Some(1),
        Slot::StatRow(StatRowKind::Compute) => Some(2),
        Slot::StatRow(StatRowKind::Disrupt) => Some(3),
        Slot::Build => Some(4),
        Slot::StatRow(StatRowKind::Build) => Some(5),
        Slot::Detail => Some(6),
        Slot::StatRow(StatRowKind::Detail) => Some(7),
        Slot::Card => None,
        Slot::Empty(_) => None,
    }
}

/// The attribute row that a part in `slot` sets, if any.
pub open spec fn slot_attribute_row_spec(slot: Slot) -> Option<int> {
    match slot {
        Slot::StatRow(StatRowKind::Analyze) => Some(0),
        Slot::StatRow(StatRowKind::Breach) => Some(1),
        Slot::StatRow(StatRowKind::Compute) => Some(2),
        Slot::StatRow(StatRowKind::Disrupt) => Some(3),
        _ => None,
    }
}

fn slot_attribute_row(slot: Slot) -> (row: Option<usize>)
    ensures
        match slot_attribute_row_spec(slot) {
            Some(i) => row == Some(i as usize) && i < 4,
            None => row is None,
        },
{
    match slot {
        Slot::StatRow(StatRowKind::Analyze) => Some(0),
        Slot::StatRow(StatRowKind::Breach) => Some(1),
        Slot::StatRow(StatRowKind::Compute) => Some(2),
        Slot::StatRow(StatRowKind::Disrupt) => Some(3),
        _ => None,
    }
}

/// Where the original card of a slot is, for an empty card place.
pub open spec fn slot_original(slot: Slot) -> Option<int> {
    match slot {
        Slot::Empty(original) => Some(original as int),
        _ => None,
    }
}

/// The holders after a drop on `target`: the source (if any) takes the
/// target's part, and the target takes the dragged part if there is one.
pub open spec fn swapped(
    holders: Seq<Option<VagabondPart>>,
    source: Option<int>,
    target: int,
    dragged: int,
) -> Seq<Option<VagabondPart>> {
    let h = match source {
        Some(s) => holders.update(s, holders[target]),
        None => holders,
    };
    if h[dragged] is Some {
        h.update(target, h[dragged]).update(dragged, None)
    } else {
        h
    }
}

/// The holders after a part landed on the empty place of card `original`:
/// the part goes back into the card.
pub open spec fn emptied(holders: Seq<Option<VagabondPart>>, target: int, original: Option<int>) -> Seq<
    Option<VagabondPart>,
> {
    match original {
        Some(o) => if 0 <= o < holders.len() && o != target {
            holders.update(o, holders[target]).update(target, None)
        } else {
            holders
        },
        None => holders,
    }
}

/// The parts laid out on the compose screen: one holder per slot, and the
/// holder at `dragged` for the part that follows the pointer.
pub struct ComposeBoard {
    pub holders: Vec<Option<VagabondPart>>,
    pub slots: Vec<Slot>,
    pub dragged: usize,
    /// A part is being dragged.
    pub active: bool,
}

/// The holders after a drag begins on `target`.
pub open spec fn drag_started(holders: Seq<Option<VagabondPart>>, dragged: int, target: int) -> Seq<
    Option<VagabondPart>,
> {
    holders.update(dragged, holders[target]).update(target, None)
}

/// `target` is a holder other than the dragged one.
pub open spec fn other_holder(len: int, dragged: int, target: int) -> bool {
    0 <= target < len && target != dragged
}

/// The holders after a drag ends on `target` (the holder the drag began on).
pub open spec fn drag_ended(holders: Seq<Option<VagabondPart>>, slots: Seq<Slot>, dragged: int, target: int) -> Seq<
    Option<VagabondPart>,
> {
    if other_holder(holders.len() as int, dragged, target) {
        emptied(swapped(holders, None, target, dragged), target, slot_original(slots[target]))
    } else {
        holders
    }
}

/// `source`, `target` and the dragged holder are three different holders.
pub open spec fn drop_holders(len: int, dragged: int, source: int, target: int) -> bool {
    &&& other_holder(len, dragged, source)
    &&& other_holder(len, dragged, target)
    &&& source != target
}

/// The holders after the dragged part, taken from `source`, is dropped on `target`.
pub open spec fn dropped(holders: Seq<Option<VagabondPart>>, slots: Seq<Slot>, dragged: int, source: int, target: int) -> Seq<
    Option<VagabondPart>,
> {
    if drop_holders(holders.len() as int, dragged, source, target) {
        emptied(swapped(holders, Some(source), target, dragged), target, slot_original(slots[target]))
    } else {
        holders
    }
}

impl ComposeBoard {
    /// The board is consistent: one slot per holder, and the dragged holder exists.
    pub open spec fn wf(&self) -> bool {
        &&& self.holders@.len() == self.slots@.len()
        &&& self.dragged < self.holders@.len()
    }

    /// A board with only the holder of the dragged part (a card holder, index 0).
    pub fn new() -> (board: Self)
        ensures
            board.wf(),
            board.holders@ == seq![None::<VagabondPart>],
            board.slots@ == seq![Slot::Card],
            board.dragged == 0,
            !board.active,
    {
        let mut holders: Vec<Option<VagabondPart>> = Vec::new();
        holders.push(None);
        let mut slots: Vec<Slot> = Vec::new();
        slots.push(Slot::Card);
        let board = ComposeBoard { holders, slots, dragged: 0, active: false };
        assert(board.holders@ =~= seq![None::<VagabondPart>]);
        assert(board.slots@ =~= seq![Slot::Card]);
        board
    }

    /// Adds a holder for `slot`, holding `part`, and returns its index.
    pub fn add_holder(&mut self, slot: Slot, part: Option<VagabondPart>) -> (index: usize)
        requires
            old(self).wf(),
            old(self).holders@.len() < usize::MAX,
        ensures
            final(self).wf(),
            index == old(self).holders@.len(),
            final(self).holders@ == old(self).holders@.push(part),
            final(self).slots@ == old(self).slots@.push(slot),
            final(self).dragged == old(self).dragged,
            final(self).active == old(self).active,
    {
        let index = self.holders.len();
        self.holders.push(part);
        self.slots.push(slot);
        index
    }

    fn swap_into(&mut self, source: Option<usize>, target: usize) -> (original: Option<usize>)
        requires
            old(self).wf(),
            other_holder(old(self).holders@.len() as int, old(self).dragged as int, target as int),
            match source {
                Some(s) => drop_holders(
                    old(self).holders@.len() as int,
                    old(self).dragged as int,
                    s as int,
                    target as int,
                ),
                None => true,
            },
        ensures
            final(self).wf(),
            final(self).holders@ == swapped(
                old(self).holders@,
                match source {
                    Some(s) => Some(s as int),
                    None => None,
                },
                target as int,
                old(self).dragged as int,
            ),
            final(self).slots == old(self).slots,
            final(self).dragged == old(self).dragged,
            final(self).active == old(self).active,
            match original {
                Some(o) => slot_original(old(self).slots@[target as int]) == Some(o as int),
                None => slot_original(old(self).slots@[target as int]) is None,
            },
    {
        match source {
            Some(s) => {
                let part = self.holders[target];
                self.holders.set(s, part);
            },
            None => {},
        }
        let drag_part = self.holders[self.dragged];
        if drag_part.is_some() {
            self.holders.set(target, drag_part);
            let d = self.dragged;
            self.holders.set(d, None);
        }
        match self.slots[target] {
            Slot::Empty(original) => Some(original),
            _ => None,
        }
    }

    fn return_to_card(&mut self, target: usize, original: Option<usize>)
        requires
            old(self).wf(),
            target < old(self).holders@.len(),
        ensures
            final(self).wf(),
            final(self).holders@ == emptied(
                old(self).holders@,
                target as int,
                match original {
                    Some(o) => Some(o as int),
                    None => None,
                },
            ),
            final(self).slots == old(self).slots,
            final(self).dragged == old(self).dragged,
            final(self).active == old(self).active,
    {
        match original {
            Some(o) => {
                if o < self.holders.len() && o != target {
                    let part = self.holders[target];
                    self.holders.set(o, part);
                    self.holders.set(target, None);
                }
            },
            None => {},
        }
    }

    /// A drag begins on holder `target`. An empty holder starts no drag; a
    /// full one hands its part to the dragged holder. Nothing happens when
    /// `target` is not another holder.
    pub fn drag_start(&mut self, target: usize)
        requires
            old(self).wf(),
        ensures
            final(self).wf(),
            final(self).slots == old(self).slots,
            final(self).dragged == old(self).dragged,
            other_holder(old(self).holders@.len() as int, old(self).dragged as int, target as int)
                ==> if old(self).holders@[target as int] is None {
                !final(self).active && final(self).holders == old(self).holders
            } else {
                final(self).active && final(self).holders@ == drag_started(
                    old(self).holders@,
                    old(self).dragged as int,
                    target as int,
                )
            },
            !other_holder(old(self).holders@.len() as int, old(self).dragged as int, target as int)
                ==> final(self).holders == old(self).holders && final(self).active == old(self).active,
    {
        if target < self.holders.len() && target != self.dragged {
            let part = self.holders[target];
            if part.is_none() {
                self.active = false;
                return;
            }
            let d = self.dragged;
            self.holders.set(d, part);
            self.holders.set(target, None);
            self.active = true;
        }
    }

    /// The drag that began on holder `target` ends. If the part was not
    /// dropped elsewhere it goes back to `target` (or, for an empty card
    /// place, to its card); the drag is over.
    pub fn drag_end(&mut self, target: usize)
        requires
            old(self).wf(),
        ensures
            final(self).wf(),
            final(self).slots == old(self).slots,
            final(self).dragged == old(self).dragged,
            !old(self).active ==> final(self).holders == old(self).holders && !final(self).active,
            old(self).active ==> !final(self).active && final(self).holders@ == drag_ended(
                old(self).holders@,
                old(self).slots@,
                old(self).dragged as int,
                target as int,
            ),
    {
        if !self.active {
            return;
        }
        if target < self.holders.len() && target != self.dragged {
            let original = self.swap_into(None, target);
            self.return_to_card(target, original);
        }
        self.active = false;
    }

    /// The dragged part, taken from `source`, is dropped on `target`: the
    /// source takes the target's part and the target takes the dragged one;
    /// on an empty card place the part goes back into its card. Returns
    /// whether a drag was active (the build is then re-examined).
    pub fn drop_part(&mut self, source: usize, target: usize) -> (dropped_while_active: bool)
        requires
            old(self).wf(),
        ensures
            final(self).wf(),
            dropped_while_active == old(self).active,
            final(self).slots == old(self).slots,
            final(self).dragged == old(self).dragged,
            final(self).active == old(self).active,
            !old(self).active ==> final(self).holders == old(self).holders,
            old(self).active ==> final(self).holders@ == dropped(
                old(self).holders@,
                old(self).slots@,
                old(self).dragged as int,
                source as int,
                target as int,
            ),
    {
        if !self.active {
            return false;
        }
        let len = self.holders.len();
        if source < len && target < len && source != self.dragged && target != self.dragged
            && source != target {
            let original = self.swap_into(Some(source), target);
            self.return_to_card(target, original);
        }
        true
    }
}

proof fn lemma_swap_multiset(s: Seq<Option<VagabondPart>>, i: int, j: int)
    requires
        0 <= i < s.len(),
        0 <= j < s.len(),
    ensures
        s.update(i, s[j]).update(j, s[i]).to_multiset() == s.to_multiset(),
{
    let s1 = s.update(i, s[j]);
    assert(s1.to_multiset() == s.to_multiset().insert(s[j]).remove(s[i]));
    if i == j {
        assert(s.update(i, s[j]).update(j, s[i]) =~= s);
    } else {
        assert(s1[j] == s[j]);
        assert(s1.update(j, s[i]).to_multiset() == s1.to_multiset().insert(s[i]).remove(s[j]));
        assert(s.to_multiset().insert(s[j]).remove(s[i]).insert(s[i]).remove(s[j]) =~= s.to_multiset());
    }
}

/// Starting a drag only moves a part between holders: the parts on the board
/// stay the same, provided the dragged holder was empty.
pub proof fn law_drag_start_keeps_parts(holders: Seq<Option<VagabondPart>>, dragged: int, target: int)
    requires
        other_holder(holders.len() as int, dragged, target),
        0 <= dragged < holders.len(),
        holders[dragged] is None,
    ensures
        drag_started(holders, dragged, target).to_multiset() == holders.to_multiset(),
{
    lemma_swap_multiset(holders, dragged, target);
    assert(drag_started(holders, dragged, target) =~= holders.update(dragged, holders[target]).update(
        target,
        holders[dragged],
    ));
}

proof fn lemma_emptied_keeps_parts(holders: Seq<Option<VagabondPart>>, target: int, original: Option<int>)
    requires
        0 <= target < holders.len(),
        match original {
            Some(o) => 0 <= o < holders.len() && o != target ==> holders[o] is None,
            None => true,
        },
    ensures
        emptied(holders, target, original).to_multiset() == holders.to_multiset(),
{
    match original {
        Some(o) => {
            if 0 <= o < holders.len() && o != target {
                lemma_swap_multiset(holders, o, target);
                assert(emptied(holders, target, original) =~= holders.update(o, holders[target]).update(
                    target,
                    holders[o],
                ));
            }
        },
        None => {},
    }
}

/// Ending a drag only moves parts between holders: the parts on the board
/// stay the same, provided the holder the drag began on is empty while the
/// dragged holder holds a part, and an empty card place's card is empty.
pub proof fn law_drag_end_keeps_parts(
    holders: Seq<Option<VagabondPart>>,
    slots: Seq<Slot>,
    dragged: int,
    target: int,
)
    requires
        holders.len() == slots.len(),
        0 <= dragged < holders.len(),
        other_holder(holders.len() as int, dragged, target) && holders[dragged] is Some
            ==> holders[target] is None,
        other_holder(holders.len() as int, dragged, target) ==> match slot_original(slots[target]) {
            Some(o) => 0 <= o < holders.len() && o != target ==> swapped(holders, None, target, dragged)[o] is None,
            None => true,
        },
    ensures
        drag_ended(holders, slots, dragged, target).to_multiset() == holders.to_multiset(),
{
    if other_holder(holders.len() as int, dragged, target) {
        let h1 = swapped(holders, None, target, dragged);
        if holders[dragged] is Some {
            lemma_swap_multiset(holders, target, dragged);
            assert(h1 =~= holders.update(target, holders[dragged]).update(dragged, holders[target]));
        }
        lemma_emptied_keeps_parts(h1, target, slot_original(slots[target]));
    }
}

/// A drop only moves parts between holders: the parts on the board stay the
/// same, provided the source is empty (its part is the dragged one), the
/// dragged holder holds that part, and an empty card place's card is empty.
pub proof fn law_drop_keeps_parts(
    holders: Seq<Option<VagabondPart>>,
    slots: Seq<Slot>,
    dragged: int,
    source: int,
    target: int,
)
    requires
        holders.len() == slots.len(),
        0 <= dragged < holders.len(),
        drop_holders(holders.len() as int, dragged, source, target) ==> holders[source] is None
            && holders[dragged] is Some,
        drop_holders(holders.len() as int, dragged, source, target) ==> match slot_original(
            slots[target],
        ) {
            Some(o) => 0 <= o < holders.len() && o != target ==> swapped(
                holders,
                Some(source),
                target,
                dragged,
            )[o] is None,
            None => true,
        },
    ensures
        dropped(holders, slots, dragged, source, target).to_multiset() == holders.to_multiset(),
{
    if drop_holders(holders.len() as int, dragged, source, target) {
        let h0 = holders.update(source, holders[target]);
        lemma_swap_multiset(holders, source, target);
        assert(h0 =~= holders.update(source, holders[target]).update(target, holders[source]).update(
            target,
            holders[target],
        ));
        let hs = holders.update(source, holders[target]).update(target, holders[source]);
        lemma_swap_multiset(hs, target, dragged);
        let h1 = swapped(holders, Some(source), target, dragged);
        assert(h1 =~= hs.update(target, hs[dragged]).update(dragged, hs[target]));
        lemma_emptied_keeps_parts(h1, target, slot_original(slots[target]));
    }
}

/// Progress of the build on the compose screen.
#[derive(Clone, Copy, PartialEq, Eq, Structural, Debug)]
pub enum ComposeState {
    /// Some slot is still empty.
    Build,
    /// Every slot holds a part; the build can be committed.
    Ready,
    /// The player committed the build.
    Committed,
}

/// What re-examining the board asks of the server and the screen.
pub enum FinishOutcome {
    /// Every slot holds a part: send the build (seeds in build order), committed or not.
    Submit { parts: [u64; 8], commit: bool },
    /// Some slot is empty: hide the player's bio and deck.
    Hide,
}

/// The compose screen's state.
pub struct ComposeContext {
    pub state: ComposeState,
    pub deck: Vec<VagabondCard>,
    /// Attribute values of the parts on the four attribute rows, by row.
    pub attributes: [[u8; 4]; 4],
}

/// The seed of the part in a holder; zero for an empty holder.
pub open spec fn seed_of(part: Option<VagabondPart>) -> u64 {
    match part {
        Some(p) => p.seed,
        None => 0,
    }
}

/// The attribute values of the part in a holder; zeros for an empty holder.
pub open spec fn values_of(part: Option<VagabondPart>) -> [u8; 4] {
    match part {
        Some(p) => p.values,
        None => [0u8, 0u8, 0u8, 0u8],
    }
}

/// The build read from the first `k` holders: position `i` holds the seed of
/// the last of them whose slot fills position `i`, or zero.
pub open spec fn build_seeds(holders: Seq<Option<VagabondPart>>, slots: Seq<Slot>, k: int) -> Seq<u64>
    decreases k,
{
    if k <= 0 {
        seq![0u64, 0u64, 0u64, 0u64, 0u64, 0u64, 0u64, 0u64]
    } else {
        let prev = build_seeds(holders, slots, k - 1);
        match slot_part_index_spec(slots[k - 1]) {
            Some(i) => prev.update(i, seed_of(holders[k - 1])),
            None => prev,
        }
    }
}

/// The attribute table after reading the first `k` holders: row `r` holds
/// the values of the last of them on attribute row `r`, else the row of `table`.
pub open spec fn build_attributes(
    holders: Seq<Option<VagabondPart>>,
    slots: Seq<Slot>,
    k: int,
    table: Seq<[u8; 4]>,
) -> Seq<[u8; 4]>
    decreases k,
{
    if k <= 0 {
        table
    } else {
        let prev = build_attributes(holders, slots, k - 1, table);
        match slot_attribute_row_spec(slots[k - 1]) {
            Some(r) => prev.update(r, values_of(holders[k - 1])),
            None => prev,
        }
    }
}

/// No seed of the build is zero (every slot holds a part).
pub open spec fn build_complete(seeds: Seq<u64>) -> bool {
    forall|i: int| 0 <= i < seeds.len() ==> #[trigger] seeds[i] != 0
}

proof fn lemma_build_seeds_len(holders: Seq<Option<VagabondPart>>, slots: Seq<Slot>, k: int)
    ensures
        build_seeds(holders, slots, k).len() == PART_COUNT,
    decreases k,
{
    if k > 0 {
        lemma_build_seeds_len(holders, slots, k - 1);
    }
}

proof fn lemma_build_attributes_len(
    holders: Seq<Option<VagabondPart>>,
    slots: Seq<Slot>,
    k: int,
    table: Seq<[u8; 4]>,
)
    requires
        table.len() == 4,
    ensures
        build_attributes(holders, slots, k, table).len() == table.len(),
    decreases k,
{
    if k > 0 {
        lemma_build_attributes_len(holders, slots, k - 1, table);
    }
}

/// The stat row on which a part sets the attribute `kind`.
pub open spec fn stat_row_of(kind: AttributeKind) -> StatRowKind {
    match kind {
        AttributeKind::Analyze => StatRowKind::Analyze,
        AttributeKind::Breach => StatRowKind::Breach,
        AttributeKind::Compute => StatRowKind::Compute,
        AttributeKind::Disrupt => StatRowKind::Disrupt,
    }
}

/// No holder among the first `k` from `start` on sits on the stat row of `kind`.
pub open spec fn row_free_from(slots: Seq<Slot>, start: int, k: int, kind: AttributeKind) -> bool {
    forall|j: int| start <= j < k ==> #[trigger] slots[j] != Slot::StatRow(stat_row_of(kind))
}

proof fn lemma_row_of_slot(slot: Slot, kind: AttributeKind)
    ensures
        slot_attribute_row_spec(slot) == Some(attribute_slot(kind)) <==> slot == Slot::StatRow(
            stat_row_of(kind),
        ),
{
}

proof fn lemma_attribute_rows_prefix(
    holders: Seq<Option<VagabondPart>>,
    slots: Seq<Slot>,
    table: Seq<[u8; 4]>,
    kind: AttributeKind,
    k: int,
)
    requires
        table.len() == 4,
        0 <= k <= holders.len(),
        slots.len() == holders.len(),
    ensures
        row_free_from(slots, 0, k, kind) ==> build_attributes(holders, slots, k, table)[attribute_slot(kind)]
            == table[attribute_slot(kind)],
        forall|i: int|
            0 <= i < k && slots[i] == Slot::StatRow(stat_row_of(kind)) && row_free_from(slots, i + 1, k, kind)
                ==> build_attributes(holders, slots, k, table)[attribute_slot(kind)] == values_of(
                #[trigger] holders[i],
            ),
    decreases k,
{
    if k > 0 {
        lemma_attribute_rows_prefix(holders, slots, table, kind, k - 1);
        lemma_build_attributes_len(holders, slots, k - 1, table);
        lemma_row_of_slot(slots[k - 1], kind);
        let r = attribute_slot(kind);
        let prev = build_attributes(holders, slots, k - 1, table);
        if row_free_from(slots, 0, k, kind) {
            assert(row_free_from(slots, 0, k - 1, kind));
            assert(slots[k - 1] != Slot::StatRow(stat_row_of(kind)));
        }
        assert forall|i: int|
            0 <= i < k && slots[i] == Slot::StatRow(stat_row_of(kind)) && row_free_from(slots, i + 1, k, kind)
                implies build_attributes(holders, slots, k, table)[r] == values_of(#[trigger] holders[i]) by {
            if i < k - 1 {
                assert(slots[k - 1] != Slot::StatRow(stat_row_of(kind)));
                assert(row_free_from(slots, i + 1, k - 1, kind));
            }
        }
    }
}

/// Reading the board sets each attribute row from the stat row of its kind:
/// row `attribute_slot(kind)` takes the values of the part on the last holder
/// whose slot is that stat row (zeros where that holder is empty), and keeps
/// its old values where no holder sits on that stat row.
pub proof fn law_attribute_rows(
    holders: Seq<Option<VagabondPart>>,
    slots: Seq<Slot>,
    table: Seq<[u8; 4]>,
    kind: AttributeKind,
)
    requires
        table.len() == 4,
        slots.len() == holders.len(),
    ensures
        build_attributes(holders, slots, holders.len() as int, table).len() == 4,
        row_free_from(slots, 0, holders.len() as int, kind) ==> build_attributes(
            holders,
            slots,
            holders.len() as int,
            table,
        )[attribute_slot(kind)] == table[attribute_slot(kind)],
        forall|i: int|
            0 <= i < holders.len() && slots[i] == Slot::StatRow(stat_row_of(kind)) && row_free_from(
                slots,
                i + 1,
                holders.len() as int,
                kind,
            ) ==> build_attributes(holders, slots, holders.len() as int, table)[attribute_slot(kind)]
                == values_of(#[trigger] holders[i]),
{
    lemma_build_attributes_len(holders, slots, holders.len() as int, table);
    lemma_attribute_rows_prefix(holders, slots, table, kind, holders.len() as int);
}

impl ComposeContext {
    /// The state on entering the compose screen.
    pub fn new() -> (context: Self)
        ensures
            context.state == ComposeState::Build,
            context.deck@.len() == 0,
            forall|r: int, c: int| 0 <= r < 4 && 0 <= c < 4 ==> context.attributes[r][c] == 0,
    {
        ComposeContext { state: ComposeState::Build, deck: Vec::new(), attributes: [[0u8; 4]; 4] }
    }

    /// Keeps the deck the server built, in deck order.
    pub fn set_deck(&mut self, deck: Vec<VagabondCard>)
        ensures
            deck_sorted(final(self).deck@),
            final(self).deck@.to_multiset() == deck@.to_multiset(),
            exists|perm: Seq<int>| stable_rearrangement(deck@, final(self).deck@, perm),
            final(self).state == old(self).state,
            final(self).attributes == old(self).attributes,
    {
        self.deck = sort_deck(deck);
    }

    /// The commit button is pressed: a ready build becomes committed (and is
    /// sent again, committed). Returns whether it was.
    pub fn click_commit(&mut self) -> (committed: bool)
        ensures
            committed == (old(self).state == ComposeState::Ready),
            final(self).state == if committed {
                ComposeState::Committed
            } else {
                old(self).state
            },
            final(self).deck == old(self).deck,
            final(self).attributes == old(self).attributes,
    {
        if self.state != ComposeState::Ready {
            return false;
        }
        self.state = ComposeState::Committed;
        true
    }

    /// Re-examines the board after a drop or a commit: reads the build and the
    /// attribute rows off the board, then either submits the build (a build
    /// still being composed becomes ready) or, with a slot empty, goes back to
    /// composing and hides the player.
    pub fn finish_player(&mut self, board: &ComposeBoard) -> (outcome: FinishOutcome)
        requires
            board.wf(),
        ensures
            ({
                let seeds = build_seeds(board.holders@, board.slots@, board.holders@.len() as int);
                &&& final(self).attributes@.map_values(|row: [u8; 4]| row@) == build_attributes(
                    board.holders@,
                    board.slots@,
                    board.holders@.len() as int,
                    old(self).attributes@,
                ).map_values(|row: [u8; 4]| row@)
                &&& final(self).deck == old(self).deck
                &&& forall|kind: AttributeKind|
                    #[trigger] row_free_from(board.slots@, 0, board.holders@.len() as int, kind)
                        ==> final(self).attributes@[attribute_slot(kind)]@ == old(
                        self,
                    ).attributes@[attribute_slot(kind)]@
                &&& forall|kind: AttributeKind, i: int|
                    #![trigger row_free_from(board.slots@, i + 1, board.holders@.len() as int, kind)]
                    0 <= i < board.holders@.len() && board.slots@[i] == Slot::StatRow(stat_row_of(kind))
                        && row_free_from(board.slots@, i + 1, board.holders@.len() as int, kind)
                        ==> final(self).attributes@[attribute_slot(kind)]@ == values_of(
                        board.holders@[i],
                    )@
                &&& if build_complete(seeds) {
                    &&& final(self).state == if old(self).state == ComposeState::Build {
                        ComposeState::Ready
                    } else {
                        old(self).state
                    }
                    &&& match outcome {
                        FinishOutcome::Submit { parts, commit } => parts@ == seeds && commit == (
                        old(self).state == ComposeState::Committed),
                        FinishOutcome::Hide => false,
                    }
                } else {
                    final(self).state == ComposeState::Build && outcome is Hide
                }
            }),
    {
        let mut parts: [u64; 8] = [0u64; 8];
        let n = board.holders.len();
        let mut k: usize = 0;
        proof {
            assert(parts@ =~= build_seeds(board.holders@, board.slots@, 0));
        }
        while k < n
            invariant
                board.wf(),
                n == board.holders@.len(),
                k <= n,
                parts@ == build_seeds(board.holders@, board.slots@, k as int),
                self.attributes@ == build_attributes(
                    board.holders@,
                    board.slots@,
                    k as int,
                    old(self).attributes@,
                ),
                self.deck == old(self).deck,
                self.state == old(self).state,
            decreases n - k,
        {
            let holder = board.holders[k];
            let slot = board.slots[k];
            match slot_part_index(slot) {
                Some(i) => {
                    let seed = match holder {
                        Some(p) => p.seed,
                        None => 0,
                    };
                    parts[i] = seed;
                },
                None => {},
            }
            match slot_attribute_row(slot) {
                Some(r) => {
                    let values = match holder {
                        Some(p) => p.values,
                        None => [0u8, 0u8, 0u8, 0u8],
                    };
                    self.attributes[r] = values;
                },
                None => {},
            }
            proof {
                lemma_build_seeds_len(board.holders@, board.slots@, k as int);
                lemma_build_attributes_len(board.holders@, board.slots@, k as int, old(self).attributes@);
                assert(parts@ =~= build_seeds(board.holders@, board.slots@, k + 1));
                assert(self.attributes@ =~= build_attributes(
                    board.holders@,
                    board.slots@,
                    k + 1,
                    old(self).attributes@,
                ));
            }
            k = k + 1;
        }
        proof {
            assert forall|kind: AttributeKind|
                #[trigger] row_free_from(board.slots@, 0, n as int, kind) implies self.attributes@[attribute_slot(
                kind,
            )]@ == old(self).attributes@[attribute_slot(kind)]@ by {
                law_attribute_rows(board.holders@, board.slots@, old(self).attributes@, kind);
            }
            assert forall|kind: AttributeKind, i: int|
                #![trigger row_free_from(board.slots@, i + 1, n as int, kind)]
                0 <= i < n && board.slots@[i] == Slot::StatRow(stat_row_of(kind)) && row_free_from(
                    board.slots@,
                    i + 1,
                    n as int,
                    kind,
                ) implies self.attributes@[attribute_slot(kind)]@ == values_of(board.holders@[i])@ by {
                law_attribute_rows(board.holders@, board.slots@, old(self).attributes@, kind);
                assert(self.attributes@[attribute_slot(kind)] == values_of(board.holders@[i]));
            }
        }
        let mut complete = true;
        let mut i: usize = 0;
        while i < PART_COUNT
            invariant
                i <= PART_COUNT,
                parts@.len() == PART_COUNT,
                complete == forall|j: int| 0 <= j < i ==> #[trigger] parts@[j] != 0,
            decreases PART_COUNT - i,
        {
            if parts[i] == 0 {
                complete = false;
            }
            i = i + 1;
        }
        if complete {
            if self.state == ComposeState::Build {
                self.state = ComposeState::Ready;
            }
            let commit = self.state == ComposeState::Committed;
            FinishOutcome::Submit { parts, commit }
        } else {
            self.state = ComposeState::Build;
            FinishOutcome::Hide
        }
    }
}

/// How a holder glows while a part is dragged.
#[derive(Clone, Copy, PartialEq, Eq, Structural, Debug)]
pub enum DropGlow {
    /// The empty place of a dealt card.
    EmptyPlace,
    /// A slot that holds no part.
    Free,
    /// A slot that already holds a part.
    Taken,
}

/// How the holder of `slot`, holding `part`, glows while a part is dragged;
/// card holders do not glow.
pub fn drop_glow(slot: Slot, part: Option<VagabondPart>) -> (glow: Option<DropGlow>)
    ensures
        glow == match slot {
            Slot::Card => None,
            Slot::Empty(_) => Some(DropGlow::EmptyPlace),
            _ => if part is None {
                Some(DropGlow::Free)
            } else {
                Some(DropGlow::Taken)
            },
        },
{
    match slot {
        Slot::Card => None,
        Slot::Empty(_) => Some(DropGlow::EmptyPlace),
        _ => match part {
            None => Some(DropGlow::Free),
            Some(_) => Some(DropGlow::Taken),
        },
    }
}

/// Whether the holder of `slot` shows: a card holder shows only while it
/// holds a part; other holders are not hidden (`None`).
pub fn holder_visible(slot: Slot, part: Option<VagabondPart>) -> (visible: Option<bool>)
    ensures
        visible == match slot {
            Slot::Card => Some(part is Some),
            _ => None,
        },
{
    match slot {
        Slot::Card => Some(part.is_some()),
        _ => None,
    }
}

/// The text shown for attribute value `index` of the part in a holder: the
/// value in decimal, or `-` for an empty holder.
pub fn part_value_text(part: Option<VagabondPart>, index: usize) -> (text: String)
    requires
        index < 4,
    ensures
        text@ == match part {
            Some(p) => decimal(p.values[index as int] as nat),
            None => "-"@,
        },
{
    match part {
        Some(p) => decimal_string(p.values[index] as u64),
        None => String::from_str("-"),
    }
}

} // verus!
