use std::collections::VecDeque;
use vstd::prelude::*;

use crate::items::{ItemDef, ItemType, ItemVisual, Position, VisualAssets, ITEM_VISUAL_SIZE};

verus! {

/// Room left between two neighbouring slots of an inventory, in world units.
pub const SLOT_GAP: u32 = 10;

/// Most slots that a column layout can have.
pub const MAX_SLOTS: usize = 1_000_000;

/// An ordered collection of item entities, named by their identifiers.
/// Each item's logic lives on its own entity; its visual is created by
/// `item_create_visual`.
pub struct Inventory {
    pub items: VecDeque<u64>,
}

impl View for Inventory {
    type V = Seq<u64>;

    open spec fn view(&self) -> Seq<u64> {
        self.items@
    }
}

/// The first index at which `item` stands in `s`, if any.
pub open spec fn first_index_of(s: Seq<u64>, item: u64) -> Option<int> {
    if s.contains(item) {
        Some(choose|i: int| 0 <= i < s.len() && s[i] == item && forall|j: int| 0 <= j < i ==> s[j] != item)
    } else {
        None
    }
}

/// The index that `first_index_of` gives is where `item` first stands.
pub proof fn lemma_first_index_of(s: Seq<u64>, item: u64)
    ensures
        first_index_of(s, item) matches Some(i) ==> {
            &&& 0 <= i < s.len()
            &&& s[i] == item
            &&& forall|j: int| 0 <= j < i ==> s[j] != item
        },
        first_index_of(s, item) is None <==> !s.contains(item),
{
    if s.contains(item) {
        let w = choose|w: int| 0 <= w < s.len() && s[w] == item;
        lemma_first_occurrence_exists(s, item, w);
    }
}

proof fn lemma_first_occurrence_exists(s: Seq<u64>, item: u64, w: int)
    requires
        0 <= w < s.len(),
        s[w] == item,
    ensures
        exists|k: int| 0 <= k < s.len() && s[k] == item && forall|j: int| 0 <= j < k ==> s[j] != item,
    decreases w,
{
    if exists|j: int| 0 <= j < w && s[j] == item {
        let j = choose|j: int| 0 <= j < w && s[j] == item;
        lemma_first_occurrence_exists(s, item, j);
    } else {
        assert(0 <= w < s.len() && s[w] == item && forall|j: int| 0 <= j < w ==> s[j] != item);
    }
}

impl Inventory {
    pub fn new() -> (r: Inventory)
        ensures
            r@ == Seq::<u64>::empty(),
    {
        Inventory { items: VecDeque::new() }
    }

    /// An inventory that holds `items`, in that order.
    pub fn from_items(items: &Vec<u64>) -> (r: Inventory)
        ensures
            r@ == items@,
    {
        let mut inv = Inventory::new();
        let mut i: usize = 0;
        while i < items.len()
            invariant
                i <= items@.len(),
                inv@ == items@.subrange(0, i as int),
            decreases items@.len() - i,
        {
            inv.items.push_back(items[i]);
            i += 1;
            assert(inv@ =~= items@.subrange(0, i as int));
        }
        assert(inv@ =~= items@);
        inv
    }

    pub fn len(&self) -> (r: usize)
        ensures
            r == self@.len(),
    {
        self.items.len()
    }

    /// The item at the front of the inventory, the next one to be used.
    pub fn front(&self) -> (r: Option<u64>)
        ensures
            r == (if self@.len() > 0 { Some(self@[0]) } else { None::<u64> }),
    {
        if self.items.len() > 0 {
            Some(self.items[0])
        } else {
            None
        }
    }

    /// Where `item` first stands in the inventory.
    pub fn position(&self, item: u64) -> (r: Option<usize>)
        ensures
            r matches Some(i) ==> Some(i as int) == first_index_of(self@, item),
            r is None <==> first_index_of(self@, item) is None,
    {
        let mut i: usize = 0;
        while i < self.items.len()
            invariant
                i <= self@.len(),
                forall|j: int| 0 <= j < i ==> self@[j] != item,
            decreases self@.len() - i,
        {
            if self.items[i] == item {
                proof {
                    lemma_first_index_of(self@, item);
                    let k = first_index_of(self@, item)->Some_0;
                    assert(!(k < i as int));
                    assert(!((i as int) < k));
                }
                return Some(i);
            }
            i += 1;
        }
        assert(!self@.contains(item));
        None
    }

    /// Takes the first occurrence of `item` out of the inventory and says
    /// where it stood; leaves the inventory as it is if `item` is not in it.
    pub fn take(&mut self, item: u64) -> (r: Option<usize>)
        ensures
            r == (match first_index_of(old(self)@, item) {
                Some(i) => Some(i as usize),
                None => None::<usize>,
            }),
            final(self)@ == (match first_index_of(old(self)@, item) {
                Some(i) => old(self)@.remove(i),
                None => old(self)@,
            }),
    {
        proof {
            lemma_first_index_of(self@, item);
        }
        match self.position(item) {
            Some(i) => {
                let _ = self.items.remove(i);
                Some(i)
            },
            None => None,
        }
    }

    /// Puts `item` at the back of the inventory.
    pub fn push_back(&mut self, item: u64)
        ensures
            final(self)@ == old(self)@.push(item),
    {
        self.items.push_back(item);
    }
}

/// Where the items of an inventory are drawn: the item at index `i` of the
/// inventory is drawn at `positions[i]`; items past the last position are
/// not drawn.
pub struct InventoryVisualDef {
    pub positions: Vec<Position>,
}

/// The position of slot `i` in a column of slots that rises from the origin.
pub open spec fn column_slot(i: int) -> Position {
    Position { x: 0, y: (i * (ITEM_VISUAL_SIZE + SLOT_GAP)) as i64, z: 0 }
}

impl InventoryVisualDef {
    /// A column of `count` slots, each one item size and one gap above the last.
    pub fn column(count: usize) -> (r: InventoryVisualDef)
        requires
            count <= MAX_SLOTS,
        ensures
            r.positions@.len() == count,
            forall|i: int| 0 <= i < count ==> #[trigger] r.positions@[i] == column_slot(i),
    {
        let step: i64 = (ITEM_VISUAL_SIZE + SLOT_GAP) as i64;
        let mut positions: Vec<Position> = Vec::new();
        let mut y: i64 = 0;
        let mut i: usize = 0;
        while i < count
            invariant
                i <= count <= MAX_SLOTS,
                step == ITEM_VISUAL_SIZE + SLOT_GAP,
                y == i * step,
                positions@.len() == i,
                forall|j: int| 0 <= j < i ==> #[trigger] positions@[j] == column_slot(j),
            decreases count - i,
        {
            positions.push(Position { x: 0, y, z: 0 });
            assert(y + step == (i + 1) * step && (i + 1) * step <= MAX_SLOTS * 74) by (nonlinear_arith)
                requires
                    y == i * step,
                    step == 74,
                    i + 1 <= MAX_SLOTS,
            ;
            y = y + step;
            i += 1;
        }
        InventoryVisualDef { positions }
    }
}

/// The items that the game starts with, in inventory order, and the column
/// of slots they are drawn in.
pub fn spawn_layout() -> (r: (Vec<ItemType>, InventoryVisualDef))
    ensures
        r.0@ == seq![ItemType::Gun, ItemType::Rifle, ItemType::Aura],
        r.1.positions@ == seq![column_slot(0), column_slot(1), column_slot(2)],
{
    let items = vec![ItemType::Gun, ItemType::Rifle, ItemType::Aura];
    let visual_def = InventoryVisualDef::column(3);
    assert(visual_def.positions@ =~= seq![column_slot(0), column_slot(1), column_slot(2)]);
    (items, visual_def)
}

/// What the engine knows of an item entity: its kind, and whether its
/// visual already exists.
#[derive(Clone, Copy, Debug, PartialEq, Eq, Structural)]
pub struct ItemLookup {
    pub kind: ItemType,
    pub has_visual: bool,
}

/// One step of bringing the visuals of an inventory in line with its contents.
#[derive(Clone, Copy, Debug, PartialEq, Eq, Structural)]
pub enum VisualAction {
    /// The entity's visual exists: move it to `position`.
    Move { entity: u64, position: Position },
    /// The entity has no visual yet: give it `visual`.
    Create { entity: u64, visual: ItemVisual },
}

/// The number of items of an inventory that have a slot to be drawn in.
pub open spec fn shown_count(items: Seq<u64>, positions: Seq<Position>) -> int {
    if items.len() < positions.len() { items.len() as int } else { positions.len() as int }
}

/// The step for the item at index `i`: nothing where the engine knows no
/// such item, a move where its visual exists, else a new visual of its kind.
pub open spec fn action_for(
    items: Seq<u64>,
    lookups: Seq<Option<ItemLookup>>,
    positions: Seq<Position>,
    assets: VisualAssets,
    i: int,
) -> Option<VisualAction> {
    if i >= lookups.len() {
        None
    } else {
        match lookups[i] {
            None => None,
            Some(l) => if l.has_visual {
                Some(VisualAction::Move { entity: items[i], position: positions[i] })
            } else {
                Some(
                    VisualAction::Create {
                        entity: items[i],
                        visual: assets.spec_def(l.kind).create_visual_spec(positions[i]),
                    },
                )
            },
        }
    }
}

/// The steps for the first `n` items, in inventory order.
pub open spec fn planned_actions(
    items: Seq<u64>,
    lookups: Seq<Option<ItemLookup>>,
    positions: Seq<Position>,
    assets: VisualAssets,
    n: nat,
) -> Seq<VisualAction>
    decreases n,
{
    if n == 0 {
        Seq::empty()
    } else {
        let before = planned_actions(items, lookups, positions, assets, (n - 1) as nat);
        match action_for(items, lookups, positions, assets, n - 1) {
            Some(a) => before.push(a),
            None => before,
        }
    }
}

/// The steps that bring the visuals of `inventory` in line with its
/// contents: for each item that has a slot in `visual_def`, in order,
/// `lookups[i]` tells what the engine knows of the item at index `i`.
pub fn item_create_visual(
    inventory: &Inventory,
    visual_def: &InventoryVisualDef,
    lookups: &Vec<Option<ItemLookup>>,
    assets: &VisualAssets,
) -> (r: Vec<VisualAction>)
    requires
        assets.wf(),
    ensures
        r@ == planned_actions(
            inventory@,
            lookups@,
            visual_def.positions@,
            *assets,
            shown_count(inventory@, visual_def.positions@) as nat,
        ),
{
    let n: usize = if inventory.items.len() < visual_def.positions.len() {
        inventory.items.len()
    } else {
        visual_def.positions.len()
    };
    let mut actions: Vec<VisualAction> = Vec::new();
    let mut i: usize = 0;
    while i < n
        invariant
            i <= n,
            n == shown_count(inventory@, visual_def.positions@),
            assets.wf(),
            actions@ == planned_actions(
                inventory@,
                lookups@,
                visual_def.positions@,
                *assets,
                i as nat,
            ),
        decreases n - i,
    {
        if i < lookups.len() {
            match lookups[i] {
                None => {},
                Some(l) => {
                    let entity = inventory.items[i];
                    let position = visual_def.positions[i];
                    if l.has_visual {
                        actions.push(VisualAction::Move { entity, position });
                    } else {
                        let def: &ItemDef = assets.def(l.kind);
                        actions.push(VisualAction::Create { entity, visual: def.create_item_visual(position) });
                    }
                },
            }
        }
        i += 1;
    }
    actions
}

} // verus!
