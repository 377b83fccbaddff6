use vstd::prelude::*;

verus! {

/// Side of an item's square visual, in world units.
pub const ITEM_VISUAL_SIZE: u32 = 64;

/// A point in world space, in whole world units.
#[derive(Clone, Copy, Debug, PartialEq, Eq, Structural)]
pub struct Position {
    pub x: i64,
    pub y: i64,
    pub z: i64,
}

/// The kinds of item that an inventory can hold.
#[derive(Clone, Copy, Debug, PartialEq, Eq, Hash, Structural)]
pub enum ItemType {
    Gun,
    Rifle,
    Aura,
}

/// The base colour that an item's visual is drawn with.
#[derive(Clone, Copy, Debug, PartialEq, Eq, Hash, Structural)]
pub enum ItemColor {
    Red,
    Yellow,
    Purple,
}

/// The colour that each kind of item is drawn with.
pub open spec fn spec_color_of(kind: ItemType) -> ItemColor {
    match kind {
        ItemType::Gun => ItemColor::Red,
        ItemType::Rifle => ItemColor::Yellow,
        ItemType::Aura => ItemColor::Purple,
    }
}

/// The slot of a kind in the table of visual definitions.
pub open spec fn spec_kind_index(kind: ItemType) -> int {
    match kind {
        ItemType::Gun => 0,
        ItemType::Rifle => 1,
        ItemType::Aura => 2,
    }
}

impl ItemType {
    pub fn index(&self) -> (r: usize)
        ensures
            r == spec_kind_index(*self),
    {
        match self {
            ItemType::Gun => 0,
            ItemType::Rifle => 1,
            ItemType::Aura => 2,
        }
    }

    pub fn color(&self) -> (r: ItemColor)
        ensures
            r == spec_color_of(*self),
    {
        match self {
            ItemType::Gun => ItemColor::Red,
            ItemType::Rifle => ItemColor::Yellow,
            ItemType::Aura => ItemColor::Purple,
        }
    }

    /// The command that gives an entity of this kind its visual.
    pub fn command_to_create_visual(&self) -> (r: CreateItemDefVisual)
        ensures
            r.item_type == *self,
    {
        CreateItemDefVisual { item_type: *self }
    }
}

/// What an item's on-screen visual is made of: a square of the given size
/// and colour at a position, which the pointer can pick.
#[derive(Clone, Copy, Debug, PartialEq, Eq, Structural)]
pub struct ItemVisual {
    pub color: ItemColor,
    pub size: u32,
    pub position: Position,
    pub pickable: bool,
}

/// How the items of one kind are drawn.
#[derive(Clone, Copy, Debug, PartialEq, Eq, Structural)]
pub struct ItemDef {
    pub color: ItemColor,
}

impl ItemDef {
    /// The visual of an item of this definition, placed at `position`: a
    /// pickable square of the standard size in the definition's colour.
    pub open spec fn create_visual_spec(&self, position: Position) -> ItemVisual {
        ItemVisual { color: self.color, size: ITEM_VISUAL_SIZE as u32, position, pickable: true }
    }

    pub fn create_item_visual(&self, position: Position) -> (r: ItemVisual)
        ensures
            r == self.create_visual_spec(position),
    {
        ItemVisual { color: self.color, size: ITEM_VISUAL_SIZE, position, pickable: true }
    }
}

/// The definition of every kind of item, one entry per kind, in the order
/// that `ItemType::index` gives.
pub struct VisualAssets {
    pub item_def: Vec<ItemDef>,
}

impl VisualAssets {
    /// One definition for each kind.
    pub open spec fn wf(&self) -> bool {
        self.item_def@.len() == 3
    }

    /// The definition that this table holds for `kind`.
    pub open spec fn spec_def(&self, kind: ItemType) -> ItemDef {
        self.item_def@[spec_kind_index(kind)]
    }

    pub fn def(&self, kind: ItemType) -> (r: &ItemDef)
        requires
            self.wf(),
        ensures
            *r == self.spec_def(kind),
    {
        &self.item_def[kind.index()]
    }
}

/// The table of definitions that the game starts with: each kind is drawn
/// in its own colour.
pub fn create_assets() -> (r: VisualAssets)
    ensures
        r.wf(),
        forall|k: ItemType| #[trigger] r.spec_def(k) == (ItemDef { color: spec_color_of(k) }),
{
    let item_def = vec![
        ItemDef { color: ItemType::Gun.color() },
        ItemDef { color: ItemType::Rifle.color() },
        ItemDef { color: ItemType::Aura.color() },
    ];
    let r = VisualAssets { item_def };
    assert forall|k: ItemType| #[trigger] r.spec_def(k) == (ItemDef { color: spec_color_of(k) }) by {
        match k {
            ItemType::Gun => {},
            ItemType::Rifle => {},
            ItemType::Aura => {},
        }
    }
    r
}

/// The command that gives an item entity of the named kind its visual.
#[derive(Clone, Copy, Debug, PartialEq, Eq, Structural)]
pub struct CreateItemDefVisual {
    pub item_type: ItemType,
}

impl CreateItemDefVisual {
    /// The visual that this command gives, at `position`.
    pub fn apply(&self, assets: &VisualAssets, position: Position) -> (r: ItemVisual)
        requires
            assets.wf(),
        ensures
            r == assets.spec_def(self.item_type).create_visual_spec(position),
    {
        assets.def(self.item_type).create_item_visual(position)
    }
}

/// Marks an item entity whose visual has been created.
#[derive(Clone, Copy, Debug, PartialEq, Eq, Structural)]
pub struct MarkerItemVisual;

} // verus!
