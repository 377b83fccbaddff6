use tower_inventory::items::{
    create_assets, CreateItemDefVisual, ItemColor, ItemDef, ItemType, ItemVisual, Position,
    ITEM_VISUAL_SIZE,
};

fn at(x: i64, y: i64) -> Position {
    Position { x, y, z: 0 }
}

#[test]
fn each_kind_has_its_colour() {
    assert_eq!(ItemType::Gun.color(), ItemColor::Red);
    assert_eq!(ItemType::Rifle.color(), ItemColor::Yellow);
    assert_eq!(ItemType::Aura.color(), ItemColor::Purple);
}

#[test]
fn kinds_have_distinct_indices() {
    assert_eq!(ItemType::Gun.index(), 0);
    assert_eq!(ItemType::Rifle.index(), 1);
    assert_eq!(ItemType::Aura.index(), 2);
}

#[test]
fn assets_hold_one_definition_per_kind() {
    let assets = create_assets();
    assert_eq!(assets.item_def.len(), 3);
    assert_eq!(*assets.def(ItemType::Gun), ItemDef { color: ItemColor::Red });
    assert_eq!(*assets.def(ItemType::Rifle), ItemDef { color: ItemColor::Yellow });
    assert_eq!(*assets.def(ItemType::Aura), ItemDef { color: ItemColor::Purple });
}

#[test]
fn visual_is_a_pickable_square_at_the_position() {
    let def = ItemDef { color: ItemColor::Yellow };
    let v = def.create_item_visual(at(3, -4));
    assert_eq!(
        v,
        ItemVisual { color: ItemColor::Yellow, size: 64, position: at(3, -4), pickable: true }
    );
    assert_eq!(ITEM_VISUAL_SIZE, 64);
}

#[test]
fn command_creates_the_visual_of_its_kind() {
    let assets = create_assets();
    let c = ItemType::Aura.command_to_create_visual();
    assert_eq!(c, CreateItemDefVisual { item_type: ItemType::Aura });
    let v = c.apply(&assets, at(0, 74));
    assert_eq!(v.color, ItemColor::Purple);
    assert_eq!(v.position, at(0, 74));
    assert!(v.pickable);
}
