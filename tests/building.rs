use tower_inventory::building::{
    accept_build, click_get_out, react_to_build, replacement_choices, verify_empty_space,
    BuildRequest, DrawError, RandomDeterministic, RefusedBuild, DEFAULT_SEED,
};
use tower_inventory::inventory::Inventory;
use tower_inventory::items::{ItemType, Position};

fn at(x: i64, y: i64) -> Position {
    Position { x, y, z: 0 }
}

fn request(item: u64, x: i64) -> BuildRequest {
    BuildRequest { inventory: 100, item, position: at(x, 5) }
}

fn contents(inv: &Inventory) -> Vec<u64> {
    inv.items.iter().copied().collect()
}

#[test]
fn release_requests_the_front_item() {
    let inv = Inventory::from_items(&vec![7, 8]);
    assert_eq!(
        click_get_out(true, 100, &inv, at(-20, 30)),
        Some(BuildRequest { inventory: 100, item: 7, position: at(-20, 30) })
    );
    assert_eq!(click_get_out(false, 100, &inv, at(-20, 30)), None);
    assert_eq!(click_get_out(true, 100, &Inventory::new(), at(-20, 30)), None);
}

#[test]
fn no_room_in_the_cleared_band() {
    assert_eq!(verify_empty_space(&request(1, -1)), None);
    assert_eq!(verify_empty_space(&request(1, 0)), Some(RefusedBuild::NotEnoughPlace));
    assert_eq!(verify_empty_space(&request(1, 50)), Some(RefusedBuild::NotEnoughPlace));
    assert_eq!(verify_empty_space(&request(1, 99)), Some(RefusedBuild::NotEnoughPlace));
    assert_eq!(verify_empty_space(&request(1, 100)), None);
    assert_eq!(verify_empty_space(&request(1, -500)), None);
}

#[test]
fn accepted_build_takes_the_item_out() {
    let mut inv = Inventory::from_items(&vec![7, 8, 9]);
    assert_eq!(accept_build(&mut inv, &request(8, 200)), Some(1));
    assert_eq!(contents(&inv), vec![7, 9]);
    assert_eq!(accept_build(&mut inv, &request(8, 200)), None);
    assert_eq!(contents(&inv), vec![7, 9]);
}

#[test]
fn build_draws_a_replacement() {
    let mut rng = RandomDeterministic::default();
    assert_eq!(rng.seed, DEFAULT_SEED);
    let mut inv = Inventory::from_items(&vec![7, 8, 9]);
    let kind = react_to_build(&mut inv, &request(9, 200), &mut rng);
    assert!(kind.is_some());
    assert_eq!(contents(&inv), vec![7, 8]);
    assert_eq!(rng.seed, DEFAULT_SEED);
}

#[test]
fn build_of_a_missing_item_changes_nothing() {
    let mut rng = RandomDeterministic::default();
    let mut inv = Inventory::from_items(&vec![7, 8, 9]);
    assert_eq!(react_to_build(&mut inv, &request(1, 200), &mut rng), None);
    assert_eq!(contents(&inv), vec![7, 8, 9]);
}

#[test]
fn same_seed_draws_the_same_items() {
    let mut a = RandomDeterministic::from_seed(12);
    let mut b = RandomDeterministic::from_seed(12);
    for _ in 0..20 {
        assert_eq!(a.draw_replacement(), b.draw_replacement());
    }
}

#[test]
fn replacement_weights() {
    assert_eq!(
        replacement_choices(),
        vec![(ItemType::Gun, 2), (ItemType::Rifle, 1), (ItemType::Aura, 1)]
    );
}

#[test]
fn weighted_draw_errors() {
    let mut rng = RandomDeterministic::from_seed(1);
    assert_eq!(rng.choose_weighted(&vec![]), Err(DrawError::NoItem));
    assert_eq!(
        rng.choose_weighted(&vec![(ItemType::Gun, 0), (ItemType::Aura, 0)]),
        Err(DrawError::AllWeightsZero)
    );
}

#[test]
fn weighted_draw_never_picks_a_zero_weight() {
    let mut rng = RandomDeterministic::from_seed(3);
    let choices = vec![(ItemType::Gun, 0), (ItemType::Rifle, 0), (ItemType::Aura, 5)];
    for _ in 0..50 {
        assert_eq!(rng.choose_weighted(&choices), Ok(ItemType::Aura));
    }
    let choices = vec![(ItemType::Gun, 0), (ItemType::Rifle, 3)];
    for _ in 0..50 {
        assert_eq!(rng.choose_weighted(&choices), Ok(ItemType::Rifle));
    }
}

#[test]
fn every_kind_is_drawn_in_time() {
    let mut rng = RandomDeterministic::default();
    let mut seen = [false; 3];
    for _ in 0..200 {
        seen[rng.draw_replacement().index()] = true;
    }
    assert_eq!(seen, [true, true, true]);
}
