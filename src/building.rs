use rand::seq::SliceRandom;
use rand::SeedableRng;
use rand_chacha::ChaCha20Rng;
use vstd::prelude::*;

use crate::inventory::{first_index_of, Inventory};
use crate::items::{ItemType, Position};

verus! {

/// rand_chacha's `ChaCha20Rng`, held as an opaque value: the library only
/// hands it to rand's sampling.
#[verifier::external_type_specification]
#[verifier::external_body]
pub struct ExChaCha20Rng(ChaCha20Rng);

/// Relies on rand_core's `SeedableRng::seed_from_u64` for `ChaCha20Rng`: a
/// generator whose stream is fixed by the seed.
#[verifier::external_body]
fn chacha_from_seed(seed: u64) -> (r: ChaCha20Rng) {
    ChaCha20Rng::seed_from_u64(seed)
}

/// Why a weighted draw could not be made.
#[derive(Clone, Copy, Debug, PartialEq, Eq, Structural)]
pub enum DrawError {
    /// There was nothing to draw from.
    NoItem,
    /// A weight could not be used.
    InvalidWeight,
    /// Every weight was zero.
    AllWeightsZero,
    /// There were more entries than a draw can index.
    TooMany,
}

/// The sum of the weights of `choices`.
pub open spec fn total_weight(choices: Seq<(ItemType, u32)>) -> int
    decreases choices.len(),
{
    if choices.len() == 0 {
        0
    } else {
        total_weight(choices.drop_last()) + choices.last().1
    }
}

/// Some entry of `choices` has a positive weight.
pub open spec fn some_weight_positive(choices: Seq<(ItemType, u32)>) -> bool {
    exists|i: int| 0 <= i < choices.len() && #[trigger] choices[i].1 > 0
}

/// `kind` is the kind of an entry of `choices` with a positive weight.
pub open spec fn drawable(choices: Seq<(ItemType, u32)>, kind: ItemType) -> bool {
    exists|i: int| 0 <= i < choices.len() && #[trigger] choices[i].0 == kind && choices[i].1 > 0
}

/// Relies on rand's `SliceRandom::choose_weighted` (through
/// `WeightedIndex::new` and its sampling): it fails with `NoItem` on an empty
/// slice and with `AllWeightsZero` when every weight is zero (a `u32` weight is
/// never invalid); otherwise the entry it returns lies in the sampled range
/// of cumulative weights, so its weight is positive.
#[verifier::external_body]
fn choose_weighted_kind(choices: &Vec<(ItemType, u32)>, rng: &mut ChaCha20Rng) -> (r: Result<ItemType, DrawError>)
    requires
        total_weight(choices@) <= u32::MAX,
    ensures
        (r == Err::<ItemType, DrawError>(DrawError::NoItem)) <==> choices@.len() == 0,
        (r == Err::<ItemType, DrawError>(DrawError::AllWeightsZero)) <==> (choices@.len() > 0
            && !some_weight_positive(choices@)),
        r is Ok <==> some_weight_positive(choices@),
        r matches Ok(k) ==> drawable(choices@, k),
{
    match choices.choose_weighted(rng, |c| c.1) {
        Ok(c) => Ok(c.0),
        Err(rand::distributions::WeightedError::NoItem) => Err(DrawError::NoItem),
        Err(rand::distributions::WeightedError::InvalidWeight) => Err(DrawError::InvalidWeight),
        Err(rand::distributions::WeightedError::AllWeightsZero) => Err(DrawError::AllWeightsZero),
        Err(rand::distributions::WeightedError::TooMany) => Err(DrawError::TooMany),
    }
}

/// The seed that the game's generator starts from, so that every run of the
/// game draws the same items.
pub const DEFAULT_SEED: u64 = 0;

/// The game's source of chance: a generator started from a known seed.
pub struct RandomDeterministic {
    pub random: ChaCha20Rng,
    pub seed: u64,
}

impl RandomDeterministic {
    /// A generator started from `seed`.
    pub fn from_seed(seed: u64) -> (r: RandomDeterministic)
        ensures
            r.seed == seed,
    {
        RandomDeterministic { random: chacha_from_seed(seed), seed }
    }

    /// Draws the kind of one entry of `choices`, each entry as likely as its
    /// weight makes it. Fails exactly when there is nothing to draw: no entry,
    /// or no entry with a positive weight.
    pub fn choose_weighted(&mut self, choices: &Vec<(ItemType, u32)>) -> (r: Result<ItemType, DrawError>)
        requires
            total_weight(choices@) <= u32::MAX,
        ensures
            final(self).seed == old(self).seed,
            match r {
                Ok(k) => drawable(choices@, k),
                Err(e) => if choices@.len() == 0 {
                    e == DrawError::NoItem
                } else {
                    !some_weight_positive(choices@) && e == DrawError::AllWeightsZero
                },
            },
    {
        choose_weighted_kind(choices, &mut self.random)
    }

    /// Draws the kind of the item that replaces one taken out of an inventory.
    pub fn draw_replacement(&mut self) -> (r: ItemType)
        ensures
            final(self).seed == old(self).seed,
            replacement_weight(r) > 0,
    {
        let choices = replacement_choices();
        assert(total_weight(choices@) == 4) by {
            reveal_with_fuel(total_weight, 4);
            assert(choices@.drop_last().drop_last().drop_last() =~= Seq::<(ItemType, u32)>::empty());
        }
        assert(choices@[0].1 > 0);
        match self.choose_weighted(&choices) {
            Ok(k) => k,
            Err(_) => {
                // every replacement weight is positive, so the draw cannot fail
                proof {
                    assert(false);
                }
                ItemType::Gun
            },
        }
    }
}

impl Default for RandomDeterministic {
    fn default() -> (r: RandomDeterministic)
        ensures
            r.seed == DEFAULT_SEED,
    {
        RandomDeterministic::from_seed(DEFAULT_SEED)
    }
}

/// How likely each kind is to replace an item that was built.
pub open spec fn replacement_weight(kind: ItemType) -> u32 {
    match kind {
        ItemType::Gun => 2,
        ItemType::Rifle => 1,
        ItemType::Aura => 1,
    }
}

/// The weighted kinds that a built item is replaced by.
pub fn replacement_choices() -> (r: Vec<(ItemType, u32)>)
    ensures
        r@ == seq![
            (ItemType::Gun, replacement_weight(ItemType::Gun)),
            (ItemType::Rifle, replacement_weight(ItemType::Rifle)),
            (ItemType::Aura, replacement_weight(ItemType::Aura)),
        ],
{
    vec![(ItemType::Gun, 2), (ItemType::Rifle, 1), (ItemType::Aura, 1)]
}

/// The band of x coordinates, from `NO_BUILD_X_START` up to but not
/// including `NO_BUILD_X_END`, where there is no room to build.
pub const NO_BUILD_X_START: i64 = 0;

pub const NO_BUILD_X_END: i64 = 100;

/// A wish to build the item `item` of the inventory entity `inventory` at
/// `position` (with `z` zero), in whole world units.
#[derive(Clone, Copy, Debug, PartialEq, Eq, Structural)]
pub struct BuildRequest {
    pub inventory: u64,
    pub item: u64,
    pub position: Position,
}

/// Why a build request was turned down.
#[derive(Clone, Copy, Debug, PartialEq, Eq, Structural)]
pub enum RefusedBuild {
    NotEnoughPlace,
}

/// When the left button is released, the request to build the front item of
/// `inventory` at the pointer; nothing when the button was not released or
/// the inventory is empty.
pub fn click_get_out(
    left_released: bool,
    inventory_entity: u64,
    inventory: &Inventory,
    pointer: Position,
) -> (r: Option<BuildRequest>)
    ensures
        r == (if left_released && inventory@.len() > 0 {
            Some(BuildRequest { inventory: inventory_entity, item: inventory@[0], position: pointer })
        } else {
            None::<BuildRequest>
        }),
{
    if !left_released {
        return None;
    }
    match inventory.front() {
        Some(item) => Some(BuildRequest { inventory: inventory_entity, item, position: pointer }),
        None => None,
    }
}

/// There is room to build at `position` unless its x coordinate falls in the
/// band that is kept clear.
pub open spec fn spec_no_room(position: Position) -> bool {
    NO_BUILD_X_START <= position.x < NO_BUILD_X_END
}

/// Checks that there is room for `request`: the reason it is refused, or
/// nothing when it may go ahead.
pub fn verify_empty_space(request: &BuildRequest) -> (r: Option<RefusedBuild>)
    ensures
        r == (if spec_no_room(request.position) {
            Some(RefusedBuild::NotEnoughPlace)
        } else {
            None::<RefusedBuild>
        }),
{
    if NO_BUILD_X_START <= request.position.x && request.position.x < NO_BUILD_X_END {
        Some(RefusedBuild::NotEnoughPlace)
    } else {
        None
    }
}

/// Carries out an accepted `request` on the inventory it names: takes the
/// requested item out of it and says where it stood. Nothing changes when
/// the item is not in the inventory.
pub fn accept_build(inventory: &mut Inventory, request: &BuildRequest) -> (r: Option<usize>)
    ensures
        r == (match first_index_of(old(inventory)@, request.item) {
            Some(i) => Some(i as usize),
            None => None::<usize>,
        }),
        final(inventory)@ == (match first_index_of(old(inventory)@, request.item) {
            Some(i) => old(inventory)@.remove(i),
            None => old(inventory)@,
        }),
{
    inventory.take(request.item)
}

/// Carries out an accepted `request` and draws the kind of the item that is
/// to take the built one's place; nothing is drawn when the item is not in
/// the inventory. The new item joins the back of the inventory once it has
/// an entity, through `Inventory::push_back`.
pub fn react_to_build(
    inventory: &mut Inventory,
    request: &BuildRequest,
    rng: &mut RandomDeterministic,
) -> (r: Option<ItemType>)
    ensures
        final(inventory)@ == (match first_index_of(old(inventory)@, request.item) {
            Some(i) => old(inventory)@.remove(i),
            None => old(inventory)@,
        }),
        r is Some <==> old(inventory)@.contains(request.item),
        r matches Some(k) ==> replacement_weight(k) > 0,
        final(rng).seed == old(rng).seed,
{
    proof {
        crate::inventory::lemma_first_index_of(inventory@, request.item);
    }
    match accept_build(inventory, request) {
        Some(_) => Some(rng.draw_replacement()),
        None => None,
    }
}

} // verus!
