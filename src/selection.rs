use vstd::prelude::*;

verus! {

/// Which of the game's inventories the player acts on.
pub struct Selection {
    pub inventories: Vec<u64>,
    pub selected_index: usize,
}

impl Selection {
    /// A selection over `inventories` that starts at the first one.
    pub fn new(inventories: Vec<u64>) -> (r: Selection)
        ensures
            r.inventories@ == inventories@,
            r.selected_index == 0,
    {
        Selection { inventories, selected_index: 0 }
    }
}

/// Moves the selection on to the next inventory, from the last one back to
/// the first, when the cycle key was just pressed; leaves it as it is
/// otherwise.
pub fn cycle_selection(selection: &mut Selection, key_just_pressed: bool)
    requires
        key_just_pressed ==> old(selection).inventories@.len() > 0,
    ensures
        final(selection).inventories@ == old(selection).inventories@,
        final(selection).selected_index == (if key_just_pressed {
            ((old(selection).selected_index + 1) % (old(selection).inventories@.len() as int)) as usize
        } else {
            old(selection).selected_index
        }),
{
    if key_just_pressed {
        let n = selection.inventories.len();
        let i = selection.selected_index;
        assert((i % n + 1) % (n as int) == (i + 1) % (n as int)) by (nonlinear_arith)
            requires
                n > 0,
        ;
        selection.selected_index = (i % n + 1) % n;
    }
}

} // verus!
