//! The discrete action space and its meaning as a target position.

use vstd::prelude::*;

use crate::{NUM_ACTIONS, STATE_DIM};

verus! {

/// The target position of an action, in half units of a full position:
/// StrongSell -2, Sell -1, Hold 0, Buy +1, StrongBuy +2; any other index holds (0).
pub open spec fn spec_position_halves(action: int) -> int {
    if action == 0 {
        -2
    } else if action == 1 {
        -1
    } else if action == 3 {
        1
    } else if action == 4 {
        2
    } else {
        0
    }
}

/// Maps an action index to the position it targets, counted in half
/// positions (so `-2` is a full short position, `2` a full long one).
pub fn action_to_position_halves(action: usize) -> (r: i8)
    ensures
        r == spec_position_halves(action as int),
        -2 <= r <= 2,
        action < NUM_ACTIONS ==> r == action - 2,
        action >= NUM_ACTIONS ==> r == 0,
{
    match action {
        0 => -2,
        1 => -1,
        2 => 0,
        3 => 1,
        4 => 2,
        _ => 0,
    }
}

/// Law of the action table: the actions are evenly spaced positions from a
/// full short to a full long one, centred on holding, and mirror each other;
/// any index past the last action holds.
pub proof fn lemma_position_halves(action: int)
    requires
        0 <= action,
    ensures
        action < NUM_ACTIONS ==> spec_position_halves(action) == action - 2,
        action < NUM_ACTIONS ==> spec_position_halves(NUM_ACTIONS - 1 - action)
            == -spec_position_halves(action),
        action >= NUM_ACTIONS ==> spec_position_halves(action) == 0,
{
}

/// The slot of the one-hot action code in the discriminator's input vector,
/// which holds the state first and the action code after it. An action index
/// out of range has no slot (its code stays all zero).
pub fn action_input_slot(action: usize) -> (r: Option<usize>)
    ensures
        action < NUM_ACTIONS <==> r is Some,
        r matches Some(slot) ==> slot == STATE_DIM + action && slot < STATE_DIM + NUM_ACTIONS,
{
    if action < NUM_ACTIONS {
        Some(STATE_DIM + action)
    } else {
        None
    }
}

} // verus!
