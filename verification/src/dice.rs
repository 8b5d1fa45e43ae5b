//! Actions of a dice game: roll a three and gain a fancy hat, roll a seven
//! and lose it, and move on any other roll.  The game keeps no state, so the
//! actions are observable no-ops with nothing to state in a contract.

use vstd::prelude::*;

verus! {

/// Awards the fancy hat for a roll of three.
pub fn add_fancy_hat() {
}

/// Takes the fancy hat away for a roll of seven.
pub fn remove_fancy_hat() {
}

/// Moves the player by the number of spaces rolled.
pub fn move_player(num_spaces: u8) {
    let _ = num_spaces;
}

} // verus!
