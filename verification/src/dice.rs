//! A dice roll and the game move it triggers.
//!
//! Drawing the number is the one thing left to chance; which move each
//! number triggers is fixed and verified for every possible roll.

use rand::Rng;
use vstd::prelude::*;

verus! {

/// The move a roll triggers.
#[derive(Debug, Clone, Copy, PartialEq, Eq, Structural)]
pub enum DiceAction {
    AddFancyHat,
    RemoveFancyHat,
    MovePlayer(u8),
    Reroll,
}

/// The rule of the game: three gains the fancy hat, seven loses it, nine
/// moves the player nine spaces, and anything else rolls again.
pub open spec fn spec_dice_action(roll: u8) -> DiceAction {
    if roll == 3 {
        DiceAction::AddFancyHat
    } else if roll == 7 {
        DiceAction::RemoveFancyHat
    } else if roll == 9 {
        DiceAction::MovePlayer(9)
    } else {
        DiceAction::Reroll
    }
}

/// The move a given roll triggers.
pub fn dice_action(roll: u8) -> (action: DiceAction)
    ensures
        action == spec_dice_action(roll),
{
    match roll {
        3 => DiceAction::AddFancyHat,
        7 => DiceAction::RemoveFancyHat,
        9 => DiceAction::MovePlayer(9),
        _ => DiceAction::Reroll,
    }
}

/// Relies on rand::Rng::gen_range: the sample lies in the given range, so
/// the roll is below ten. Which value comes back is chance.
#[verifier::external_body]
fn roll_die() -> (roll: u8)
    ensures
        roll < 10,
{
    rand::thread_rng().gen_range(0..10)
}

/// Roll the die and answer with the move it triggers. The roll is random;
/// whatever it is, the returned move is the rule applied to a roll below
/// ten — in particular, the player is only ever moved nine spaces.
pub fn dice_roll() -> (action: DiceAction)
    ensures
        exists|roll: u8| roll < 10 && action == #[trigger] spec_dice_action(roll),
        action matches DiceAction::MovePlayer(spaces) ==> spaces == 9,
{
    let roll = roll_die();
    let action = dice_action(roll);
    proof {
        assert(roll < 10 && action == spec_dice_action(roll));
    }
    action
}

} // verus!
