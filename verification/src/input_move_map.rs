//! Translation of abstract action intents into move execution requests.
//!
//! Raw keyboard handling lives with the input collaborator; it hands in
//! an action code, and this module decides which catalogued move the
//! code stands for, taking the actor's berserker stance into account.

use vstd::prelude::*;

use crate::constants::ACTION_HENG;
use crate::constants::ACTION_SPECIAL;
use crate::constants::ACTION_ZHAN;
use crate::custom_move::MoveInput;
use crate::custom_move::MoveName;

verus! {

/// An abstract action intent issued for an actor, translated upstream
/// from raw input or from the decision loop.
#[derive(Clone, Copy, Debug, PartialEq, Eq, Structural)]
pub struct ActionEvent {
    pub action_type: u32,
    pub entity: u64,
}

/// Map an action code to the move it requests. The special action picks
/// the whirlwind in the active berserker stance and the spin otherwise;
/// unknown codes request nothing.
pub fn input_map_to_move(action_type: u32, berserker_level: Option<i32>) -> (r: Option<
    (MoveName, MoveInput),
>)
    ensures
        action_type == ACTION_HENG ==> r == Some((MoveName::SwingLeft, MoveInput::Attack)),
        action_type == ACTION_ZHAN ==> r == Some((MoveName::SwordStub, MoveInput::Attack)),
        action_type == ACTION_SPECIAL ==> r == (if berserker_level == Some(1i32) {
            Some((MoveName::Tunado, MoveInput::Attack))
        } else {
            Some((MoveName::SpinLeft, MoveInput::Attack))
        }),
        action_type != ACTION_HENG && action_type != ACTION_ZHAN && action_type != ACTION_SPECIAL
            ==> r is None,
{
    if action_type == ACTION_HENG {
        Some((MoveName::SwingLeft, MoveInput::Attack))
    } else if action_type == ACTION_ZHAN {
        Some((MoveName::SwordStub, MoveInput::Attack))
    } else if action_type == ACTION_SPECIAL {
        let is_active_berserker = match berserker_level {
            Some(level) => level == 1,
            None => false,
        };
        if is_active_berserker {
            Some((MoveName::Tunado, MoveInput::Attack))
        } else {
            Some((MoveName::SpinLeft, MoveInput::Attack))
        }
    } else {
        None
    }
}

} // verus!
