//! Action codes carried by every pawn row, and the predicates that say
//! what an action allows.
use vstd::prelude::*;

verus! {

/// No action: free to move and to start anything.
pub const ACTION_NONE: u8 = 0;
/// Light attack (windup, release, recovery).
pub const ACTION_LIGHT: u8 = 1;
/// Heavy attack (longer windup, hyperarmor).
pub const ACTION_HEAVY: u8 = 2;
/// Dodge roll with invulnerability frames.
pub const ACTION_DODGE: u8 = 3;
/// Shield raised (sword only); held while the button is down.
pub const ACTION_BLOCK: u8 = 4;
/// Loadout swap in progress.
pub const ACTION_SWAP: u8 = 5;
/// Hit-stun after taking a hit.
pub const ACTION_HIT: u8 = 6;
/// Gathering from a resource node.
pub const ACTION_GATHER: u8 = 7;
/// Dead, waiting for respawn.
pub const ACTION_DEAD: u8 = 8;
/// Walk-out grace after a respawn.
pub const ACTION_SPAWN: u8 = 9;

/// Actions during which no new action may start.
pub open spec fn is_busy(action: u8) -> bool {
    ||| action == ACTION_LIGHT
    ||| action == ACTION_HEAVY
    ||| action == ACTION_DODGE
    ||| action == ACTION_SWAP
    ||| action == ACTION_HIT
    ||| action == ACTION_GATHER
    ||| action == ACTION_DEAD
}

/// Actions that pin the pawn in place.
pub open spec fn is_move_locked(action: u8) -> bool {
    ||| action == ACTION_HEAVY
    ||| action == ACTION_SWAP
    ||| action == ACTION_GATHER
    ||| action == ACTION_DEAD
}

/// True while the action keeps the pawn from starting another one.
pub fn action_busy(action: u8) -> (busy: bool)
    ensures
        busy == is_busy(action),
{
    action == ACTION_LIGHT || action == ACTION_HEAVY || action == ACTION_DODGE || action
        == ACTION_SWAP || action == ACTION_HIT || action == ACTION_GATHER || action == ACTION_DEAD
}

/// True while the action keeps the pawn from walking.
pub fn move_lock(action: u8) -> (locked: bool)
    ensures
        locked == is_move_locked(action),
{
    action == ACTION_HEAVY || action == ACTION_SWAP || action == ACTION_GATHER || action
        == ACTION_DEAD
}

/// True while the shield is raised.
pub fn blocking(action: u8) -> (b: bool)
    ensures
        b == (action == ACTION_BLOCK),
{
    action == ACTION_BLOCK
}

/// True during the dodge roll, whose frames cannot be hit.
pub fn invulnerable(action: u8) -> (b: bool)
    ensures
        b == (action == ACTION_DODGE),
{
    action == ACTION_DODGE
}

/// Every action that pins the pawn in place is also busy.
pub proof fn move_lock_implies_busy(action: u8)
    ensures
        is_move_locked(action) ==> is_busy(action),
{
}

/// A raised shield is not a busy action, and the dodge roll is busy but
/// leaves the pawn free to move; blocking and invulnerability never overlap.
pub proof fn block_and_dodge_are_distinct(action: u8)
    ensures
        action == ACTION_BLOCK ==> !is_busy(action) && !is_move_locked(action),
        action == ACTION_DODGE ==> is_busy(action) && !is_move_locked(action),
        !(action == ACTION_BLOCK && action == ACTION_DODGE),
{
}

} // verus!
