//! How the client reads the world's other rows: resource nodes and the
//! training dummy.
use vstd::prelude::*;
use crate::action::{ACTION_GATHER, ACTION_HEAVY, ACTION_HIT, ACTION_LIGHT};

verus! {

/// A tree: wood.
pub const NODE_TREE: u8 = 0;
/// A rock: ore.
pub const NODE_ROCK: u8 = 1;

/// What a new charge count means for a resource node.
#[derive(Clone, Copy, Debug, PartialEq, Eq, Structural)]
pub enum NodeChange {
    Unchanged,
    /// The last charge was taken: crack and flatten.
    Emptied,
    /// Charges came back: sparkle and ease the mesh back in.
    Returned,
}

/// The change from `old` to `new` charges.
pub open spec fn change_for(old: u8, new: u8) -> NodeChange {
    if old > 0 && new == 0 {
        NodeChange::Emptied
    } else if old == 0 && new > 0 {
        NodeChange::Returned
    } else {
        NodeChange::Unchanged
    }
}

/// What a new charge count means for a resource node.
pub fn node_charge_change(old: u8, new: u8) -> (change: NodeChange)
    ensures
        change == change_for(old, new),
{
    if old > 0 && new == 0 {
        NodeChange::Emptied
    } else if old == 0 && new > 0 {
        NodeChange::Returned
    } else {
        NodeChange::Unchanged
    }
}

/// A node empties exactly when its charges go from some to none and
/// returns exactly when they go from none to some; emptying and returning
/// undo each other.
pub proof fn node_changes_undo_each_other(old: u8, new: u8)
    ensures
        change_for(old, new) == NodeChange::Emptied <==> (old > 0 && new == 0),
        change_for(old, new) == NodeChange::Returned <==> (old == 0 && new > 0),
        change_for(old, new) == NodeChange::Emptied ==> change_for(new, old)
            == NodeChange::Returned,
        change_for(old, new) == NodeChange::Returned ==> change_for(new, old)
            == NodeChange::Emptied,
{
}

/// The sound variant for a node: 2 for a rock, 1 for a tree (or anything else).
pub fn node_cue(kind: u8) -> (cue: u8)
    ensures
        cue == (if kind == NODE_ROCK { 2u8 } else { 1u8 }),
{
    if kind == NODE_ROCK {
        2
    } else {
        1
    }
}

/// A fully grown node pulses while the local pawn gathers within reach.
pub fn node_pulses(predicted: u8, restored: bool, near: bool) -> (b: bool)
    ensures
        b == (restored && predicted == ACTION_GATHER && near),
{
    restored && predicted == ACTION_GATHER && near
}

/// The colour the training dummy wears.
#[derive(Clone, Copy, Debug, PartialEq, Eq, Structural)]
pub enum DummyTint {
    Down,
    Heavy,
    Light,
    Stunned,
    Idle,
}

/// The dummy's colour: dark when down, else by what it is doing.
pub fn dummy_tint(action: u8, alive: bool) -> (tint: DummyTint)
    ensures
        tint == (if !alive {
            DummyTint::Down
        } else if action == ACTION_HEAVY {
            DummyTint::Heavy
        } else if action == ACTION_LIGHT {
            DummyTint::Light
        } else if action == ACTION_HIT {
            DummyTint::Stunned
        } else {
            DummyTint::Idle
        }),
{
    if !alive {
        DummyTint::Down
    } else if action == ACTION_HEAVY {
        DummyTint::Heavy
    } else if action == ACTION_LIGHT {
        DummyTint::Light
    } else if action == ACTION_HIT {
        DummyTint::Stunned
    } else {
        DummyTint::Idle
    }
}

} // verus!
