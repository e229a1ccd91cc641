//! Durations of timed actions, in world ticks at 30 Hz.
use vstd::prelude::*;

verus! {

/// World ticks per second.
pub const TICK_HZ: u16 = 30;

/// Whole ticks in a duration of `centis` hundredths of a second (the
/// fraction of a tick is dropped).
pub open spec fn ticks_for(centis: nat) -> nat {
    centis * (TICK_HZ as nat) / 100
}

fn ticks_in(centis: u16) -> (ticks: u16)
    requires
        centis <= 1000,
    ensures
        ticks as nat == ticks_for(centis as nat),
        ticks <= 300,
{
    centis * TICK_HZ / 100
}

/// Length of a dodge roll: 0.28 s.
pub fn dodge_ticks() -> (ticks: u8)
    ensures
        ticks as nat == ticks_for(28),
        ticks == 8,
{
    ticks_in(28) as u8
}

/// Length of a loadout swap: 0.45 s.
pub fn swap_ticks() -> (ticks: u8)
    ensures
        ticks as nat == ticks_for(45),
        ticks == 13,
{
    ticks_in(45) as u8
}

/// Length of hit-stun.
pub fn hitstun_ticks() -> (ticks: u8)
    ensures
        ticks == 4,
{
    4
}

/// Time from death to respawn: 3 s.
pub fn death_respawn_ticks() -> (ticks: u8)
    ensures
        ticks as nat == ticks_for(300),
        ticks == 90,
{
    ticks_in(300) as u8
}

/// Length of one gather: 1.35 s.
pub fn gather_ticks() -> (ticks: u8)
    ensures
        ticks as nat == ticks_for(135),
        ticks == 40,
{
    ticks_in(135) as u8
}

/// Time for an emptied resource node to come back: 8 s.
pub fn node_respawn_ticks() -> (ticks: u16)
    ensures
        ticks as nat == ticks_for(800),
        ticks == 240,
{
    ticks_in(800)
}

} // verus!
