//! The button bits a client sends with every input intent.
use vstd::prelude::*;

verus! {

pub const BTN_LIGHT: u32 = 1;
pub const BTN_HEAVY: u32 = 2;
pub const BTN_DODGE: u32 = 4;
pub const BTN_BLOCK: u32 = 8;
pub const BTN_SPRINT: u32 = 16;
pub const BTN_INTERACT: u32 = 32;

/// The buttons to send: those held now together with those pressed and
/// released since the last send, so a tap between two sends is not lost.
pub fn merge_input_buttons(held: u32, latched: u32) -> (buttons: u32)
    ensures
        buttons == held | latched,
{
    held | latched
}

/// An input goes out when a tap is waiting (`latched` is not empty) or
/// when the send interval has passed.
pub fn should_flush(latched: u32, interval_passed: bool) -> (b: bool)
    ensures
        b == (latched != 0 || interval_passed),
{
    latched != 0 || interval_passed
}

/// The latched taps after a send: cleared once the input went out, kept
/// for the next send when it failed.
pub fn latched_after_send(latched: u32, sent: bool) -> (after: u32)
    ensures
        after == (if sent { 0u32 } else { latched }),
{
    if sent {
        0
    } else {
        latched
    }
}

/// Whether a button bit is set.
pub fn pressed(buttons: u32, button: u32) -> (b: bool)
    ensures
        b == (buttons & button != 0),
{
    buttons & button != 0
}

/// A button that is held or was tapped since the last send is in the
/// merged buttons, and nothing else is.
pub proof fn merged_keeps_every_press(held: u32, latched: u32, button: u32)
    ensures
        (held | latched) & button != 0 <==> (held & button != 0 || latched & button != 0),
{
    assert((held | latched) & button == (held & button) | (latched & button)) by (bit_vector);
    assert((held & button) | (latched & button) != 0 <==> (held & button != 0 || latched & button
        != 0)) by (bit_vector);
}

} // verus!
