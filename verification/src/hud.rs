//! The camera and HUD decisions of the client: when the cursor is free,
//! which way the keys push, and the banner text.
use vstd::prelude::*;

verus! {

/// The camera follows the mouse while the weapon is drawn or the look
/// button is held.
pub fn looking(drawn: bool, look_held: bool) -> (b: bool)
    ensures
        b == (drawn || look_held),
{
    drawn || look_held
}

/// The cursor is free (visible, not grabbed) while Escape is held, or
/// while the weapon is sheathed and the look button is up.
pub fn cursor_free(drawn: bool, look_held: bool, escape_held: bool) -> (b: bool)
    ensures
        b == (escape_held || (!drawn && !look_held)),
{
    let look = looking(drawn, look_held);
    escape_held || (!look && !drawn)
}

/// The stance after a frame: pressing the draw key (F) flips between
/// drawn and sheathed, otherwise the stance stays.
pub fn next_stance(drawn: bool, draw_pressed: bool) -> (next: bool)
    ensures
        next == (drawn != draw_pressed),
{
    if draw_pressed {
        !drawn
    } else {
        drawn
    }
}

/// Where the identity token is kept on a desktop.
#[derive(Clone, Copy, Debug, PartialEq, Eq, Structural)]
pub enum TokenDir {
    /// Under `$XDG_DATA_HOME`.
    XdgData,
    /// Under `$HOME/.local/share`.
    HomeShare,
    /// Under `/tmp`, when neither variable is set.
    Tmp,
}

/// The base directory of the token file: `$XDG_DATA_HOME` when set, else
/// `$HOME/.local/share` when `HOME` is set, else `/tmp`.
pub fn token_dir(has_xdg_data_home: bool, has_home: bool) -> (dir: TokenDir)
    ensures
        dir == (if has_xdg_data_home {
            TokenDir::XdgData
        } else if has_home {
            TokenDir::HomeShare
        } else {
            TokenDir::Tmp
        }),
{
    if has_xdg_data_home {
        TokenDir::XdgData
    } else if has_home {
        TokenDir::HomeShare
    } else {
        TokenDir::Tmp
    }
}

/// One movement axis from its two keys: +1, -1, or 0 when both or neither
/// are held.
pub fn movement_axis(positive: bool, negative: bool) -> (axis: i8)
    ensures
        axis == (if positive && !negative {
            1i8
        } else if negative && !positive {
            -1i8
        } else {
            0i8
        }),
{
    let mut axis: i8 = 0;
    if positive {
        axis = axis + 1;
    }
    if negative {
        axis = axis - 1;
    }
    axis
}

/// The banner text for a stance and connection state.
pub open spec fn hud_text(drawn: bool, connected: bool) -> Seq<char> {
    "UNBOUND  "@ + (if drawn {
        "DRAWN"@
    } else {
        "SHEATHED"@
    }) + "  ["@ + (if connected {
        "online"@
    } else {
        "connecting…"@
    }) + "]\nWASD move   RMB look (sheathed)   F draw/sheathe   Esc cursor"@
}

/// The banner: stance, connection, and the key reminders.
pub fn hud_copy(drawn: bool, connected: bool) -> (text: String)
    ensures
        text@ == hud_text(drawn, connected),
{
    let stance = if drawn {
        "DRAWN"
    } else {
        "SHEATHED"
    };
    let net = if connected {
        "online"
    } else {
        "connecting…"
    };
    let mut text = String::from_str("UNBOUND  ");
    text.append(stance);
    text.append("  [");
    text.append(net);
    text.append("]\nWASD move   RMB look (sheathed)   F draw/sheathe   Esc cursor");
    text
}

} // verus!
