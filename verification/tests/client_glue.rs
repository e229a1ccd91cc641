use unbound::action::{ACTION_DEAD, ACTION_DODGE, ACTION_HEAVY, ACTION_LIGHT, ACTION_NONE};
use unbound::hud::{cursor_free, hud_copy, looking, movement_axis};
use unbound::input::{should_flush, BTN_LIGHT};
use unbound::loadout::{needs_new_weapon, LOADOUT_BOW, LOADOUT_SWORD};
use unbound::prediction::{locomotion, Locomotion, Pace};
use unbound::token::should_save_token;

fn expected_hud(drawn: bool, connected: bool) -> String {
    let stance = if drawn { "DRAWN" } else { "SHEATHED" };
    let net = if connected { "online" } else { "connecting…" };
    format!("UNBOUND  {stance}  [{net}]\nWASD move   RMB look (sheathed)   F draw/sheathe   Esc cursor")
}

#[test]
fn hud_banner_text() {
    for drawn in [false, true] {
        for connected in [false, true] {
            assert_eq!(hud_copy(drawn, connected), expected_hud(drawn, connected));
        }
    }
    assert!(hud_copy(true, true).starts_with("UNBOUND  DRAWN  [online]"));
}

#[test]
fn cursor_and_look() {
    assert!(looking(true, false));
    assert!(looking(false, true));
    assert!(!looking(false, false));
    assert!(cursor_free(false, false, false));
    assert!(!cursor_free(true, false, false));
    assert!(!cursor_free(false, true, false));
    assert!(cursor_free(true, true, true));
}

#[test]
fn movement_axes() {
    assert_eq!(movement_axis(true, false), 1);
    assert_eq!(movement_axis(false, true), -1);
    assert_eq!(movement_axis(true, true), 0);
    assert_eq!(movement_axis(false, false), 0);
}

#[test]
fn local_locomotion() {
    assert_eq!(locomotion(ACTION_HEAVY, false, true), Locomotion::Pinned { dead: false });
    assert_eq!(locomotion(ACTION_DEAD, true, false), Locomotion::Pinned { dead: true });
    assert_eq!(locomotion(ACTION_LIGHT, true, true), Locomotion::Frozen);
    assert_eq!(locomotion(ACTION_DODGE, false, true), Locomotion::Moving { pace: Pace::Roll });
    assert_eq!(locomotion(ACTION_NONE, false, true), Locomotion::Moving { pace: Pace::Sprint });
    assert_eq!(locomotion(ACTION_NONE, false, false), Locomotion::Moving { pace: Pace::Run });
}

#[test]
fn sending_and_saving() {
    assert!(should_flush(BTN_LIGHT, false));
    assert!(should_flush(0, true));
    assert!(!should_flush(0, false));
    assert!(should_save_token("abc"));
    assert!(!should_save_token(""));
}

#[test]
fn weapon_rebuilds() {
    assert!(needs_new_weapon(None, LOADOUT_SWORD, false));
    assert!(!needs_new_weapon(Some((LOADOUT_SWORD, true)), LOADOUT_SWORD, true));
    assert!(needs_new_weapon(Some((LOADOUT_SWORD, true)), LOADOUT_BOW, true));
    assert!(needs_new_weapon(Some((LOADOUT_BOW, false)), LOADOUT_BOW, true));
}
