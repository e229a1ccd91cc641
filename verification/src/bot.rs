//! The headless bot's decisions: what to press and which way to walk,
//! given what it sees. Distances are judged by the caller against the
//! bot's thresholds and handed in as answers.
use vstd::prelude::*;
use crate::action::{ACTION_HEAVY, ACTION_LIGHT};
use crate::input::{BTN_BLOCK, BTN_DODGE, BTN_INTERACT, BTN_LIGHT, BTN_SPRINT};
use crate::loadout::{LOADOUT_BOW, LOADOUT_SWORD};

verus! {

/// What the bot came to prove.
#[derive(Clone, Copy, Debug, PartialEq, Eq, Structural)]
pub enum BotMode {
    Dummy,
    Pvp,
    Gather,
    Bow,
}

/// How a mode plays: gathering, or fighting (only the dummy or anyone; in
/// melee or with the bow).
#[derive(Clone, Copy, Debug, PartialEq, Eq, Structural)]
pub enum BotPlan {
    Gather,
    Fight { dummy_only: bool, ranged: bool },
}

/// The plan of a mode.
pub fn bot_plan(mode: BotMode) -> (plan: BotPlan)
    ensures
        plan == (match mode {
            BotMode::Gather => BotPlan::Gather,
            BotMode::Dummy => BotPlan::Fight { dummy_only: true, ranged: false },
            BotMode::Pvp => BotPlan::Fight { dummy_only: false, ranged: false },
            BotMode::Bow => BotPlan::Fight { dummy_only: true, ranged: true },
        }),
{
    match mode {
        BotMode::Gather => BotPlan::Gather,
        BotMode::Dummy => BotPlan::Fight { dummy_only: true, ranged: false },
        BotMode::Pvp => BotPlan::Fight { dummy_only: false, ranged: false },
        BotMode::Bow => BotPlan::Fight { dummy_only: true, ranged: true },
    }
}

/// One input the bot sends: walk forward (1), back (-1) or stand (0),
/// the weapon drawn or not, the buttons, and the loadout.
#[derive(Clone, Copy, Debug, PartialEq, Eq, Structural)]
pub struct BotIntent {
    pub advance: i8,
    pub drawn: bool,
    pub buttons: u32,
    pub loadout: u8,
}

/// Standing still with the sword: drawn while hunting with nothing in
/// sight, sheathed while dead or with nothing to gather.
pub fn idle_intent(drawn: bool) -> (intent: BotIntent)
    ensures
        intent == (BotIntent { advance: 0, drawn, buttons: 0, loadout: LOADOUT_SWORD }),
{
    BotIntent { advance: 0, drawn, buttons: 0, loadout: LOADOUT_SWORD }
}

/// What the bot knows of its target, each distance already compared with
/// its threshold: `in_range` (under 12 m with the bow, 2.15 m in melee),
/// `close` (under 3.2 m), `far` (over 6 m), `beyond_kite` (over 9 m) and
/// `inside_kite` (under 5.5 m).
#[derive(Clone, Copy, Debug, PartialEq, Eq, Structural)]
pub struct TargetSense {
    pub action: u8,
    pub in_range: bool,
    pub close: bool,
    pub far: bool,
    pub beyond_kite: bool,
    pub inside_kite: bool,
}

/// The fight intent for a target.
pub open spec fn fight_intent_for(ranged: bool, t: TargetSense) -> BotIntent {
    let swinging = t.action == ACTION_LIGHT || t.action == ACTION_HEAVY;
    let advance: i8 = if ranged {
        if t.beyond_kite {
            1i8
        } else if t.inside_kite {
            -1i8
        } else {
            0i8
        }
    } else if swinging || t.in_range {
        0i8
    } else {
        1i8
    };
    let buttons: u32 = if !ranged && swinging && t.close {
        if t.action == ACTION_HEAVY {
            BTN_DODGE
        } else {
            BTN_BLOCK
        }
    } else if t.in_range {
        BTN_LIGHT
    } else if t.far {
        BTN_SPRINT
    } else {
        0
    };
    BotIntent {
        advance,
        drawn: true,
        buttons,
        loadout: if ranged {
            LOADOUT_BOW
        } else {
            LOADOUT_SWORD
        },
    }
}

/// Fighting a target: the archer keeps between 5.5 m and 9 m; the
/// swordsman closes in until in reach, stops while the target swings,
/// rolls away from a close heavy and blocks a close light; anyone in
/// range attacks, anyone far away sprints.
pub fn fight_intent(ranged: bool, target: TargetSense) -> (intent: BotIntent)
    ensures
        intent == fight_intent_for(ranged, target),
{
    let swinging = target.action == ACTION_LIGHT || target.action == ACTION_HEAVY;
    let advance: i8 = if ranged {
        if target.beyond_kite {
            1
        } else if target.inside_kite {
            -1
        } else {
            0
        }
    } else if swinging || target.in_range {
        0
    } else {
        1
    };
    let mut buttons: u32 = 0;
    if !ranged && swinging && target.close {
        if target.action == ACTION_HEAVY {
            buttons = BTN_DODGE;
        } else {
            buttons = BTN_BLOCK;
        }
    } else if target.in_range {
        buttons = BTN_LIGHT;
    } else if target.far {
        buttons = BTN_SPRINT;
    }
    BotIntent {
        advance,
        drawn: true,
        buttons,
        loadout: if ranged {
            LOADOUT_BOW
        } else {
            LOADOUT_SWORD
        },
    }
}

/// A swordsman never swings into a close enemy swing: it defends instead,
/// and it never walks into one either. Each intent presses at most one
/// button.
pub proof fn melee_bot_defends_close_swings(target: TargetSense)
    requires
        target.action == ACTION_LIGHT || target.action == ACTION_HEAVY,
        target.close,
    ensures
        fight_intent_for(false, target).buttons == BTN_DODGE || fight_intent_for(
            false,
            target,
        ).buttons == BTN_BLOCK,
        fight_intent_for(false, target).advance == 0,
{
}

/// Whatever the target: the bot's weapon is drawn and its bag is the bow
/// exactly when it fights at range; a target in range is attacked unless
/// a swordsman must defend a close swing; the archer never presses block
/// or dodge; and nobody sprints at a target in range.
pub proof fn bot_attacks_what_it_can_reach(ranged: bool, target: TargetSense)
    ensures
        fight_intent_for(ranged, target).drawn,
        fight_intent_for(ranged, target).loadout == (if ranged { LOADOUT_BOW } else { LOADOUT_SWORD }),
        target.in_range && (ranged || !(target.close && (target.action == ACTION_LIGHT
            || target.action == ACTION_HEAVY))) ==> fight_intent_for(ranged, target).buttons
            == BTN_LIGHT,
        ranged ==> fight_intent_for(ranged, target).buttons != BTN_BLOCK && fight_intent_for(
            ranged,
            target,
        ).buttons != BTN_DODGE,
        target.in_range ==> fight_intent_for(ranged, target).buttons != BTN_SPRINT,
{
}

/// Walking to the nearest node with charges: gather when within reach
/// (`reachable`), else walk there sheathed, sprinting when over 5 m away.
pub fn gather_intent(reachable: bool, sprint_far: bool) -> (intent: BotIntent)
    ensures
        intent == (if reachable {
            BotIntent { advance: 0, drawn: false, buttons: BTN_INTERACT, loadout: LOADOUT_SWORD }
        } else {
            BotIntent {
                advance: 1,
                drawn: false,
                buttons: if sprint_far {
                    BTN_SPRINT
                } else {
                    0
                },
                loadout: LOADOUT_SWORD,
            }
        }),
{
    if reachable {
        BotIntent { advance: 0, drawn: false, buttons: BTN_INTERACT, loadout: LOADOUT_SWORD }
    } else {
        BotIntent {
            advance: 1,
            drawn: false,
            buttons: if sprint_far {
                BTN_SPRINT
            } else {
                0
            },
            loadout: LOADOUT_SWORD,
        }
    }
}

} // verus!
