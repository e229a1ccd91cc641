use unbound::action::{ACTION_GATHER, ACTION_HEAVY, ACTION_HIT, ACTION_LIGHT, ACTION_NONE};
use unbound::bot::{bot_plan, fight_intent, gather_intent, idle_intent, BotIntent, BotMode, BotPlan, TargetSense};
use unbound::events::{combat_sound, event_kind, hit_feedback, shows_spark, CombatSound, EventKind, HitFeedback};
use unbound::input::{BTN_BLOCK, BTN_DODGE, BTN_INTERACT, BTN_LIGHT, BTN_SPRINT};
use unbound::loadout::{LOADOUT_BOW, LOADOUT_SWORD};
use unbound::world::{dummy_tint, node_charge_change, node_cue, node_pulses, DummyTint, NodeChange, NODE_ROCK, NODE_TREE};

#[test]
fn event_codes() {
    assert_eq!(event_kind(1), Some(EventKind::Hit));
    assert_eq!(event_kind(2), Some(EventKind::Kill));
    assert_eq!(event_kind(3), Some(EventKind::Blocked));
    assert_eq!(event_kind(4), Some(EventKind::Dodged));
    assert_eq!(event_kind(5), Some(EventKind::Gathered));
    assert_eq!(event_kind(6), Some(EventKind::GuardBreak));
    assert_eq!(event_kind(0), None);
    assert_eq!(event_kind(7), None);
    assert!(shows_spark(1) && shows_spark(6) && shows_spark(3));
    assert!(!shows_spark(5));
    assert!(!shows_spark(9));
}

#[test]
fn event_sounds() {
    assert_eq!(combat_sound(1, true, false), Some(CombatSound::Hit));
    assert_eq!(combat_sound(1, true, true), Some(CombatSound::Heavy));
    assert_eq!(combat_sound(2, true, true), Some(CombatSound::Kill));
    assert_eq!(combat_sound(3, true, false), Some(CombatSound::Block));
    assert_eq!(combat_sound(4, true, false), Some(CombatSound::Dodge));
    assert_eq!(combat_sound(5, true, false), Some(CombatSound::Gather));
    assert_eq!(combat_sound(6, true, false), Some(CombatSound::Break));
    assert_eq!(combat_sound(1, false, true), None);
    assert_eq!(combat_sound(8, true, false), None);
}

#[test]
fn blow_feedback() {
    assert_eq!(hit_feedback(1, true, false, false, false), HitFeedback::Struck);
    assert_eq!(hit_feedback(6, true, false, false, true), HitFeedback::Struck);
    assert_eq!(hit_feedback(2, false, true, true, false), HitFeedback::Striker);
    assert_eq!(hit_feedback(1, false, true, false, true), HitFeedback::Unfelt);
    assert_eq!(hit_feedback(3, true, false, false, false), HitFeedback::Unfelt);
    assert_eq!(hit_feedback(1, false, false, false, false), HitFeedback::Unfelt);
    assert_eq!(hit_feedback(1, true, true, true, false), HitFeedback::Striker);
}

#[test]
fn node_changes() {
    assert_eq!(node_charge_change(3, 0), NodeChange::Emptied);
    assert_eq!(node_charge_change(0, 3), NodeChange::Returned);
    assert_eq!(node_charge_change(3, 2), NodeChange::Unchanged);
    assert_eq!(node_charge_change(0, 0), NodeChange::Unchanged);
    assert_eq!(node_cue(NODE_ROCK), 2);
    assert_eq!(node_cue(NODE_TREE), 1);
    assert!(node_pulses(ACTION_GATHER, true, true));
    assert!(!node_pulses(ACTION_GATHER, false, true));
    assert!(!node_pulses(ACTION_NONE, true, true));
}

#[test]
fn dummy_tints() {
    assert_eq!(dummy_tint(ACTION_HEAVY, false), DummyTint::Down);
    assert_eq!(dummy_tint(ACTION_HEAVY, true), DummyTint::Heavy);
    assert_eq!(dummy_tint(ACTION_LIGHT, true), DummyTint::Light);
    assert_eq!(dummy_tint(ACTION_HIT, true), DummyTint::Stunned);
    assert_eq!(dummy_tint(ACTION_NONE, true), DummyTint::Idle);
}

fn sense(action: u8, in_range: bool, close: bool, far: bool, beyond: bool, inside: bool) -> TargetSense {
    TargetSense { action, in_range, close, far, beyond_kite: beyond, inside_kite: inside }
}

#[test]
fn bot_plans() {
    assert_eq!(bot_plan(BotMode::Gather), BotPlan::Gather);
    assert_eq!(bot_plan(BotMode::Dummy), BotPlan::Fight { dummy_only: true, ranged: false });
    assert_eq!(bot_plan(BotMode::Pvp), BotPlan::Fight { dummy_only: false, ranged: false });
    assert_eq!(bot_plan(BotMode::Bow), BotPlan::Fight { dummy_only: true, ranged: true });
    assert_eq!(idle_intent(false), BotIntent { advance: 0, drawn: false, buttons: 0, loadout: LOADOUT_SWORD });
}

#[test]
fn melee_bot_fights() {
    let walk_in = fight_intent(false, sense(ACTION_NONE, false, false, false, false, false));
    assert_eq!(walk_in, BotIntent { advance: 1, drawn: true, buttons: 0, loadout: LOADOUT_SWORD });
    let sprint_in = fight_intent(false, sense(ACTION_NONE, false, false, true, true, false));
    assert_eq!(sprint_in.buttons, BTN_SPRINT);
    let swing = fight_intent(false, sense(ACTION_NONE, true, true, false, false, true));
    assert_eq!((swing.advance, swing.buttons), (0, BTN_LIGHT));
    let dodge = fight_intent(false, sense(ACTION_HEAVY, true, true, false, false, true));
    assert_eq!((dodge.advance, dodge.buttons), (0, BTN_DODGE));
    let block = fight_intent(false, sense(ACTION_LIGHT, false, true, false, false, true));
    assert_eq!((block.advance, block.buttons), (0, BTN_BLOCK));
    let wait = fight_intent(false, sense(ACTION_LIGHT, false, false, false, false, true));
    assert_eq!((wait.advance, wait.buttons), (0, 0));
}

#[test]
fn archer_keeps_its_distance() {
    let close_in = fight_intent(true, sense(ACTION_NONE, true, false, true, true, false));
    assert_eq!((close_in.advance, close_in.buttons, close_in.loadout), (1, BTN_LIGHT, LOADOUT_BOW));
    let back_off = fight_intent(true, sense(ACTION_HEAVY, true, true, false, false, true));
    assert_eq!((back_off.advance, back_off.buttons), (-1, BTN_LIGHT));
    let hold = fight_intent(true, sense(ACTION_NONE, true, false, true, false, false));
    assert_eq!(hold.advance, 0);
    let out_of_range = fight_intent(true, sense(ACTION_NONE, false, false, true, true, false));
    assert_eq!(out_of_range.buttons, BTN_SPRINT);
}

#[test]
fn gatherer_walks_then_gathers() {
    assert_eq!(gather_intent(true, false), BotIntent { advance: 0, drawn: false, buttons: BTN_INTERACT, loadout: LOADOUT_SWORD });
    assert_eq!(gather_intent(false, true).buttons, BTN_SPRINT);
    assert_eq!(gather_intent(false, false), BotIntent { advance: 1, drawn: false, buttons: 0, loadout: LOADOUT_SWORD });
}
