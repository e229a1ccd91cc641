use unbound::action::{
    action_busy, blocking, invulnerable, move_lock, ACTION_BLOCK, ACTION_DEAD, ACTION_DODGE,
    ACTION_GATHER, ACTION_HEAVY, ACTION_HIT, ACTION_LIGHT, ACTION_NONE, ACTION_SPAWN,
    ACTION_SWAP,
};
use unbound::timing::{
    death_respawn_ticks, dodge_ticks, gather_ticks, hitstun_ticks, node_respawn_ticks,
    swap_ticks, TICK_HZ,
};

const ALL: [u8; 10] = [
    ACTION_NONE,
    ACTION_LIGHT,
    ACTION_HEAVY,
    ACTION_DODGE,
    ACTION_BLOCK,
    ACTION_SWAP,
    ACTION_HIT,
    ACTION_GATHER,
    ACTION_DEAD,
    ACTION_SPAWN,
];

#[test]
fn busy_actions_are_the_committed_ones() {
    for a in ALL {
        let expected = matches!(a, 1 | 2 | 3 | 5 | 6 | 7 | 8);
        assert_eq!(action_busy(a), expected, "action {a}");
    }
    assert!(!action_busy(ACTION_NONE));
    assert!(!action_busy(ACTION_BLOCK));
    assert!(!action_busy(ACTION_SPAWN));
    assert!(!action_busy(200));
}

#[test]
fn move_lock_pins_heavy_swap_gather_and_death() {
    assert!(move_lock(ACTION_HEAVY));
    assert!(move_lock(ACTION_SWAP));
    assert!(move_lock(ACTION_GATHER));
    assert!(move_lock(ACTION_DEAD));
    assert!(!move_lock(ACTION_LIGHT));
    assert!(!move_lock(ACTION_DODGE));
    assert!(!move_lock(ACTION_BLOCK));
    assert!(!move_lock(ACTION_SPAWN));
}

#[test]
fn every_move_locked_action_is_busy() {
    for a in 0..=255u8 {
        if move_lock(a) {
            assert!(action_busy(a), "action {a}");
        }
    }
}

#[test]
fn block_and_dodge_predicates() {
    for a in ALL {
        assert_eq!(blocking(a), a == ACTION_BLOCK);
        assert_eq!(invulnerable(a), a == ACTION_DODGE);
        assert!(!(blocking(a) && invulnerable(a)));
    }
}

#[test]
fn timed_actions_at_thirty_hertz() {
    assert_eq!(TICK_HZ, 30);
    assert_eq!(dodge_ticks(), 8);
    assert_eq!(swap_ticks(), 13);
    assert_eq!(hitstun_ticks(), 4);
    assert_eq!(death_respawn_ticks(), 90);
    assert_eq!(gather_ticks(), 40);
    assert_eq!(node_respawn_ticks(), 240);
}

#[test]
fn timings_match_the_seconds_truncated_in_f32() {
    let hz = 30.0f32;
    assert_eq!(dodge_ticks(), (0.28 * hz) as u8);
    assert_eq!(swap_ticks(), (0.45 * hz) as u8);
    assert_eq!(death_respawn_ticks(), (3.0 * hz) as u8);
    assert_eq!(gather_ticks(), (1.35 * hz) as u8);
    assert_eq!(node_respawn_ticks(), (8.0 * hz) as u16);
}
