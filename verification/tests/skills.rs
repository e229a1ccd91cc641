use unbound::skills::{
    skill_level, xp_bar_levelled, CharacterXp, LevelUp, SkillSheet, SKILL_GATHERING,
    SKILL_MAGIC, SKILL_MELEE,
};

fn xp(melee: u64, ranged: u64, magic: u64, defence: u64, hitpoints: u64, gather: u64) -> CharacterXp {
    CharacterXp {
        melee_xp: melee,
        ranged_xp: ranged,
        magic_xp: magic,
        defence_xp: defence,
        hitpoints_xp: hitpoints,
        gather_xp: gather,
    }
}

#[test]
fn level_curve_values() {
    assert_eq!(skill_level(0), 1);
    assert_eq!(skill_level(79), 1);
    assert_eq!(skill_level(80), 2);
    assert_eq!(skill_level(319), 2);
    assert_eq!(skill_level(320), 3);
    assert_eq!(skill_level(720), 4);
    assert_eq!(skill_level(8_000), 11);
    assert_eq!(skill_level(80 * 49 * 49 - 1), 49);
    assert_eq!(skill_level(80 * 49 * 49), 50);
    assert_eq!(skill_level(u64::MAX), 50);
}

#[test]
fn level_curve_matches_the_float_formula() {
    for x in (0..400_000u64).step_by(37) {
        let f = (1.0 + (x as f64 / 80.0).sqrt()).floor().min(50.0) as u8;
        assert_eq!(skill_level(x), f, "xp {x}");
    }
}

#[test]
fn level_never_drops_as_xp_grows() {
    let mut last = 1;
    for x in (0..250_000u64).step_by(13) {
        let l = skill_level(x);
        assert!(l >= last && (1..=50).contains(&l));
        last = l;
    }
}

#[test]
fn toast_only_once_primed_and_only_upward() {
    assert!(!xp_bar_levelled(false, 1, 5));
    assert!(xp_bar_levelled(true, 1, 2));
    assert!(!xp_bar_levelled(true, 3, 3));
    assert!(!xp_bar_levelled(true, 4, 3));
}

#[test]
fn first_row_loads_without_toasts() {
    let mut sheet = SkillSheet::new();
    assert!(!sheet.primed);
    let ups = sheet.apply_character(xp(8_000, 0, 320, 0, 80, 0));
    assert!(ups.is_empty());
    assert!(sheet.primed);
    assert_eq!(sheet.melee, 11);
    assert_eq!(sheet.magic, 3);
    assert_eq!(sheet.hitpoints, 2);
    assert_eq!(sheet.ranged, 1);
    assert_eq!(sheet.xp.melee_xp, 8_000);
}

#[test]
fn later_rows_toast_each_level_up_in_order() {
    let mut sheet = SkillSheet::new();
    sheet.apply_character(xp(0, 0, 0, 0, 0, 0));
    let ups = sheet.apply_character(xp(80, 0, 720, 0, 0, 320));
    assert_eq!(
        ups,
        vec![
            LevelUp { skill: SKILL_MELEE, level: 2 },
            LevelUp { skill: SKILL_MAGIC, level: 4 },
            LevelUp { skill: SKILL_GATHERING, level: 3 },
        ]
    );
    let again = sheet.apply_character(xp(80, 0, 720, 0, 0, 320));
    assert!(again.is_empty());
    let small = sheet.apply_character(xp(100, 0, 730, 0, 0, 330));
    assert!(small.is_empty());
}
