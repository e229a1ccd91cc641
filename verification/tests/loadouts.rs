use unbound::loadout::{
    carries_shield, loadout, shot_skill, weapon_kind, WeaponKind, LOADOUT_BOW, LOADOUT_STAFF,
    LOADOUT_SWORD,
};

#[test]
fn sword_numbers() {
    let d = loadout(LOADOUT_SWORD);
    assert_eq!(d.id, 0);
    assert_eq!(d.name, "Sword & board");
    assert_eq!((d.light_stamina, d.heavy_stamina, d.dodge_stamina), (1200, 2800, 2200));
    assert_eq!((d.light_damage, d.heavy_damage), (1400, 2800));
    assert_eq!((d.light_windup_ticks, d.heavy_windup_ticks), (5, 11));
    assert_eq!((d.light_recover_ticks, d.heavy_recover_ticks), (6, 10));
    assert_eq!((d.melee_range, d.projectile_speed), (230, 0));
    assert!(!d.is_projectile);
}

#[test]
fn bow_numbers() {
    let d = loadout(LOADOUT_BOW);
    assert_eq!(d.id, 1);
    assert_eq!(d.name, "Bow");
    assert_eq!((d.light_stamina, d.heavy_stamina, d.dodge_stamina), (1000, 2400, 2200));
    assert_eq!((d.light_damage, d.heavy_damage), (1200, 2200));
    assert_eq!((d.light_windup_ticks, d.heavy_windup_ticks), (6, 14));
    assert_eq!((d.light_recover_ticks, d.heavy_recover_ticks), (8, 12));
    assert_eq!((d.melee_range, d.projectile_speed), (0, 2800));
    assert!(d.is_projectile);
}

#[test]
fn staff_numbers() {
    let d = loadout(LOADOUT_STAFF);
    assert_eq!(d.id, 2);
    assert_eq!(d.name, "Staff");
    assert_eq!((d.light_stamina, d.heavy_stamina, d.dodge_stamina), (1400, 3200, 2200));
    assert_eq!((d.light_damage, d.heavy_damage), (1300, 2600));
    assert_eq!((d.light_windup_ticks, d.heavy_windup_ticks), (7, 13));
    assert_eq!((d.light_recover_ticks, d.heavy_recover_ticks), (8, 12));
    assert_eq!((d.melee_range, d.projectile_speed), (0, 2200));
    assert!(d.is_projectile);
}

#[test]
fn unknown_ids_fall_back_to_the_sword() {
    for id in [3u8, 7, 200, 255] {
        let d = loadout(id);
        assert_eq!(d.id, LOADOUT_SWORD);
        assert_eq!(d.name, "Sword & board");
        assert_eq!(weapon_kind(id), WeaponKind::Sword);
        assert!(carries_shield(id));
        assert_eq!(shot_skill(id), 1);
    }
}

#[test]
fn heavies_commit_more_than_lights_in_every_bag() {
    for id in 0..=255u8 {
        let d = loadout(id);
        assert!(d.heavy_windup_ticks > d.light_windup_ticks);
        assert!(d.heavy_recover_ticks >= d.light_recover_ticks);
        assert!(d.heavy_stamina > d.light_stamina);
        assert!(d.heavy_damage > d.light_damage);
        assert_eq!(d.is_projectile, d.melee_range == 0);
        assert_eq!(d.is_projectile, d.projectile_speed > 0);
    }
}

#[test]
fn weapons_shields_and_shots() {
    assert_eq!(weapon_kind(LOADOUT_SWORD), WeaponKind::Sword);
    assert_eq!(weapon_kind(LOADOUT_BOW), WeaponKind::Bow);
    assert_eq!(weapon_kind(LOADOUT_STAFF), WeaponKind::Staff);
    assert!(carries_shield(LOADOUT_SWORD));
    assert!(!carries_shield(LOADOUT_BOW));
    assert!(!carries_shield(LOADOUT_STAFF));
    assert_eq!(shot_skill(LOADOUT_BOW), 1);
    assert_eq!(shot_skill(LOADOUT_STAFF), 2);
}
