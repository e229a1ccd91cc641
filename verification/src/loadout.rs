//! The three loadouts: the bag is the class. Stamina costs, damage, reach
//! and projectile speed are held in hundredths, so every stat is a whole
//! number (12.0 stamina is 1200, a 2.3 m reach is 230).
use vstd::prelude::*;

verus! {

/// Sword and shield.
pub const LOADOUT_SWORD: u8 = 0;
/// Bow.
pub const LOADOUT_BOW: u8 = 1;
/// Staff.
pub const LOADOUT_STAFF: u8 = 2;

/// What a loadout costs, deals and takes.
#[derive(Clone, Copy, Debug)]
pub struct LoadoutDef {
    pub id: u8,
    pub name: &'static str,
    /// Stamina for a light attack, in hundredths.
    pub light_stamina: u32,
    /// Stamina for a heavy attack, in hundredths.
    pub heavy_stamina: u32,
    /// Stamina for a dodge, in hundredths.
    pub dodge_stamina: u32,
    /// Base damage of a light attack, in hundredths.
    pub light_damage: u32,
    /// Base damage of a heavy attack, in hundredths.
    pub heavy_damage: u32,
    pub light_windup_ticks: u8,
    pub heavy_windup_ticks: u8,
    pub light_recover_ticks: u8,
    pub heavy_recover_ticks: u8,
    /// Reach of a melee swing, in hundredths of a metre; 0 for ranged loadouts.
    pub melee_range: u32,
    /// Launch speed of a shot, in hundredths of a metre per second; 0 for melee.
    pub projectile_speed: u32,
    pub is_projectile: bool,
}

/// The numbers of the sword and shield.
pub open spec fn is_sword_def(d: LoadoutDef) -> bool {
    &&& d.id == LOADOUT_SWORD
    &&& d.name@ == "Sword & board"@
    &&& d.light_stamina == 1200 && d.heavy_stamina == 2800 && d.dodge_stamina == 2200
    &&& d.light_damage == 1400 && d.heavy_damage == 2800
    &&& d.light_windup_ticks == 5 && d.heavy_windup_ticks == 11
    &&& d.light_recover_ticks == 6 && d.heavy_recover_ticks == 10
    &&& d.melee_range == 230 && d.projectile_speed == 0
    &&& !d.is_projectile
}

/// The numbers of the bow.
pub open spec fn is_bow_def(d: LoadoutDef) -> bool {
    &&& d.id == LOADOUT_BOW
    &&& d.name@ == "Bow"@
    &&& d.light_stamina == 1000 && d.heavy_stamina == 2400 && d.dodge_stamina == 2200
    &&& d.light_damage == 1200 && d.heavy_damage == 2200
    &&& d.light_windup_ticks == 6 && d.heavy_windup_ticks == 14
    &&& d.light_recover_ticks == 8 && d.heavy_recover_ticks == 12
    &&& d.melee_range == 0 && d.projectile_speed == 2800
    &&& d.is_projectile
}

/// The numbers of the staff.
pub open spec fn is_staff_def(d: LoadoutDef) -> bool {
    &&& d.id == LOADOUT_STAFF
    &&& d.name@ == "Staff"@
    &&& d.light_stamina == 1400 && d.heavy_stamina == 3200 && d.dodge_stamina == 2200
    &&& d.light_damage == 1300 && d.heavy_damage == 2600
    &&& d.light_windup_ticks == 7 && d.heavy_windup_ticks == 13
    &&& d.light_recover_ticks == 8 && d.heavy_recover_ticks == 12
    &&& d.melee_range == 0 && d.projectile_speed == 2200
    &&& d.is_projectile
}

/// The loadout a bag id stands for; an unknown id is the sword.
pub open spec fn is_loadout_for(id: u8, d: LoadoutDef) -> bool {
    if id == LOADOUT_BOW {
        is_bow_def(d)
    } else if id == LOADOUT_STAFF {
        is_staff_def(d)
    } else {
        is_sword_def(d)
    }
}

/// The loadout for a bag id: bow, staff, or (for any other id) the sword.
pub fn loadout(id: u8) -> (def: LoadoutDef)
    ensures
        is_loadout_for(id, def),
{
    if id == LOADOUT_BOW {
        LoadoutDef {
            id: LOADOUT_BOW,
            name: "Bow",
            light_stamina: 1000,
            heavy_stamina: 2400,
            dodge_stamina: 2200,
            light_damage: 1200,
            heavy_damage: 2200,
            light_windup_ticks: 6,
            heavy_windup_ticks: 14,
            light_recover_ticks: 8,
            heavy_recover_ticks: 12,
            melee_range: 0,
            projectile_speed: 2800,
            is_projectile: true,
        }
    } else if id == LOADOUT_STAFF {
        LoadoutDef {
            id: LOADOUT_STAFF,
            name: "Staff",
            light_stamina: 1400,
            heavy_stamina: 3200,
            dodge_stamina: 2200,
            light_damage: 1300,
            heavy_damage: 2600,
            light_windup_ticks: 7,
            heavy_windup_ticks: 13,
            light_recover_ticks: 8,
            heavy_recover_ticks: 12,
            melee_range: 0,
            projectile_speed: 2200,
            is_projectile: true,
        }
    } else {
        LoadoutDef {
            id: LOADOUT_SWORD,
            name: "Sword & board",
            light_stamina: 1200,
            heavy_stamina: 2800,
            dodge_stamina: 2200,
            light_damage: 1400,
            heavy_damage: 2800,
            light_windup_ticks: 5,
            heavy_windup_ticks: 11,
            light_recover_ticks: 6,
            heavy_recover_ticks: 10,
            melee_range: 230,
            projectile_speed: 0,
            is_projectile: false,
        }
    }
}

/// Every loadout keeps its bag id (unknown ids become the sword), and
/// whatever the bag: a heavy winds up longer, recovers longer,
/// costs more stamina and hits harder than a light; a loadout either
/// swings in melee reach or shoots at a speed, never both; and the dodge
/// costs the same in every bag.
pub proof fn loadout_shape(id: u8, d: LoadoutDef)
    requires
        is_loadout_for(id, d),
    ensures
        d.id == (if id <= LOADOUT_STAFF { id } else { LOADOUT_SWORD }),
        d.heavy_windup_ticks > d.light_windup_ticks,
        d.heavy_recover_ticks > d.light_recover_ticks,
        d.heavy_stamina > d.light_stamina,
        d.heavy_damage > d.light_damage,
        d.is_projectile <==> d.melee_range == 0,
        d.is_projectile <==> d.projectile_speed > 0,
        d.dodge_stamina == 2200,
{
}

/// The weapon a loadout carries.
#[derive(Clone, Copy, Debug, PartialEq, Eq, Structural)]
pub enum WeaponKind {
    Sword,
    Bow,
    Staff,
}

/// The weapon shown for a bag id: bow, staff, or (for any other id) the sword.
pub fn weapon_kind(loadout_id: u8) -> (kind: WeaponKind)
    ensures
        kind == (if loadout_id == LOADOUT_BOW {
            WeaponKind::Bow
        } else if loadout_id == LOADOUT_STAFF {
            WeaponKind::Staff
        } else {
            WeaponKind::Sword
        }),
{
    let def = loadout(loadout_id);
    if def.id == LOADOUT_BOW {
        WeaponKind::Bow
    } else if def.id == LOADOUT_STAFF {
        WeaponKind::Staff
    } else {
        WeaponKind::Sword
    }
}

/// Only the sword loadout carries a shield.
pub fn carries_shield(loadout_id: u8) -> (b: bool)
    ensures
        b == (loadout_id != LOADOUT_BOW && loadout_id != LOADOUT_STAFF),
{
    loadout(loadout_id).id == LOADOUT_SWORD
}

/// The skill a shot trains and is drawn as: 2 (magic bolt) from the staff,
/// 1 (arrow) otherwise.
pub fn shot_skill(loadout_id: u8) -> (skill: u8)
    ensures
        skill == (if loadout_id == LOADOUT_STAFF { 2u8 } else { 1u8 }),
{
    if loadout(loadout_id).id == LOADOUT_STAFF {
        2
    } else {
        1
    }
}

/// A pawn's weapon model must be rebuilt when it has none (`shown` is
/// `None`) or shows another loadout or stance than the pawn's.
pub fn needs_new_weapon(shown: Option<(u8, bool)>, loadout_id: u8, drawn: bool) -> (b: bool)
    ensures
        b == match shown {
            None => true,
            Some((l, d)) => l != loadout_id || d != drawn,
        },
{
    match shown {
        None => true,
        Some((l, d)) => l != loadout_id || d != drawn,
    }
}

} // verus!
