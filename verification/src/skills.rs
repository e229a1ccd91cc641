//! Skill levels: each skill's level follows from its experience alone,
//! `1 + floor(sqrt(xp / 80))`, capped at the maximum level.
use vstd::prelude::*;

verus! {

/// Experience per unit of the level curve: level `1 + n` needs `XP_PER_STEP * n * n`.
pub const XP_PER_STEP: u64 = 80;
/// Highest level a skill can reach.
pub const MAX_LEVEL: u8 = 50;

/// The integer square root: the largest `s` with `s * s <= q`.
pub open spec fn floor_sqrt(q: nat) -> nat
    decreases q,
{
    if q == 0 {
        0
    } else {
        let s = floor_sqrt((q - 1) as nat);
        if (s + 1) * (s + 1) <= q {
            s + 1
        } else {
            s
        }
    }
}

/// The level that `xp` experience gives.
pub open spec fn level_for_xp(xp: nat) -> nat {
    let steps = floor_sqrt(xp / (XP_PER_STEP as nat));
    if steps + 1 >= MAX_LEVEL as nat {
        MAX_LEVEL as nat
    } else {
        steps + 1
    }
}

proof fn lemma_square_monotone(a: nat, b: nat)
    by (nonlinear_arith)
    requires
        a <= b,
    ensures
        a * a <= b * b,
{
}

proof fn lemma_square_strict(a: nat, b: nat)
    by (nonlinear_arith)
    requires
        a < b,
    ensures
        a * a < b * b,
{
}

/// `floor_sqrt(q)` is the square root of `q` rounded down.
pub proof fn lemma_floor_sqrt_bounds(q: nat)
    ensures
        floor_sqrt(q) * floor_sqrt(q) <= q,
        q < (floor_sqrt(q) + 1) * (floor_sqrt(q) + 1),
    decreases q,
{
    if q > 0 {
        lemma_floor_sqrt_bounds((q - 1) as nat);
        let s = floor_sqrt((q - 1) as nat);
        lemma_square_strict(s + 1, s + 2);
        if (s + 1) * (s + 1) <= q {
            assert(floor_sqrt(q) == s + 1);
            assert(q == (s + 1) * (s + 1));
            assert(floor_sqrt(q) * floor_sqrt(q) <= q);
            assert(q < (floor_sqrt(q) + 1) * (floor_sqrt(q) + 1));
        } else {
            assert(floor_sqrt(q) == s);
            assert(s * s <= q);
            assert(q < (s + 1) * (s + 1));
        }
    } else {
        assert(floor_sqrt(0) == 0);
        assert(0 * 0 == 0 && 1 * 1 == 1) by (nonlinear_arith);
    }
}

/// Only one natural number lies between the squares that bound `q`.
pub proof fn lemma_floor_sqrt_unique(s: nat, q: nat)
    requires
        s * s <= q,
        q < (s + 1) * (s + 1),
    ensures
        s == floor_sqrt(q),
{
    lemma_floor_sqrt_bounds(q);
    let r = floor_sqrt(q);
    if s < r {
        lemma_square_monotone(s + 1, r);
    } else if r < s {
        lemma_square_monotone(r + 1, s);
    }
}

/// More experience never gives a lower square root.
pub proof fn lemma_floor_sqrt_monotone(p: nat, q: nat)
    requires
        p <= q,
    ensures
        floor_sqrt(p) <= floor_sqrt(q),
{
    lemma_floor_sqrt_bounds(p);
    lemma_floor_sqrt_bounds(q);
    if floor_sqrt(q) < floor_sqrt(p) {
        lemma_square_monotone(floor_sqrt(q) + 1, floor_sqrt(p));
    }
}

/// The level that `xp` experience gives: `1 + floor(sqrt(xp / 80))`, at most 50.
pub fn skill_level(xp: u64) -> (level: u8)
    ensures
        level as nat == level_for_xp(xp as nat),
        1 <= level <= MAX_LEVEL,
{
    let q = xp / XP_PER_STEP;
    let mut s: u64 = 0;
    while s < 49
        invariant_except_break
            s <= 49,
            s * s <= q,
        ensures
            s <= 49,
            s * s <= q,
            s < 49 ==> q < (s + 1) * (s + 1),
        decreases 49 - s,
    {
        assert((s + 1) * (s + 1) <= 2500) by (nonlinear_arith)
            requires
                s < 49,
        ;
        if (s + 1) * (s + 1) > q {
            break;
        }
        s = s + 1;
    }
    proof {
        let qn = q as nat;
        lemma_floor_sqrt_bounds(qn);
        if s < 49 {
            lemma_floor_sqrt_unique(s as nat, qn);
        } else {
            assert(49 * 49 == 2401 && 50 * 50 == 2500) by (nonlinear_arith);
            lemma_floor_sqrt_monotone(2401, qn);
            lemma_floor_sqrt_unique(49, 2401);
        }
    }
    (s + 1) as u8
}

/// A skill's level never drops when its experience grows, and stays in `1..=50`.
pub proof fn level_is_monotone(xp_low: nat, xp_high: nat)
    requires
        xp_low <= xp_high,
    ensures
        level_for_xp(xp_low) <= level_for_xp(xp_high),
        1 <= level_for_xp(xp_low) <= MAX_LEVEL,
{
    vstd::arithmetic::div_mod::lemma_div_is_ordered(
        xp_low as int,
        xp_high as int,
        XP_PER_STEP as int,
    );
    lemma_floor_sqrt_monotone(xp_low / 80, xp_high / 80);
}

/// Exactly `80 * n * n` experience reaches level `1 + n` (below the cap).
pub proof fn level_at_square(n: nat)
    requires
        n < 50,
    ensures
        level_for_xp(80 * (n * n)) == n + 1,
{
    assert((80 * (n * n)) / 80 == n * n) by (nonlinear_arith);
    lemma_square_strict(n, n + 1);
    lemma_floor_sqrt_unique(n, n * n);
}

} // verus!

verus! {

/// Melee skill index.
pub const SKILL_MELEE: u8 = 0;
/// Ranged skill index.
pub const SKILL_RANGED: u8 = 1;
/// Magic skill index.
pub const SKILL_MAGIC: u8 = 2;
/// Defence skill index.
pub const SKILL_DEFENCE: u8 = 3;
/// Hitpoints skill index.
pub const SKILL_HITPOINTS: u8 = 4;
/// Gathering skill index.
pub const SKILL_GATHERING: u8 = 5;

/// The experience a character row carries, one total per skill.
#[derive(Clone, Copy, Debug, PartialEq, Eq, Structural)]
pub struct CharacterXp {
    pub melee_xp: u64,
    pub ranged_xp: u64,
    pub magic_xp: u64,
    pub defence_xp: u64,
    pub hitpoints_xp: u64,
    pub gather_xp: u64,
}

/// One skill that reached a new level, for the level-up toast.
#[derive(Clone, Copy, Debug, PartialEq, Eq, Structural)]
pub struct LevelUp {
    pub skill: u8,
    pub level: u8,
}

/// The HUD's view of the local character's skills: the levels shown, the
/// experience they came from, and whether a first character row has been
/// seen (before it, level changes are the initial load, not level-ups).
#[derive(Clone, Copy, Debug, PartialEq, Eq, Structural)]
pub struct SkillSheet {
    pub melee: u8,
    pub ranged: u8,
    pub magic: u8,
    pub defence: u8,
    pub hitpoints: u8,
    pub gather: u8,
    pub xp: CharacterXp,
    pub primed: bool,
}

/// A level change is announced only once the sheet is primed, and only upward.
pub open spec fn announces(primed: bool, old: nat, new: nat) -> bool {
    primed && new > old
}

/// The announcement for one skill, if its new level is worth one.
pub open spec fn level_up_for(skill: u8, primed: bool, old: u8, xp: u64) -> Seq<LevelUp> {
    if announces(primed, old as nat, level_for_xp(xp as nat)) {
        seq![LevelUp { skill, level: level_for_xp(xp as nat) as u8 }]
    } else {
        Seq::empty()
    }
}

/// All announcements for a character row, in skill order.
pub open spec fn level_ups(sheet: SkillSheet, xp: CharacterXp) -> Seq<LevelUp> {
    level_up_for(SKILL_MELEE, sheet.primed, sheet.melee, xp.melee_xp)
        + level_up_for(SKILL_RANGED, sheet.primed, sheet.ranged, xp.ranged_xp)
        + level_up_for(SKILL_MAGIC, sheet.primed, sheet.magic, xp.magic_xp)
        + level_up_for(SKILL_DEFENCE, sheet.primed, sheet.defence, xp.defence_xp)
        + level_up_for(SKILL_HITPOINTS, sheet.primed, sheet.hitpoints, xp.hitpoints_xp)
        + level_up_for(SKILL_GATHERING, sheet.primed, sheet.gather, xp.gather_xp)
}

/// The sheet after a character row: every level recomputed from its experience.
pub open spec fn sheet_after(xp: CharacterXp) -> SkillSheet {
    SkillSheet {
        melee: level_for_xp(xp.melee_xp as nat) as u8,
        ranged: level_for_xp(xp.ranged_xp as nat) as u8,
        magic: level_for_xp(xp.magic_xp as nat) as u8,
        defence: level_for_xp(xp.defence_xp as nat) as u8,
        hitpoints: level_for_xp(xp.hitpoints_xp as nat) as u8,
        gather: level_for_xp(xp.gather_xp as nat) as u8,
        xp,
        primed: true,
    }
}

/// The level a sheet shows for a skill index (indices past the last
/// skill read as Gathering).
pub open spec fn shown_level(sheet: SkillSheet, skill: u8) -> u8 {
    if skill == SKILL_MELEE {
        sheet.melee
    } else if skill == SKILL_RANGED {
        sheet.ranged
    } else if skill == SKILL_MAGIC {
        sheet.magic
    } else if skill == SKILL_DEFENCE {
        sheet.defence
    } else if skill == SKILL_HITPOINTS {
        sheet.hitpoints
    } else {
        sheet.gather
    }
}

/// The experience a character row carries for a skill index.
pub open spec fn xp_of(xp: CharacterXp, skill: u8) -> u64 {
    if skill == SKILL_MELEE {
        xp.melee_xp
    } else if skill == SKILL_RANGED {
        xp.ranged_xp
    } else if skill == SKILL_MAGIC {
        xp.magic_xp
    } else if skill == SKILL_DEFENCE {
        xp.defence_xp
    } else if skill == SKILL_HITPOINTS {
        xp.hitpoints_xp
    } else {
        xp.gather_xp
    }
}

/// A skill rises on a row: the sheet is primed and the row's experience
/// gives a level above the one shown.
pub open spec fn rises(sheet: SkillSheet, xp: CharacterXp, skill: u8) -> bool {
    sheet.primed && level_for_xp(xp_of(xp, skill) as nat) > shown_level(sheet, skill) as nat
}

/// The announcements `ups` are exactly the rises of the row, one per
/// rising skill, with the new level, in skill order.
pub open spec fn announces_exactly(sheet: SkillSheet, xp: CharacterXp, ups: Seq<LevelUp>) -> bool {
    &&& forall|k: u8|
        #![trigger rises(sheet, xp, k)]
        k <= SKILL_GATHERING && rises(sheet, xp, k) ==> ups.contains(
            LevelUp { skill: k, level: level_for_xp(xp_of(xp, k) as nat) as u8 },
        )
    &&& forall|i: int|
        #![trigger ups[i]]
        0 <= i < ups.len() ==> ups[i].skill <= SKILL_GATHERING && rises(sheet, xp, ups[i].skill)
            && ups[i].level as nat == level_for_xp(xp_of(xp, ups[i].skill) as nat)
    &&& forall|i: int, j: int| 0 <= i < j < ups.len() ==> ups[i].skill < ups[j].skill
}

/// The part of `announces_exactly` that holds once skills below `k` are
/// taken in.
spec fn announced_below(sheet: SkillSheet, xp: CharacterXp, ups: Seq<LevelUp>, k: u8) -> bool {
    &&& forall|j: u8|
        #![trigger rises(sheet, xp, j)]
        j < k && rises(sheet, xp, j) ==> ups.contains(
            LevelUp { skill: j, level: level_for_xp(xp_of(xp, j) as nat) as u8 },
        )
    &&& forall|i: int|
        #![trigger ups[i]]
        0 <= i < ups.len() ==> ups[i].skill < k && rises(sheet, xp, ups[i].skill)
            && ups[i].level as nat == level_for_xp(xp_of(xp, ups[i].skill) as nat)
    &&& forall|i: int, j: int| 0 <= i < j < ups.len() ==> ups[i].skill < ups[j].skill
}

proof fn lemma_announce_step(sheet: SkillSheet, xp: CharacterXp, ups: Seq<LevelUp>, k: u8)
    requires
        k <= SKILL_GATHERING,
        announced_below(sheet, xp, ups, k),
    ensures
        announced_below(
            sheet,
            xp,
            ups + level_up_for(k, sheet.primed, shown_level(sheet, k), xp_of(xp, k)),
            (k + 1) as u8,
        ),
{
    let part = level_up_for(k, sheet.primed, shown_level(sheet, k), xp_of(xp, k));
    let next = ups + part;
    level_is_monotone(0, xp_of(xp, k) as nat);
    assert forall|j: u8|
        #![trigger rises(sheet, xp, j)]
        j < k + 1 && rises(sheet, xp, j) implies next.contains(
        LevelUp { skill: j, level: level_for_xp(xp_of(xp, j) as nat) as u8 },
    ) by {
        let up = LevelUp { skill: j, level: level_for_xp(xp_of(xp, j) as nat) as u8 };
        if j < k {
            let i = choose|i: int| 0 <= i < ups.len() && ups[i] == up;
            assert(next[i] == up);
        } else {
            assert(next[ups.len() as int] == up);
        }
    }
    assert forall|i: int|
        #![trigger next[i]]
        0 <= i < next.len() implies next[i].skill < k + 1 && rises(sheet, xp, next[i].skill)
        && next[i].level as nat == level_for_xp(xp_of(xp, next[i].skill) as nat) by {
        if i < ups.len() {
            assert(next[i] == ups[i]);
        }
    }
    assert forall|i: int, j: int| 0 <= i < j < next.len() implies next[i].skill
        < next[j].skill by {
        if j < ups.len() {
            assert(next[i] == ups[i] && next[j] == ups[j]);
        } else {
            assert(next[i] == ups[i]);
            assert(ups[i].skill < k);
        }
    }
}

/// The announcements of a row are complete and sound: every skill that
/// rises on a primed sheet is announced with its new level, nothing else
/// is announced, announcements come in skill order, and an unprimed sheet
/// announces nothing.
pub proof fn level_ups_are_exact(sheet: SkillSheet, xp: CharacterXp)
    ensures
        announces_exactly(sheet, xp, level_ups(sheet, xp)),
        !sheet.primed ==> level_ups(sheet, xp).len() == 0,
{
    let p0 = Seq::<LevelUp>::empty();
    assert(announced_below(sheet, xp, p0, 0));
    lemma_announce_step(sheet, xp, p0, 0);
    let p1 = p0 + level_up_for(0, sheet.primed, shown_level(sheet, 0), xp_of(xp, 0));
    lemma_announce_step(sheet, xp, p1, 1);
    let p2 = p1 + level_up_for(1, sheet.primed, shown_level(sheet, 1), xp_of(xp, 1));
    lemma_announce_step(sheet, xp, p2, 2);
    let p3 = p2 + level_up_for(2, sheet.primed, shown_level(sheet, 2), xp_of(xp, 2));
    lemma_announce_step(sheet, xp, p3, 3);
    let p4 = p3 + level_up_for(3, sheet.primed, shown_level(sheet, 3), xp_of(xp, 3));
    lemma_announce_step(sheet, xp, p4, 4);
    let p5 = p4 + level_up_for(4, sheet.primed, shown_level(sheet, 4), xp_of(xp, 4));
    lemma_announce_step(sheet, xp, p5, 5);
    let p6 = p5 + level_up_for(5, sheet.primed, shown_level(sheet, 5), xp_of(xp, 5));
    assert(p6 =~= level_ups(sheet, xp));
    assert(announced_below(sheet, xp, p6, 6));
}

/// Whether a level change from `old` to `new` earns a level-up toast.
pub fn xp_bar_levelled(primed: bool, old: u8, new: u8) -> (b: bool)
    ensures
        b == announces(primed, old as nat, new as nat),
{
    primed && new > old
}

fn bump(primed: bool, shown: u8, xp: u64, skill: u8, ups: &mut Vec<LevelUp>) -> (new: u8)
    ensures
        new as nat == level_for_xp(xp as nat),
        final(ups)@ == old(ups)@ + level_up_for(skill, primed, shown, xp),
{
    let new = skill_level(xp);
    if xp_bar_levelled(primed, shown, new) {
        ups.push(LevelUp { skill, level: new });
    }
    new
}

impl SkillSheet {
    /// A fresh sheet: every skill at level 1 with no experience, not yet primed.
    pub fn new() -> (sheet: SkillSheet)
        ensures
            sheet.melee == 1 && sheet.ranged == 1 && sheet.magic == 1,
            sheet.defence == 1 && sheet.hitpoints == 1 && sheet.gather == 1,
            sheet.xp == (CharacterXp {
                melee_xp: 0,
                ranged_xp: 0,
                magic_xp: 0,
                defence_xp: 0,
                hitpoints_xp: 0,
                gather_xp: 0,
            }),
            !sheet.primed,
    {
        SkillSheet {
            melee: 1,
            ranged: 1,
            magic: 1,
            defence: 1,
            hitpoints: 1,
            gather: 1,
            xp: CharacterXp {
                melee_xp: 0,
                ranged_xp: 0,
                magic_xp: 0,
                defence_xp: 0,
                hitpoints_xp: 0,
                gather_xp: 0,
            },
            primed: false,
        }
    }

    /// Takes in the local character's row: recomputes every level from its
    /// experience, primes the sheet, and returns the skills that went up a
    /// level (none on the first row), in skill order.
    pub fn apply_character(&mut self, xp: CharacterXp) -> (ups: Vec<LevelUp>)
        ensures
            *final(self) == sheet_after(xp),
            ups@ == level_ups(*old(self), xp),
            announces_exactly(*old(self), xp, ups@),
            !old(self).primed ==> ups@.len() == 0,
    {
        let primed = self.primed;
        let mut ups: Vec<LevelUp> = Vec::new();
        let melee = bump(primed, self.melee, xp.melee_xp, SKILL_MELEE, &mut ups);
        let ranged = bump(primed, self.ranged, xp.ranged_xp, SKILL_RANGED, &mut ups);
        let magic = bump(primed, self.magic, xp.magic_xp, SKILL_MAGIC, &mut ups);
        let defence = bump(primed, self.defence, xp.defence_xp, SKILL_DEFENCE, &mut ups);
        let hitpoints = bump(primed, self.hitpoints, xp.hitpoints_xp, SKILL_HITPOINTS, &mut ups);
        let gather = bump(primed, self.gather, xp.gather_xp, SKILL_GATHERING, &mut ups);
        self.melee = melee;
        self.ranged = ranged;
        self.magic = magic;
        self.defence = defence;
        self.hitpoints = hitpoints;
        self.gather = gather;
        self.xp = xp;
        self.primed = true;
        assert(ups@ =~= level_ups(*old(self), xp));
        proof {
            level_ups_are_exact(*old(self), xp);
        }
        ups
    }
}

/// The first character row only loads the sheet: it never announces a level-up.
pub proof fn first_row_announces_nothing(sheet: SkillSheet, xp: CharacterXp)
    requires
        !sheet.primed,
    ensures
        level_ups(sheet, xp) =~= Seq::<LevelUp>::empty(),
{
}

/// Taking in the same character row again announces nothing.
pub proof fn repeated_row_announces_nothing(xp: CharacterXp)
    ensures
        level_ups(sheet_after(xp), xp) =~= Seq::<LevelUp>::empty(),
{
    level_is_monotone(xp.melee_xp as nat, xp.melee_xp as nat);
    level_is_monotone(xp.ranged_xp as nat, xp.ranged_xp as nat);
    level_is_monotone(xp.magic_xp as nat, xp.magic_xp as nat);
    level_is_monotone(xp.defence_xp as nat, xp.defence_xp as nat);
    level_is_monotone(xp.hitpoints_xp as nat, xp.hitpoints_xp as nat);
    level_is_monotone(xp.gather_xp as nat, xp.gather_xp as nat);
}

/// Every announced level is a real rise: it is above the level shown before
/// and equals the level the new experience gives.
pub proof fn announced_levels_rise(sheet: SkillSheet, xp: CharacterXp, i: int)
    requires
        0 <= i < level_ups(sheet, xp).len(),
    ensures
        ({
            let up = level_ups(sheet, xp)[i];
            let before = if up.skill == SKILL_MELEE {
                sheet.melee
            } else if up.skill == SKILL_RANGED {
                sheet.ranged
            } else if up.skill == SKILL_MAGIC {
                sheet.magic
            } else if up.skill == SKILL_DEFENCE {
                sheet.defence
            } else if up.skill == SKILL_HITPOINTS {
                sheet.hitpoints
            } else {
                sheet.gather
            };
            let after = if up.skill == SKILL_MELEE {
                sheet_after(xp).melee
            } else if up.skill == SKILL_RANGED {
                sheet_after(xp).ranged
            } else if up.skill == SKILL_MAGIC {
                sheet_after(xp).magic
            } else if up.skill == SKILL_DEFENCE {
                sheet_after(xp).defence
            } else if up.skill == SKILL_HITPOINTS {
                sheet_after(xp).hitpoints
            } else {
                sheet_after(xp).gather
            };
            &&& up.skill <= SKILL_GATHERING
            &&& up.level > before
            &&& up.level == after
        }),
{
    level_is_monotone(0, xp.melee_xp as nat);
    level_is_monotone(0, xp.ranged_xp as nat);
    level_is_monotone(0, xp.magic_xp as nat);
    level_is_monotone(0, xp.defence_xp as nat);
    level_is_monotone(0, xp.hitpoints_xp as nat);
    level_is_monotone(0, xp.gather_xp as nat);
}

} // verus!
