//! The client's predicted action: how it starts, runs out, and is
//! reconciled with the authoritative rows the server sends.
use vstd::prelude::*;
use crate::action::{
    is_move_locked, move_lock, ACTION_BLOCK, ACTION_DEAD, ACTION_DODGE, ACTION_GATHER, ACTION_HEAVY,
    ACTION_HIT, ACTION_LIGHT, ACTION_NONE, ACTION_SPAWN,
};
use crate::input::{BTN_BLOCK, BTN_DODGE, BTN_HEAVY, BTN_LIGHT};
use crate::loadout::{is_loadout_for, loadout, shot_skill, LoadoutDef, LOADOUT_BOW, LOADOUT_STAFF};

verus! {

/// The pawn just died.
pub fn death_started(was_alive: bool, now_alive: bool) -> (b: bool)
    ensures
        b == (was_alive && !now_alive),
{
    was_alive && !now_alive
}

/// The pawn just came back to life.
pub fn life_started(was_alive: bool, now_alive: bool) -> (b: bool)
    ensures
        b == (!was_alive && now_alive),
{
    !was_alive && now_alive
}

/// States that only the server puts a pawn in: hit-stun, death, respawn grace.
pub open spec fn is_server_owned(action: u8) -> bool {
    action == ACTION_HIT || action == ACTION_DEAD || action == ACTION_SPAWN
}

/// Whether only the server puts a pawn in this state.
pub fn server_owned(action: u8) -> (b: bool)
    ensures
        b == is_server_owned(action),
{
    action == ACTION_HIT || action == ACTION_DEAD || action == ACTION_SPAWN
}

/// The parts of an authoritative pawn row that the reconciliation reads.
#[derive(Clone, Copy, Debug, PartialEq, Eq, Structural)]
pub struct PawnRow {
    pub alive: bool,
    pub action: u8,
    pub action_ticks: u8,
}

/// What happens to the predicted action on a server row.
#[derive(Clone, Copy, Debug, PartialEq, Eq, Structural)]
pub enum ActionSync {
    /// Keep predicting.
    Keep,
    /// Take the server's action and its remaining ticks.
    Adopt { action: u8, ticks: u8 },
    /// The server left its own state: back to no action, no ticks.
    Clear,
}

/// How the local prediction answers one server row for the local pawn.
#[derive(Clone, Copy, Debug, PartialEq, Eq, Structural)]
pub struct LocalSync {
    pub action: ActionSync,
    /// Move the pawn to the server's position.
    pub snap: bool,
    /// Play the respawn cue.
    pub spawn_cue: bool,
    /// Take the server's stamina.
    pub take_stamina: bool,
}

/// The action sync for a server row.
pub open spec fn sync_for(predicted: u8, row: PawnRow) -> ActionSync {
    if is_server_owned(row.action) {
        ActionSync::Adopt { action: row.action, ticks: row.action_ticks }
    } else if row.action == ACTION_NONE && is_server_owned(predicted) {
        ActionSync::Clear
    } else {
        ActionSync::Keep
    }
}

/// The predicted action after a sync.
pub open spec fn synced_action(predicted: u8, sync: ActionSync) -> u8 {
    match sync {
        ActionSync::Keep => predicted,
        ActionSync::Adopt { action, ticks } => action,
        ActionSync::Clear => ACTION_NONE,
    }
}

/// The predicted action after a server row.
pub open spec fn next_action(predicted: u8, row: PawnRow) -> u8 {
    synced_action(predicted, sync_for(predicted, row))
}

/// Reconciles the local prediction with a server row for the local pawn.
/// `far_off` says the predicted position has drifted past the snap
/// distance; `server_stamina_lower` says the server's stamina is below the
/// predicted stamina.
pub fn reconcile_local(predicted: u8, row: PawnRow, far_off: bool, server_stamina_lower: bool) -> (sync: LocalSync)
    ensures
        sync.action == sync_for(predicted, row),
        sync.snap == (!row.alive || row.action == ACTION_DEAD || row.action == ACTION_SPAWN
            || far_off),
        sync.spawn_cue == (row.action == ACTION_SPAWN && predicted != ACTION_SPAWN),
        sync.take_stamina == (next_action(predicted, row) == ACTION_NONE || server_stamina_lower),
        row.action == ACTION_HIT || row.action == ACTION_DEAD || row.action == ACTION_SPAWN
            ==> sync.action == (ActionSync::Adopt { action: row.action, ticks: row.action_ticks }),
{
    let dead = !row.alive || row.action == ACTION_DEAD;
    let spawning = row.action == ACTION_SPAWN;
    let action = if server_owned(row.action) {
        ActionSync::Adopt { action: row.action, ticks: row.action_ticks }
    } else if row.action == ACTION_NONE && server_owned(predicted) {
        ActionSync::Clear
    } else {
        ActionSync::Keep
    };
    let after = match action {
        ActionSync::Keep => predicted,
        ActionSync::Adopt { action, ticks: _ } => action,
        ActionSync::Clear => ACTION_NONE,
    };
    LocalSync {
        action,
        snap: dead || spawning || far_off,
        spawn_cue: spawning && predicted != ACTION_SPAWN,
        take_stamina: after == ACTION_NONE || server_stamina_lower,
    }
}

/// A state the server puts the pawn in always replaces the prediction;
/// a prediction of the client's own (a swing, a dodge, a block) is never
/// overwritten by a server row that is not in such a state; and taking in
/// the same row twice changes nothing more than taking it in once.
pub proof fn server_owned_states_win(predicted: u8, row: PawnRow)
    ensures
        is_server_owned(row.action) ==> next_action(predicted, row) == row.action,
        !is_server_owned(row.action) && !is_server_owned(predicted) ==> next_action(
            predicted,
            row,
        ) == predicted,
        next_action(next_action(predicted, row), row) == next_action(predicted, row),
        is_server_owned(predicted) && row.action == ACTION_NONE ==> next_action(predicted, row)
            == ACTION_NONE,
{
}

/// A server row in hit-stun, death or respawn grace is always taken whole,
/// with its remaining ticks, whatever the client predicted, even when it
/// predicted the same state: the local stun, death or grace timer is
/// resynced by every such row.
pub proof fn server_owned_rows_are_adopted_with_their_ticks(predicted: u8, row: PawnRow)
    requires
        row.action == ACTION_HIT || row.action == ACTION_DEAD || row.action == ACTION_SPAWN,
    ensures
        sync_for(predicted, row) == (ActionSync::Adopt { action: row.action, ticks: row.action_ticks }),
{
}

/// The predicted action once stale states are dropped: a block whose
/// button is no longer held, or a gather while the weapon is drawn.
pub open spec fn settled_action(predicted: u8, held: u32, drawn: bool) -> u8 {
    let a = if predicted == ACTION_BLOCK && held & BTN_BLOCK == 0 {
        ACTION_NONE
    } else {
        predicted
    };
    if drawn && a == ACTION_GATHER {
        ACTION_NONE
    } else {
        a
    }
}

/// Drops a predicted block whose button was let go and a predicted gather
/// once the weapon is drawn. `held` are the buttons held now.
pub fn settle_prediction(predicted: u8, held: u32, drawn: bool) -> (settled: u8)
    ensures
        settled == settled_action(predicted, held, drawn),
        settled == predicted || settled == ACTION_NONE,
        settled != predicted <==> ((predicted == ACTION_BLOCK && held & BTN_BLOCK == 0) || (drawn
            && predicted == ACTION_GATHER)),
{
    let mut a = predicted;
    if a == ACTION_BLOCK && held & BTN_BLOCK == 0 {
        a = ACTION_NONE;
    }
    if drawn && a == ACTION_GATHER {
        a = ACTION_NONE;
    }
    a
}

/// After settling, a block stands only while its button is held, and a
/// gather never stands while the weapon is drawn.
pub proof fn settled_prediction_is_consistent(predicted: u8, held: u32, drawn: bool)
    ensures
        settled_action(predicted, held, drawn) == ACTION_BLOCK ==> held & BTN_BLOCK != 0,
        drawn ==> settled_action(predicted, held, drawn) != ACTION_GATHER,
        settled_action(settled_action(predicted, held, drawn), held, drawn) == settled_action(
            predicted,
            held,
            drawn,
        ),
{
}

/// Settling drops exactly a block whose button is up and a gather while
/// drawn: any other predicted action (a light or heavy swing, a dodge, a
/// held block, a sheathed gather) is kept whatever the buttons, and a
/// dropped action always becomes no action.
pub proof fn settling_drops_only_stale_block_and_gather(predicted: u8, held: u32, drawn: bool)
    ensures
        settled_action(predicted, held, drawn) != predicted <==> ((predicted == ACTION_BLOCK
            && held & BTN_BLOCK == 0) || (drawn && predicted == ACTION_GATHER)),
        settled_action(predicted, held, drawn) != predicted ==> settled_action(
            predicted,
            held,
            drawn,
        ) == ACTION_NONE,
{
}

/// An action the client starts on its own prediction.
#[derive(Clone, Copy, Debug, PartialEq, Eq, Structural)]
pub struct ActionStart {
    pub action: u8,
    pub loadout: u8,
    pub pending_hit: bool,
}

/// What a predicted start changes besides the action itself.
#[derive(Clone, Copy, Debug, PartialEq, Eq, Structural)]
pub struct StartCues {
    /// The predicted loadout afterwards (a gather keeps the current one).
    pub loadout: u8,
    /// Take the start's stamina (not for a gather).
    pub take_stamina: bool,
    /// A projectile leaves on release.
    pub shot: bool,
    /// Swing sound: 1 light, 2 heavy, 0 none.
    pub swing: u8,
    /// Gather sound: the gather has just begun.
    pub gather_cue: bool,
    /// Shield-raise sound: the block has just begun.
    pub block_cue: bool,
    /// Dodge roll: sound, dust and the burst step.
    pub dodge: bool,
    /// A melee strike steps in on the swing.
    pub lunge: bool,
}

/// The cues of a start, given the action predicted before it and the
/// predicted loadout.
pub open spec fn cues_for(previous: u8, predicted_loadout: u8, start: ActionStart) -> StartCues {
    let projectile = start.loadout == LOADOUT_BOW || start.loadout == LOADOUT_STAFF;
    StartCues {
        loadout: if start.action == ACTION_GATHER {
            predicted_loadout
        } else {
            start.loadout
        },
        take_stamina: start.action != ACTION_GATHER,
        shot: start.pending_hit && projectile,
        swing: if start.action == ACTION_LIGHT {
            1
        } else if start.action == ACTION_HEAVY {
            2
        } else {
            0
        },
        gather_cue: start.action == ACTION_GATHER && previous != ACTION_GATHER,
        block_cue: start.action == ACTION_BLOCK && previous != ACTION_BLOCK,
        dodge: start.action == ACTION_DODGE,
        lunge: start.action != ACTION_DODGE && start.pending_hit && !projectile,
    }
}

/// The cues of a predicted start: sounds, the shot, the loadout and
/// stamina to keep, the dodge burst and the melee step-in.
pub fn start_cues(previous: u8, predicted_loadout: u8, start: ActionStart) -> (cues: StartCues)
    ensures
        cues == cues_for(previous, predicted_loadout, start),
        forall|d: LoadoutDef|
            #![trigger is_loadout_for(start.loadout, d)]
            is_loadout_for(start.loadout, d) ==> (cues.shot <==> (start.pending_hit
                && d.is_projectile)) && (d.is_projectile ==> !cues.lunge),
{
    let gather = start.action == ACTION_GATHER;
    let projectile = loadout(start.loadout).is_projectile;
    StartCues {
        loadout: if gather {
            predicted_loadout
        } else {
            start.loadout
        },
        take_stamina: !gather,
        shot: start.pending_hit && projectile,
        swing: if start.action == ACTION_LIGHT {
            1
        } else if start.action == ACTION_HEAVY {
            2
        } else {
            0
        },
        gather_cue: gather && previous != ACTION_GATHER,
        block_cue: start.action == ACTION_BLOCK && previous != ACTION_BLOCK,
        dodge: start.action == ACTION_DODGE,
        lunge: start.action != ACTION_DODGE && start.pending_hit && !projectile,
    }
}

/// A start predicts a shot exactly when it carries a hit and its loadout
/// is a projectile loadout (bow or staff, by the loadout table), and a
/// projectile loadout never steps in like a swordsman.
pub proof fn shots_follow_the_loadout_table(
    previous: u8,
    predicted_loadout: u8,
    start: ActionStart,
    d: LoadoutDef,
)
    requires
        is_loadout_for(start.loadout, d),
    ensures
        cues_for(previous, predicted_loadout, start).shot <==> (start.pending_hit
            && d.is_projectile),
        d.is_projectile ==> !cues_for(previous, predicted_loadout, start).lunge,
        start.action != ACTION_DODGE && start.pending_hit && !d.is_projectile ==> cues_for(
            previous,
            predicted_loadout,
            start,
        ).lunge,
{
}

/// The swing sound follows the attack (1 for a light, 2 for a heavy, none
/// otherwise); the gather and shield sounds play only when that action
/// begins anew; a gather neither spends stamina nor changes the loadout,
/// and every other start takes its own loadout.
pub proof fn start_sounds_follow_the_action(previous: u8, predicted_loadout: u8, start: ActionStart)
    ensures
        cues_for(previous, predicted_loadout, start).swing == 1 <==> start.action == ACTION_LIGHT,
        cues_for(previous, predicted_loadout, start).swing == 2 <==> start.action == ACTION_HEAVY,
        cues_for(previous, predicted_loadout, start).gather_cue ==> start.action == ACTION_GATHER
            && previous != ACTION_GATHER,
        cues_for(previous, predicted_loadout, start).block_cue ==> start.action == ACTION_BLOCK
            && previous != ACTION_BLOCK,
        cues_for(previous, predicted_loadout, start).dodge <==> start.action == ACTION_DODGE,
        !cues_for(previous, predicted_loadout, start).take_stamina <==> start.action
            == ACTION_GATHER,
        cues_for(previous, predicted_loadout, start).loadout == (if start.action == ACTION_GATHER {
            predicted_loadout
        } else {
            start.loadout
        }),
{
}

/// An attack or dodge pressed since the last send that did not start:
/// flash the stamina bar.
pub fn refused_press(latched: u32) -> (b: bool)
    ensures
        b == (latched & (BTN_LIGHT | BTN_HEAVY | BTN_DODGE) != 0),
{
    latched & (BTN_LIGHT | BTN_HEAVY | BTN_DODGE) != 0
}

/// The predicted action once its ticks have run out: a block is held
/// until released, anything else ends.
pub fn expired_action(action: u8) -> (after: u8)
    ensures
        after == (if action == ACTION_BLOCK { ACTION_BLOCK } else { ACTION_NONE }),
{
    if action == ACTION_BLOCK {
        ACTION_BLOCK
    } else {
        ACTION_NONE
    }
}

/// The feet may carry the pawn: not while rolling and not in an action
/// that pins it (death among them).
pub open spec fn steps_freely(action: u8) -> bool {
    action != ACTION_DODGE && action != ACTION_DEAD && !is_move_locked(action)
}

/// Whether the pawn's feet may carry it.
pub fn can_step(action: u8) -> (b: bool)
    ensures
        b == steps_freely(action),
{
    action != ACTION_DODGE && action != ACTION_DEAD && !move_lock(action)
}

/// Whether a remote pawn's feet may carry it: alive, and `can_step`.
pub fn remote_can_step(alive: bool, action: u8) -> (b: bool)
    ensures
        b == (alive && steps_freely(action)),
{
    alive && can_step(action)
}

/// How a pawn is moving, for footsteps and stamina.
#[derive(Clone, Copy, Debug, PartialEq, Eq, Structural)]
pub enum Gait {
    Still,
    Walk,
    Sprint,
}

/// Sprinting when the sprint is ready and the feet are free, else walking
/// when the feet are free and the pawn moves, else still.
pub open spec fn gait_for(free_feet: bool, sprint_ready: bool, moving: bool) -> Gait {
    if free_feet && sprint_ready {
        Gait::Sprint
    } else if free_feet && moving {
        Gait::Walk
    } else {
        Gait::Still
    }
}

/// The gait for footsteps and sprint stamina.
pub fn gait(free_feet: bool, sprint_ready: bool, moving: bool) -> (g: Gait)
    ensures
        g == gait_for(free_feet, sprint_ready, moving),
{
    if free_feet && sprint_ready {
        Gait::Sprint
    } else if free_feet && moving {
        Gait::Walk
    } else {
        Gait::Still
    }
}

/// What a frame's gait does to stamina.
#[derive(Clone, Copy, Debug, PartialEq, Eq, Structural)]
pub enum StaminaFlow {
    /// Sprinting spends stamina.
    Drain,
    /// Anything else lets stamina come back (where the action allows it).
    Recover,
}

/// Stamina gates the sprint, not walking: only a sprint spends it.
pub open spec fn flow_for(g: Gait) -> StaminaFlow {
    if g == Gait::Sprint {
        StaminaFlow::Drain
    } else {
        StaminaFlow::Recover
    }
}

/// What a frame's gait does to stamina.
pub fn stamina_flow(g: Gait) -> (flow: StaminaFlow)
    ensures
        flow == flow_for(g),
{
    match g {
        Gait::Sprint => StaminaFlow::Drain,
        _ => StaminaFlow::Recover,
    }
}

/// Walking and standing never spend stamina, whatever the action; only a
/// free-footed pawn with the sprint ready drains it.
pub proof fn walking_costs_no_stamina(free_feet: bool, sprint_ready: bool, moving: bool)
    ensures
        flow_for(gait_for(free_feet, sprint_ready, moving)) == StaminaFlow::Drain <==> (free_feet
            && sprint_ready),
        flow_for(gait_for(free_feet, false, moving)) == StaminaFlow::Recover,
{
}

/// A pawn that is rolling, pinned by its action, or dead never walks or
/// sprints, whatever the buttons and the stick say.
pub proof fn locked_pawns_stand_still(action: u8, sprint_ready: bool, moving: bool)
    requires
        is_move_locked(action) || action == ACTION_DODGE || action == ACTION_DEAD,
    ensures
        gait_for(steps_freely(action), sprint_ready, moving) == Gait::Still,
{
}

/// Movement has no cooldown: with nothing going on, while a light attack
/// winds up, while the shield is up, in hit-stun and during the respawn
/// grace the feet stay free, so the stick moves the pawn at once.
pub proof fn walking_is_never_on_cooldown(moving: bool)
    ensures
        steps_freely(ACTION_NONE),
        steps_freely(ACTION_LIGHT),
        steps_freely(ACTION_BLOCK),
        steps_freely(ACTION_HIT),
        steps_freely(ACTION_SPAWN),
        moving ==> gait_for(steps_freely(ACTION_NONE), false, moving) == Gait::Walk,
{
}

/// The speed the local pawn moves at.
#[derive(Clone, Copy, Debug, PartialEq, Eq, Structural)]
pub enum Pace {
    Run,
    Sprint,
    Roll,
}

/// How the local pawn moves this frame.
#[derive(Clone, Copy, Debug, PartialEq, Eq, Structural)]
pub enum Locomotion {
    /// Pinned by its action: stays put (lying down when dead).
    Pinned { dead: bool },
    /// Frozen for a hit-stop: stays put, standing.
    Frozen,
    /// Moves with the stick at this pace.
    Moving { pace: Pace },
}

/// The local pawn's movement this frame: pinned by a move-locking action
/// (lying down when dead), frozen during a hit-stop, else rolling,
/// sprinting (button held with stamina to spare) or running.
pub open spec fn locomotion_for(predicted: u8, hitstop: bool, sprint_ready: bool) -> Locomotion {
    if is_move_locked(predicted) {
        Locomotion::Pinned { dead: predicted == ACTION_DEAD }
    } else if hitstop {
        Locomotion::Frozen
    } else if predicted == ACTION_DODGE {
        Locomotion::Moving { pace: Pace::Roll }
    } else if sprint_ready {
        Locomotion::Moving { pace: Pace::Sprint }
    } else {
        Locomotion::Moving { pace: Pace::Run }
    }
}

/// How the local pawn moves this frame.
pub fn locomotion(predicted: u8, hitstop: bool, sprint_ready: bool) -> (l: Locomotion)
    ensures
        l == locomotion_for(predicted, hitstop, sprint_ready),
{
    if move_lock(predicted) {
        Locomotion::Pinned { dead: predicted == ACTION_DEAD }
    } else if hitstop {
        Locomotion::Frozen
    } else if predicted == ACTION_DODGE {
        Locomotion::Moving { pace: Pace::Roll }
    } else if sprint_ready {
        Locomotion::Moving { pace: Pace::Sprint }
    } else {
        Locomotion::Moving { pace: Pace::Run }
    }
}

/// Whatever the client predicted, a server row that reports the local
/// pawn dead makes the prediction dead, and the pawn then lies still: no
/// stick, button or stamina moves it, and its feet make no steps.
pub proof fn a_reported_death_lays_the_pawn_down(
    predicted: u8,
    row: PawnRow,
    far_off: bool,
    stamina_lower: bool,
    hitstop: bool,
    sprint_ready: bool,
    moving: bool,
)
    requires
        row.action == ACTION_DEAD,
    ensures
        ({
            let after = next_action(predicted, row);
            &&& after == ACTION_DEAD
            &&& locomotion_for(after, hitstop, sprint_ready) == (Locomotion::Pinned { dead: true })
            &&& gait_for(steps_freely(after), sprint_ready, moving) == Gait::Still
        }),
{
}

/// What the predicted shot does this frame.
#[derive(Clone, Copy, Debug, PartialEq, Eq, Structural)]
pub enum ShotStep {
    /// No shot is waiting.
    Idle,
    /// The loadout shoots nothing: forget the shot.
    Cancel,
    /// Still winding up (or not an attack): wait.
    Hold,
    /// Release: spawn a bolt of this skill.
    Fire { skill: u8 },
}

/// The predicted shot's step: `waiting` says a shot is pending, and
/// `released` says the windup has reached the release tick.
pub fn predicted_shot_step(waiting: bool, loadout_id: u8, action: u8, released: bool) -> (step: ShotStep)
    ensures
        step == (if !waiting {
            ShotStep::Idle
        } else if loadout_id != LOADOUT_BOW && loadout_id != LOADOUT_STAFF {
            ShotStep::Cancel
        } else if (action != ACTION_LIGHT && action != ACTION_HEAVY) || !released {
            ShotStep::Hold
        } else {
            ShotStep::Fire { skill: if loadout_id == LOADOUT_STAFF { 2 } else { 1 } }
        }),
{
    if !waiting {
        return ShotStep::Idle;
    }
    let def = loadout(loadout_id);
    if !def.is_projectile {
        return ShotStep::Cancel;
    }
    if action != ACTION_LIGHT && action != ACTION_HEAVY {
        return ShotStep::Hold;
    }
    if !released {
        return ShotStep::Hold;
    }
    ShotStep::Fire { skill: shot_skill(loadout_id) }
}

} // verus!
