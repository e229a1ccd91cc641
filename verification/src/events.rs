//! Combat events the server logs (hits, kills, blocks, dodges, gathers,
//! guard breaks) and how a client answers each one.
use vstd::prelude::*;

verus! {

pub const EVT_HIT: u8 = 1;
pub const EVT_KILL: u8 = 2;
pub const EVT_BLOCKED: u8 = 3;
pub const EVT_DODGED: u8 = 4;
pub const EVT_GATHERED: u8 = 5;
pub const EVT_GUARD_BREAK: u8 = 6;

/// A combat event the client knows how to show.
#[derive(Clone, Copy, Debug, PartialEq, Eq, Structural)]
pub enum EventKind {
    Hit,
    Kill,
    Blocked,
    Dodged,
    Gathered,
    GuardBreak,
}

/// The event a kind code stands for.
pub open spec fn kind_of(code: u8) -> Option<EventKind> {
    if code == EVT_HIT {
        Some(EventKind::Hit)
    } else if code == EVT_KILL {
        Some(EventKind::Kill)
    } else if code == EVT_BLOCKED {
        Some(EventKind::Blocked)
    } else if code == EVT_DODGED {
        Some(EventKind::Dodged)
    } else if code == EVT_GATHERED {
        Some(EventKind::Gathered)
    } else if code == EVT_GUARD_BREAK {
        Some(EventKind::GuardBreak)
    } else {
        None
    }
}

/// The event a kind code stands for; unknown codes are ignored.
pub fn event_kind(code: u8) -> (kind: Option<EventKind>)
    ensures
        kind == kind_of(code),
{
    if code == EVT_HIT {
        Some(EventKind::Hit)
    } else if code == EVT_KILL {
        Some(EventKind::Kill)
    } else if code == EVT_BLOCKED {
        Some(EventKind::Blocked)
    } else if code == EVT_DODGED {
        Some(EventKind::Dodged)
    } else if code == EVT_GATHERED {
        Some(EventKind::Gathered)
    } else if code == EVT_GUARD_BREAK {
        Some(EventKind::GuardBreak)
    } else {
        None
    }
}

/// A spark bursts where the event happened: for every shown event but a gather.
pub fn shows_spark(code: u8) -> (b: bool)
    ensures
        b == (kind_of(code) is Some && code != EVT_GATHERED),
{
    match event_kind(code) {
        Some(EventKind::Gathered) => false,
        Some(_) => true,
        None => false,
    }
}

/// The combat-log word for an event: "hit", "kill", "blocked",
/// "dodged", "gathered" or "guard break". A hit, a kill and a gather are
/// followed in the log by their amount; unknown codes leave the log as it was.
pub open spec fn log_word_for(code: u8) -> Option<Seq<char>> {
    match kind_of(code) {
        Some(EventKind::Hit) => Some("hit"@),
        Some(EventKind::Kill) => Some("kill"@),
        Some(EventKind::Blocked) => Some("blocked"@),
        Some(EventKind::Dodged) => Some("dodged"@),
        Some(EventKind::Gathered) => Some("gathered"@),
        Some(EventKind::GuardBreak) => Some("guard break"@),
        None => None,
    }
}

/// The combat-log word for an event, if the client knows the event.
pub fn log_word(code: u8) -> (word: Option<&'static str>)
    ensures
        match word {
            Some(w) => log_word_for(code) == Some(w@),
            None => log_word_for(code) is None,
        },
{
    match event_kind(code) {
        Some(EventKind::Hit) => Some("hit"),
        Some(EventKind::Kill) => Some("kill"),
        Some(EventKind::Blocked) => Some("blocked"),
        Some(EventKind::Dodged) => Some("dodged"),
        Some(EventKind::Gathered) => Some("gathered"),
        Some(EventKind::GuardBreak) => Some("guard break"),
        None => None,
    }
}

/// Whether the log line of an event carries its amount: a hit, a kill, a gather.
pub fn log_has_amount(code: u8) -> (b: bool)
    ensures
        b == (code == EVT_HIT || code == EVT_KILL || code == EVT_GATHERED),
{
    code == EVT_HIT || code == EVT_KILL || code == EVT_GATHERED
}

/// The floating word shown over an event: "KILL", "BLOCK", "DODGE" or
/// "BREAK". A hit shows its damage and a gather its experience instead,
/// so those (and unknown codes) have no word.
pub open spec fn floater_word_for(code: u8) -> Option<Seq<char>> {
    match kind_of(code) {
        Some(EventKind::Kill) => Some("KILL"@),
        Some(EventKind::Blocked) => Some("BLOCK"@),
        Some(EventKind::Dodged) => Some("DODGE"@),
        Some(EventKind::GuardBreak) => Some("BREAK"@),
        _ => None,
    }
}

/// The floating word shown over an event, if it shows a word.
pub fn floater_word(code: u8) -> (word: Option<&'static str>)
    ensures
        match word {
            Some(w) => floater_word_for(code) == Some(w@),
            None => floater_word_for(code) is None,
        },
{
    match event_kind(code) {
        Some(EventKind::Kill) => Some("KILL"),
        Some(EventKind::Blocked) => Some("BLOCK"),
        Some(EventKind::Dodged) => Some("DODGE"),
        Some(EventKind::GuardBreak) => Some("BREAK"),
        _ => None,
    }
}

/// Every event the client knows floats something: a word, or the amount
/// of a hit or a gather.
pub proof fn every_known_event_floats_something(code: u8)
    ensures
        kind_of(code) is Some <==> (floater_word_for(code) is Some || code == EVT_HIT || code
            == EVT_GATHERED),
{
}

/// The sound an event plays.
#[derive(Clone, Copy, Debug, PartialEq, Eq, Structural)]
pub enum CombatSound {
    Hit,
    Heavy,
    Kill,
    Block,
    Dodge,
    Gather,
    Break,
}

/// The sound for an event: only events the local player is part of
/// (`involved`) sound; a hit of heavy damage (`heavy`) thuds louder.
pub open spec fn sound_for(code: u8, involved: bool, heavy: bool) -> Option<CombatSound> {
    if !involved {
        None
    } else {
        match kind_of(code) {
            Some(EventKind::Hit) => Some(if heavy { CombatSound::Heavy } else { CombatSound::Hit }),
            Some(EventKind::Kill) => Some(CombatSound::Kill),
            Some(EventKind::Blocked) => Some(CombatSound::Block),
            Some(EventKind::Dodged) => Some(CombatSound::Dodge),
            Some(EventKind::Gathered) => Some(CombatSound::Gather),
            Some(EventKind::GuardBreak) => Some(CombatSound::Break),
            None => None,
        }
    }
}

/// The sound an event plays, if any.
pub fn combat_sound(code: u8, involved: bool, heavy: bool) -> (sound: Option<CombatSound>)
    ensures
        sound == sound_for(code, involved, heavy),
{
    if !involved {
        return None;
    }
    match event_kind(code) {
        Some(EventKind::Hit) => Some(if heavy { CombatSound::Heavy } else { CombatSound::Hit }),
        Some(EventKind::Kill) => Some(CombatSound::Kill),
        Some(EventKind::Blocked) => Some(CombatSound::Block),
        Some(EventKind::Dodged) => Some(CombatSound::Dodge),
        Some(EventKind::Gathered) => Some(CombatSound::Gather),
        Some(EventKind::GuardBreak) => Some(CombatSound::Break),
        None => None,
    }
}

/// How the local player feels an event.
#[derive(Clone, Copy, Debug, PartialEq, Eq, Structural)]
pub enum HitFeedback {
    /// Nothing to feel.
    Unfelt,
    /// The local player took the blow: snap to the server position, flash, shake.
    Struck,
    /// The local player landed the blow: a small shake and a hit-stop.
    Striker,
}

/// The events that land a blow: a hit, a kill, a guard break.
pub open spec fn lands_blow(code: u8) -> bool {
    code == EVT_HIT || code == EVT_KILL || code == EVT_GUARD_BREAK
}

/// The feedback for an event: the local player feels a landed blow as
/// taken when it is the (non-dummy) target, else as dealt when it is the
/// (non-dummy) attacker.
pub open spec fn feedback_for(
    code: u8,
    me_target: bool,
    me_attacker: bool,
    target_is_dummy: bool,
    attacker_is_dummy: bool,
) -> HitFeedback {
    if !lands_blow(code) || !(me_target || me_attacker) {
        HitFeedback::Unfelt
    } else if me_target && !target_is_dummy {
        HitFeedback::Struck
    } else if me_attacker && !attacker_is_dummy {
        HitFeedback::Striker
    } else {
        HitFeedback::Unfelt
    }
}

/// How the local player feels an event.
pub fn hit_feedback(
    code: u8,
    me_target: bool,
    me_attacker: bool,
    target_is_dummy: bool,
    attacker_is_dummy: bool,
) -> (feedback: HitFeedback)
    ensures
        feedback == feedback_for(code, me_target, me_attacker, target_is_dummy, attacker_is_dummy),
        feedback != HitFeedback::Unfelt ==> code == EVT_HIT || code == EVT_KILL || code
            == EVT_GUARD_BREAK,
        feedback == HitFeedback::Struck ==> me_target && !target_is_dummy,
        feedback == HitFeedback::Striker ==> me_attacker && !attacker_is_dummy,
{
    let blow = code == EVT_HIT || code == EVT_KILL || code == EVT_GUARD_BREAK;
    if !blow || !(me_target || me_attacker) {
        HitFeedback::Unfelt
    } else if me_target && !target_is_dummy {
        HitFeedback::Struck
    } else if me_attacker && !attacker_is_dummy {
        HitFeedback::Striker
    } else {
        HitFeedback::Unfelt
    }
}

/// Only a landed blow (a hit, a kill, a guard break) is felt: a blocked,
/// dodged or gathered event never snaps, flashes or shakes the player. A
/// blow taken is felt by its (non-dummy) target, a blow dealt by its
/// (non-dummy) attacker; and a blow aimed at the local player is always
/// felt as taken.
pub proof fn only_landed_blows_are_felt(
    code: u8,
    me_target: bool,
    me_attacker: bool,
    target_is_dummy: bool,
    attacker_is_dummy: bool,
)
    ensures
        feedback_for(code, me_target, me_attacker, target_is_dummy, attacker_is_dummy)
            != HitFeedback::Unfelt ==> code == EVT_HIT || code == EVT_KILL || code
            == EVT_GUARD_BREAK,
        feedback_for(code, me_target, me_attacker, target_is_dummy, attacker_is_dummy)
            == HitFeedback::Struck ==> me_target && !target_is_dummy,
        feedback_for(code, me_target, me_attacker, target_is_dummy, attacker_is_dummy)
            == HitFeedback::Striker ==> me_attacker && !attacker_is_dummy,
        (code == EVT_HIT || code == EVT_KILL || code == EVT_GUARD_BREAK) && me_target
            && !target_is_dummy ==> feedback_for(
            code,
            me_target,
            me_attacker,
            target_is_dummy,
            attacker_is_dummy,
        ) == HitFeedback::Struck,
{
}

/// Events the local player takes no part in are silent and felt not at
/// all; a blow is never both taken and dealt; and every event the client
/// knows, and only those, is shown with a sound when the player is in it.
pub proof fn uninvolved_events_pass_quietly(
    code: u8,
    involved: bool,
    heavy: bool,
    target_is_dummy: bool,
    attacker_is_dummy: bool,
)
    ensures
        sound_for(code, false, heavy) is None,
        feedback_for(code, false, false, target_is_dummy, attacker_is_dummy)
            == HitFeedback::Unfelt,
        sound_for(code, true, heavy) is Some <==> kind_of(code) is Some,
        kind_of(code) is Some <==> 1 <= code <= 6,
{
}

} // verus!
