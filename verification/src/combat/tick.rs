//! The decisions of one tick of a `#kill` fight, as step functions from the
//! fight's flags and what the tick observed to the next flags and what to
//! do. The tick's world reads (positions, health, the target's status) and
//! its actions (movement, look, clicks) are the caller's; what each one
//! depends on is here.
use vstd::prelude::*;

verus! {

/// The fight's own flags between ticks.
#[derive(Clone, Copy, Debug, PartialEq, Eq, Structural)]
pub struct CombatTick {
    /// The target has been engaged (seen alive and in reach of a status
    /// read) at least once.
    pub engaged: bool,
    /// The fight is in its finishing stretch (the target is at or below
    /// the finisher health).
    pub finishing: bool,
    /// The bot is topping up its health by eating.
    pub topping_up: bool,
    /// The pathfinder, not the combat controller, holds the movement keys.
    pub approaching: bool,
}

/// What one tick observed, as far as its decisions go.
#[derive(Clone, Copy, Debug, PartialEq, Eq, Structural)]
pub struct CombatObservation {
    /// The task is running and names a target.
    pub running: bool,
    /// The bot is in the world, not known dead, with a known position.
    pub bot_ready: bool,
    /// The target is still in the player list.
    pub target_listed: bool,
    /// The target's position is known.
    pub target_positioned: bool,
    /// The target's combat status could be read.
    pub status_read: bool,
    /// The target is alive.
    pub target_alive: bool,
    /// The target (at its predicted position) is beyond the chase range.
    pub out_of_chase_range: bool,
    /// The target is at or below the finisher health.
    pub finishing: bool,
    /// The bot's own health asks for food.
    pub wants_food: bool,
}

/// What a tick does, before any movement or attack.
#[derive(Clone, Copy, Debug, PartialEq, Eq, Structural)]
pub enum CombatVerdict {
    /// Nothing: the task is not running, or the bot cannot act.
    Idle,
    /// The target left the player list: the fight ends at once.
    Disconnect,
    /// The target cannot be placed or read this tick: try to reacquire it.
    Unresolved,
    /// The target is dead: the fight is won.
    Eliminate,
    /// The target is out of chase range: the fight is abandoned.
    Abort,
    /// Fight this tick; eat when `eat`. The flags say what just started.
    Fight { eat: bool, newly_engaged: bool, newly_finishing: bool, started_eating: bool },
}

/// One tick's verdict and the flags after it. The checks run in order:
/// not running or not ready, target gone from the list, target not
/// placed or not readable, target dead -- each leaves the flags alone.
/// Past them the target counts as engaged; out of chase range aborts;
/// otherwise the bot fights, eating when its health asks for food unless
/// the target is being finished off.
pub open spec fn combat_step_spec(s: CombatTick, o: CombatObservation) -> (CombatTick, CombatVerdict) {
    if !o.running || !o.bot_ready {
        (s, CombatVerdict::Idle)
    } else if !o.target_listed {
        (s, CombatVerdict::Disconnect)
    } else if !o.target_positioned || !o.status_read {
        (s, CombatVerdict::Unresolved)
    } else if !o.target_alive {
        (s, CombatVerdict::Eliminate)
    } else if o.out_of_chase_range {
        (CombatTick { engaged: true, ..s }, CombatVerdict::Abort)
    } else {
        let eat = !o.finishing && o.wants_food;
        (CombatTick { engaged: true, finishing: o.finishing, topping_up: eat, ..s }, CombatVerdict::Fight {
            eat,
            newly_engaged: !s.engaged,
            newly_finishing: o.finishing && !s.finishing,
            started_eating: eat && !s.topping_up,
        })
    }
}

/// Decides one tick ([`combat_step_spec`]). A bot finishing off its target
/// never stops to eat.
pub fn combat_step(s: &CombatTick, o: &CombatObservation) -> (r: (CombatTick, CombatVerdict))
    ensures
        r == combat_step_spec(*s, *o),
        r.1 matches CombatVerdict::Fight { eat, .. } ==> !(eat && o.finishing),
{
    if !o.running || !o.bot_ready {
        return (*s, CombatVerdict::Idle);
    }
    if !o.target_listed {
        return (*s, CombatVerdict::Disconnect);
    }
    if !o.target_positioned || !o.status_read {
        return (*s, CombatVerdict::Unresolved);
    }
    if !o.target_alive {
        return (*s, CombatVerdict::Eliminate);
    }
    if o.out_of_chase_range {
        return (CombatTick { engaged: true, ..*s }, CombatVerdict::Abort);
    }
    let eat = !o.finishing && o.wants_food;
    (CombatTick { engaged: true, finishing: o.finishing, topping_up: eat, ..*s }, CombatVerdict::Fight {
        eat,
        newly_engaged: !s.engaged,
        newly_finishing: o.finishing && !s.finishing,
        started_eating: eat && !s.topping_up,
    })
}

/// What the fight's movement sees in a tick it fights.
#[derive(Clone, Copy, Debug, PartialEq, Eq, Structural)]
pub struct MovementObservation {
    /// The pathfinder should drive this tick (see
    /// [`crate::combat::movement::pathfinder_should_drive`]).
    pub pathfinder_drives: bool,
    /// A Wind Charge self-launch is under way.
    pub wind_launch_active: bool,
    /// A bite holds the hand and blocks combat.
    pub eating_blocked: bool,
    /// The configuration lets the bot back off while eating.
    pub allow_retreat_while_eating: bool,
}

/// How a fighting tick moves.
#[derive(Clone, Copy, Debug, PartialEq, Eq, Structural)]
pub enum MovementVerdict {
    /// The pathfinder closes the distance; `hand_over` on the tick it takes
    /// over (the combat keys are released first).
    Pathfind { hand_over: bool },
    /// Hold still for a self-launch; `take_back` on the tick the
    /// pathfinder is stopped.
    HoldStill { take_back: bool },
    /// The combat controller moves; `take_back` on the tick the pathfinder
    /// is stopped. Sprinting only while nothing claims the hand; backing
    /// off only while eating, when allowed.
    Steer { take_back: bool, sprint_allowed: bool, retreat: bool },
}

/// One fighting tick's movement and the flags after it: exactly one of
/// the pathfinder and the combat controller drives.
pub open spec fn movement_step_spec(s: CombatTick, o: MovementObservation) -> (CombatTick, MovementVerdict) {
    if o.pathfinder_drives {
        (CombatTick { approaching: true, ..s }, MovementVerdict::Pathfind { hand_over: !s.approaching })
    } else if o.wind_launch_active {
        (CombatTick { approaching: false, ..s }, MovementVerdict::HoldStill { take_back: s.approaching })
    } else {
        (CombatTick { approaching: false, ..s }, MovementVerdict::Steer {
            take_back: s.approaching,
            sprint_allowed: !o.eating_blocked,
            retreat: o.allow_retreat_while_eating && o.eating_blocked,
        })
    }
}

/// Decides a fighting tick's movement ([`movement_step_spec`]).
pub fn movement_step(s: &CombatTick, o: &MovementObservation) -> (r: (CombatTick, MovementVerdict))
    ensures
        r == movement_step_spec(*s, *o),
        r.0.approaching == o.pathfinder_drives,
        r.1 matches MovementVerdict::Steer { retreat, .. } ==> retreat == (o.eating_blocked && o.allow_retreat_while_eating),
{
    if o.pathfinder_drives {
        return (CombatTick { approaching: true, ..*s }, MovementVerdict::Pathfind { hand_over: !s.approaching });
    }
    if o.wind_launch_active {
        return (CombatTick { approaching: false, ..*s }, MovementVerdict::HoldStill { take_back: s.approaching });
    }
    (CombatTick { approaching: false, ..*s }, MovementVerdict::Steer {
        take_back: s.approaching,
        sprint_allowed: !o.eating_blocked,
        retreat: o.allow_retreat_while_eating && o.eating_blocked,
    })
}

impl CombatTick {
    /// The flags of a fight about to start: nothing engaged, finished,
    /// eaten or handed over.
    pub fn fresh() -> (t: Self)
        ensures
            t == (CombatTick { engaged: false, finishing: false, topping_up: false, approaching: false }),
    {
        CombatTick { engaged: false, finishing: false, topping_up: false, approaching: false }
    }
}

/// Control changes hands only when it must: a fighting tick reports a
/// hand-over to the pathfinder exactly when the pathfinder was not driving
/// before and is now, and a take-back exactly when it was and no longer is.
pub proof fn lemma_one_driver(s: CombatTick, o: MovementObservation)
    ensures
        ({
            let (n, v) = movement_step_spec(s, o);
            &&& (v matches MovementVerdict::Pathfind { hand_over } ==> hand_over == (!s.approaching && n.approaching))
            &&& (v matches MovementVerdict::HoldStill { take_back } ==> take_back == (s.approaching && !n.approaching))
            &&& (v matches MovementVerdict::Steer { take_back, .. } ==> take_back == (s.approaching && !n.approaching))
        }),
{
}

/// The bot backs off only while a bite blocks combat and the
/// configuration allows it, and then always: in ordinary fighting (no bite
/// under way) a steering tick never retreats, whatever the configuration,
/// and it may sprint. While a bite blocks combat it never sprints.
pub proof fn lemma_retreat_only_while_eating(s: CombatTick, o: MovementObservation)
    ensures
        ({
            let (_, v) = movement_step_spec(s, o);
            v matches MovementVerdict::Steer { retreat, sprint_allowed, .. } ==> {
                &&& retreat ==> o.eating_blocked
                &&& retreat ==> o.allow_retreat_while_eating
                &&& o.eating_blocked && o.allow_retreat_while_eating ==> retreat
                &&& !o.eating_blocked ==> !retreat && sprint_allowed
                &&& o.eating_blocked ==> !sprint_allowed
            }
        }),
        !o.pathfinder_drives && !o.wind_launch_active ==> movement_step_spec(s, o).1 is Steer,
{
}

/// What a tick's verdict tells of what it saw: it idles exactly when the
/// task is not running or the bot cannot act; it fights only when the
/// target is listed, placed, readable, alive and within chase range; a
/// fighting tick eats exactly when the bot's health asks for food and the
/// target is not being finished off, and each "newly" flag reports exactly
/// a flag that went from off to on; only a tick that reached the target
/// (fighting or aborting) changes the flags, and it marks the target
/// engaged; the movement hand-over flag is never touched here.
pub proof fn lemma_combat_verdicts(s: CombatTick, o: CombatObservation)
    ensures
        ({
            let (n, v) = combat_step_spec(s, o);
            &&& (v is Idle) == (!o.running || !o.bot_ready)
            &&& v is Disconnect ==> o.running && o.bot_ready && !o.target_listed
            &&& v is Eliminate ==> o.target_listed && o.target_positioned && o.status_read && !o.target_alive
            &&& v is Abort ==> o.target_alive && o.out_of_chase_range
            &&& v is Fight ==> o.running && o.bot_ready && o.target_listed && o.target_positioned && o.status_read
                && o.target_alive && !o.out_of_chase_range
            &&& !(v is Fight) && !(v is Abort) ==> n == s
            &&& (v is Fight || v is Abort) ==> n.engaged
            &&& n.approaching == s.approaching
            &&& (v matches CombatVerdict::Fight { eat, newly_engaged, newly_finishing, started_eating } ==> {
                &&& eat == (o.wants_food && !o.finishing)
                &&& n.topping_up == eat
                &&& n.finishing == o.finishing
                &&& newly_engaged == (!s.engaged && n.engaged)
                &&& newly_finishing == (!s.finishing && n.finishing)
                &&& started_eating == (!s.topping_up && n.topping_up)
            })
        }),
{
}

} // verus!
