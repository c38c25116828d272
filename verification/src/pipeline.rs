//! The event pipeline: deterministic conflict resolution and commit.
//!
//! All events proposed in one tick are applied in the order the agents
//! were evaluated, which is the roster order and therefore deterministic.
//! Ownership claims are resolved immediately against the current
//! ball-ownership state: the first valid claim of a tick wins, and every
//! later claim of the same tick is dropped and logged as a resolved
//! conflict, so ball ownership changes at most once per tick and never to
//! more than one agent.  Each committed event mutates only its declared
//! scope.  After the events, stamina decay is applied uniformly.

use vstd::prelude::*;

use crate::events::PlayerEvent;
use crate::geometry::{clamp_spec, in_play_bounds, Vec2};
use crate::match_state::{
    roster_has_id, CommitOutcome, CommittedEvent, MatchState,
};
use crate::player::MatchPlayer;

verus! {

/// Uniform per-tick stamina decay, on the 0..=10_000 condition scale.
pub const STAMINA_DECAY_PER_TICK: u32 = 2;

/// The identity claiming ball ownership through `e`, if `e` is an
/// ownership claim.
pub open spec fn ownership_claim_of(e: PlayerEvent) -> Option<u32> {
    match e {
        PlayerEvent::GainBall(a) => Some(a),
        PlayerEvent::CaughtBall(a) => Some(a),
        PlayerEvent::ClaimBall(a) => Some(a),
        _ => None,
    }
}

/// The acting agent of an event.
pub open spec fn event_actor(e: PlayerEvent) -> u32 {
    match e {
        PlayerEvent::PassTo(m) => m.from_player_id,
        PlayerEvent::Shoot(m) => m.from_player_id,
        PlayerEvent::GainBall(a) => a,
        PlayerEvent::CommitFoul(a) => a,
        PlayerEvent::MovePlayer(a, _) => a,
        PlayerEvent::CaughtBall(a) => a,
        PlayerEvent::ClaimBall(a) => a,
    }
}

/// The flight cap of a played ball, in units per tick: one unit per
/// fifty per-mille of force, and never more than fifty.
pub open spec fn throw_cap_spec(force: u32) -> int {
    let c = 1 + force / 50;
    if c > 50 {
        50int
    } else {
        c as int
    }
}

/// The velocity a played ball leaves with: the offset towards the target,
/// clamped per axis to the force-derived flight cap.
pub open spec fn throw_velocity_spec(from: Vec2, target: Vec2, force: u32) -> Vec2 {
    Vec2 {
        x: clamp_spec(target.x - from.x, throw_cap_spec(force)) as i64,
        y: clamp_spec(target.y - from.y, throw_cap_spec(force)) as i64,
    }
}

/// The target and force of `e`, if `e` plays the ball.
pub open spec fn throw_of(e: PlayerEvent) -> Option<(Vec2, u32)> {
    match e {
        PlayerEvent::PassTo(m) => Some((m.pass_target, m.pass_force)),
        PlayerEvent::Shoot(m) => Some((m.shot_target, m.shot_force)),
        _ => None,
    }
}

/// The target and force of the last applied pass or shot of a tick, if
/// any was applied.
pub open spec fn last_throw(
    players: Seq<MatchPlayer>,
    events: Seq<PlayerEvent>,
    owner0: Option<u32>,
) -> Option<(Vec2, u32)>
    decreases events.len(),
{
    if events.len() == 0 {
        None
    } else {
        let k = events.len() - 1;
        let s = ownership_after(players, events.take(k), owner0, false);
        if event_applies(players, s.0, s.1, events[k]) && throw_of(events[k]) is Some {
            throw_of(events[k])
        } else {
            last_throw(players, events.drop_last(), owner0)
        }
    }
}

/// Extending a tick's events by one steps the last-throw scan once.
pub proof fn lemma_last_throw_step(
    players: Seq<MatchPlayer>,
    events: Seq<PlayerEvent>,
    owner0: Option<u32>,
    k: int,
)
    requires
        0 <= k < events.len(),
    ensures
        last_throw(players, events.take(k + 1), owner0) == ({
            let s = ownership_after(players, events.take(k), owner0, false);
            if event_applies(players, s.0, s.1, events[k]) && throw_of(events[k]) is Some {
                throw_of(events[k])
            } else {
                last_throw(players, events.take(k), owner0)
            }
        }),
{
    let ext = events.take(k + 1);
    assert(ext.len() == k + 1);
    assert(ext[k] == events[k]);
    assert(ext.take(k) =~= events.take(k));
    assert(ext.drop_last() =~= events.take(k));
}

/// Whether `e` is applied against the pre-state `(owner, claimed)`: a
/// claim needs the tick's ownership still unclaimed and a roster actor; a
/// pass or shot must come from the current owner; a position override
/// needs a roster actor and an in-band point; a foul needs a roster
/// actor.
pub open spec fn event_applies(
    players: Seq<MatchPlayer>,
    owner: Option<u32>,
    claimed: bool,
    e: PlayerEvent,
) -> bool {
    match ownership_claim_of(e) {
        Some(a) => !claimed && roster_has_id(players, a),
        None => match e {
            PlayerEvent::PassTo(m) => owner == Some(m.from_player_id),
            PlayerEvent::Shoot(m) => owner == Some(m.from_player_id),
            PlayerEvent::MovePlayer(a, p) => roster_has_id(players, a) && in_play_bounds(p),
            PlayerEvent::CommitFoul(a) => roster_has_id(players, a),
            _ => false,
        },
    }
}

/// The ball-ownership state after one event: an applied claim takes
/// exclusive ownership and closes the tick for further claims; an applied
/// pass or shot releases the ball.
pub open spec fn ownership_step(
    players: Seq<MatchPlayer>,
    owner: Option<u32>,
    claimed: bool,
    e: PlayerEvent,
) -> (Option<u32>, bool) {
    if event_applies(players, owner, claimed, e) {
        match ownership_claim_of(e) {
            Some(a) => (Some(a), true),
            None => match e {
                PlayerEvent::PassTo(m) => (None::<u32>, claimed),
                PlayerEvent::Shoot(m) => (None::<u32>, claimed),
                _ => (owner, claimed),
            },
        }
    } else {
        (owner, claimed)
    }
}

/// The ball-ownership state after a sequence of events.
pub open spec fn ownership_after(
    players: Seq<MatchPlayer>,
    events: Seq<PlayerEvent>,
    owner: Option<u32>,
    claimed: bool,
) -> (Option<u32>, bool)
    decreases events.len(),
{
    if events.len() == 0 {
        (owner, claimed)
    } else {
        let s = ownership_step(players, owner, claimed, events[0]);
        ownership_after(players, events.drop_first(), s.0, s.1)
    }
}

/// Appending one event to a fold steps the fold once.
pub proof fn lemma_ownership_push(
    players: Seq<MatchPlayer>,
    events: Seq<PlayerEvent>,
    e: PlayerEvent,
    owner: Option<u32>,
    claimed: bool,
)
    ensures
        ownership_after(players, events.push(e), owner, claimed) == ({
            let s = ownership_after(players, events, owner, claimed);
            ownership_step(players, s.0, s.1, e)
        }),
    decreases events.len(),
{
    if events.len() == 0 {
        assert(events.push(e).len() == 1);
        assert(events.push(e)[0] == e);
        assert(events.push(e).drop_first() =~= Seq::<PlayerEvent>::empty());
        let s1 = ownership_step(players, owner, claimed, e);
        assert(ownership_after(players, events.push(e), owner, claimed) == ownership_after(
            players,
            events.push(e).drop_first(),
            s1.0,
            s1.1,
        ));
        assert(ownership_after(players, events.push(e).drop_first(), s1.0, s1.1) == s1);
        assert(ownership_after(players, events, owner, claimed) == (owner, claimed));
    } else {
        let s = ownership_step(players, owner, claimed, events[0]);
        assert(events.push(e)[0] == events[0]);
        assert(events.push(e).drop_first() =~= events.drop_first().push(e));
        lemma_ownership_push(players, events.drop_first(), e, s.0, s.1);
        assert(ownership_after(players, events.push(e), owner, claimed) == ownership_after(
            players,
            events.drop_first().push(e),
            s.0,
            s.1,
        ));
        assert(ownership_after(players, events, owner, claimed) == ownership_after(
            players,
            events.drop_first(),
            s.0,
            s.1,
        ));
    }
}

/// The ownership outcome (`owner`, `tick closed for claims`) before the
/// `k`-th of the tick's events.
pub open spec fn ownership_before(
    players: Seq<MatchPlayer>,
    events: Seq<PlayerEvent>,
    owner0: Option<u32>,
    k: int,
) -> (Option<u32>, bool) {
    ownership_after(players, events.take(k), owner0, false)
}

/// Whether the `k`-th of the tick's events commits or is dropped as a
/// resolved conflict.
pub open spec fn outcome_at(
    players: Seq<MatchPlayer>,
    events: Seq<PlayerEvent>,
    owner0: Option<u32>,
    k: int,
) -> CommitOutcome {
    let s = ownership_before(players, events, owner0, k);
    if event_applies(players, s.0, s.1, events[k]) {
        CommitOutcome::Applied
    } else {
        CommitOutcome::ResolvedConflict
    }
}

/// Ball ownership is exclusive: after any commit, two roster entries that
/// both hold the ball are the same entry, so exactly one or zero agents
/// own the ball.
pub proof fn lemma_at_most_one_owner(state: MatchState)
    requires
        state.well_formed(),
    ensures
        forall|i: int, j: int|
            0 <= i < state.players@.len() && 0 <= j < state.players@.len() && state.ball.owner
                == Some((#[trigger] state.players@[i]).id) && state.ball.owner == Some(
                (#[trigger] state.players@[j]).id,
            ) ==> i == j,
{
}

/// Two agents proposing to gain the ball in the same tick: the first
/// claim commits and takes ownership, the second is recorded as a
/// resolved conflict and does not change ownership again.
pub proof fn lemma_gain_ball_conflict(
    players: Seq<MatchPlayer>,
    a: u32,
    b: u32,
    owner0: Option<u32>,
)
    requires
        roster_has_id(players, a),
        roster_has_id(players, b),
    ensures
        ownership_after(
            players,
            seq![PlayerEvent::GainBall(a), PlayerEvent::GainBall(b)],
            owner0,
            false,
        ).0 == Some(a),
        outcome_at(
            players,
            seq![PlayerEvent::GainBall(a), PlayerEvent::GainBall(b)],
            owner0,
            0,
        ) == CommitOutcome::Applied,
        outcome_at(
            players,
            seq![PlayerEvent::GainBall(a), PlayerEvent::GainBall(b)],
            owner0,
            1,
        ) == CommitOutcome::ResolvedConflict,
{
    let events = seq![PlayerEvent::GainBall(a), PlayerEvent::GainBall(b)];
    let tail = seq![PlayerEvent::GainBall(b)];
    let single = seq![PlayerEvent::GainBall(a)];
    assert(events[0] == PlayerEvent::GainBall(a));
    assert(events.drop_first() =~= tail);
    assert(tail[0] == PlayerEvent::GainBall(b));
    assert(tail.drop_first() =~= Seq::<PlayerEvent>::empty());
    let s1 = ownership_step(players, owner0, false, events[0]);
    assert(s1 == (Some(a), true));
    assert(ownership_after(players, events, owner0, false) == ownership_after(
        players,
        tail,
        s1.0,
        s1.1,
    ));
    let s2 = ownership_step(players, Some(a), true, tail[0]);
    assert(!event_applies(players, Some(a), true, tail[0]));
    assert(s2 == (Some(a), true));
    assert(ownership_after(players, tail, s1.0, s1.1) == ownership_after(
        players,
        tail.drop_first(),
        s2.0,
        s2.1,
    ));
    assert(ownership_after(players, tail.drop_first(), s2.0, s2.1) == (Some(a), true));
    assert(events.take(0) =~= Seq::<PlayerEvent>::empty());
    assert(events.take(1) =~= single);
    assert(ownership_before(players, events, owner0, 0) == (owner0, false));
    assert(single[0] == PlayerEvent::GainBall(a));
    assert(single.drop_first() =~= Seq::<PlayerEvent>::empty());
    assert(ownership_after(players, single, owner0, false) == ownership_after(
        players,
        single.drop_first(),
        s1.0,
        s1.1,
    ));
    assert(ownership_after(players, single.drop_first(), s1.0, s1.1) == (Some(a), true));
    assert(ownership_before(players, events, owner0, 1) == (Some(a), true));
    assert(!event_applies(players, Some(a), true, events[1]));
}

/// The ownership fold reads the roster only through the identities it
/// accepts: two rosters accepting the same identities fold alike.
pub proof fn lemma_fold_roster_invariant(
    p1: Seq<MatchPlayer>,
    p2: Seq<MatchPlayer>,
    events: Seq<PlayerEvent>,
    owner: Option<u32>,
    claimed: bool,
)
    requires
        forall|a: u32| #[trigger] roster_has_id(p1, a) <==> roster_has_id(p2, a),
    ensures
        ownership_after(p1, events, owner, claimed) == ownership_after(p2, events, owner, claimed),
    decreases events.len(),
{
    if events.len() > 0 {
        assert(event_applies(p1, owner, claimed, events[0]) == event_applies(
            p2,
            owner,
            claimed,
            events[0],
        ));
        let s1 = ownership_step(p1, owner, claimed, events[0]);
        let s2 = ownership_step(p2, owner, claimed, events[0]);
        assert(s1 == s2);
        lemma_fold_roster_invariant(p1, p2, events.drop_first(), s1.0, s1.1);
    }
}

/// Commit outcomes, too, read the roster only through the identities it
/// accepts.
pub proof fn lemma_outcome_roster_invariant(
    p1: Seq<MatchPlayer>,
    p2: Seq<MatchPlayer>,
    events: Seq<PlayerEvent>,
    owner0: Option<u32>,
    k: int,
)
    requires
        forall|a: u32| #[trigger] roster_has_id(p1, a) <==> roster_has_id(p2, a),
        0 <= k < events.len(),
    ensures
        outcome_at(p1, events, owner0, k) == outcome_at(p2, events, owner0, k),
{
    lemma_fold_roster_invariant(p1, p2, events.take(k), owner0, false);
    let s = ownership_before(p1, events, owner0, k);
    assert(event_applies(p1, s.0, s.1, events[k]) == event_applies(p2, s.0, s.1, events[k]));
}

/// The identities and validity of a roster survive a commit: positions
/// and statistics may change, everything identifying stays.
pub open spec fn roster_shape_kept(old_players: Seq<MatchPlayer>, new_players: Seq<MatchPlayer>) -> bool {
    &&& new_players.len() == old_players.len()
    &&& forall|i: int|
        0 <= i < old_players.len() ==> (#[trigger] new_players[i]).id == old_players[i].id
            && new_players[i].side == old_players[i].side && new_players[i].state
            == old_players[i].state && new_players[i].condition == old_players[i].condition
            && new_players[i].valid()
}

/// Commit every event proposed this tick, in proposal order.
///
/// The committed log grows by exactly one timestamped entry per proposal,
/// in order; ball ownership afterwards is the fold of the proposals over
/// the pre-state, so the first valid claim of the tick wins and later
/// claims are recorded as resolved conflicts without touching ownership
/// again.
pub fn commit_events(state: &mut MatchState, proposals: &Vec<PlayerEvent>)
    requires
        old(state).well_formed(),
    ensures
        final(state).well_formed(),
        roster_shape_kept(old(state).players@, final(state).players@),
        final(state).ball.owner == ownership_after(
            old(state).players@,
            proposals@,
            old(state).ball.owner,
            false,
        ).0,
        final(state).ball.position == old(state).ball.position,
        final(state).ball.velocity == ({
            match last_throw(old(state).players@, proposals@, old(state).ball.owner) {
                Some((target, force)) => throw_velocity_spec(
                    old(state).ball.position,
                    target,
                    force,
                ),
                None => old(state).ball.velocity,
            }
        }),
        final(state).event_log@.len() == old(state).event_log@.len() + proposals@.len(),
        final(state).event_log@.take(old(state).event_log@.len() as int) == old(
            state,
        ).event_log@,
        forall|k: int|
            0 <= k < proposals@.len() ==> {
                let entry = #[trigger] final(state).event_log@[old(state).event_log@.len() + k];
                &&& entry.event == proposals@[k]
                &&& entry.time == old(state).time
                &&& entry.outcome == outcome_at(
                    old(state).players@,
                    proposals@,
                    old(state).ball.owner,
                    k,
                )
            },
        final(state).time == old(state).time,
        final(state).period == old(state).period,
        final(state).score == old(state).score,
        final(state).field_size == old(state).field_size,
        final(state).goal_positions == old(state).goal_positions,
    {
        let ghost players0 = state.players@;
        let ghost owner0 = state.ball.owner;
        let ghost log0 = state.event_log@;
        let mut claimed: bool = false;
        let mut k: usize = 0;
        while k < proposals.len()
            invariant
                k <= proposals@.len(),
                state.well_formed(),
                players0 == old(state).players@,
                owner0 == old(state).ball.owner,
                log0 == old(state).event_log@,
                roster_shape_kept(players0, state.players@),
                (state.ball.owner, claimed) == ownership_after(
                    players0,
                    proposals@.take(k as int),
                    owner0,
                    false,
                ),
                state.event_log@.len() == log0.len() + k,
                state.event_log@.take(log0.len() as int) == log0,
                forall|j: int|
                    0 <= j < k ==> {
                        let entry = #[trigger] state.event_log@[log0.len() + j];
                        &&& entry.event == proposals@[j]
                        &&& entry.time == old(state).time
                        &&& entry.outcome == outcome_at(players0, proposals@, owner0, j)
                    },
                state.ball.position == old(state).ball.position,
                state.ball.velocity == ({
                    match last_throw(players0, proposals@.take(k as int), owner0) {
                        Some((target, force)) => throw_velocity_spec(
                            old(state).ball.position,
                            target,
                            force,
                        ),
                        None => old(state).ball.velocity,
                    }
                }),
                state.time == old(state).time,
                state.period == old(state).period,
                state.score == old(state).score,
                state.field_size == old(state).field_size,
                state.goal_positions == old(state).goal_positions,
            decreases proposals@.len() - k,
        {
            let e = proposals[k];
            proof {
                assert(proposals@.take(k + 1) =~= proposals@.take(k as int).push(proposals@[
                    k as int]));
                lemma_ownership_push(
                    players0,
                    proposals@.take(k as int),
                    proposals@[k as int],
                    owner0,
                    false,
                );
                lemma_last_throw_step(players0, proposals@, owner0, k as int);
            }
            let applied = apply_one(state, e, claimed, Ghost(players0));
            if applied {
                match ownership_claim_of_exec(&e) {
                    Some(_) => {
                        claimed = true;
                    },
                    None => {},
                }
            }
            let entry = CommittedEvent {
                time: state.time,
                event: e,
                outcome: if applied {
                    CommitOutcome::Applied
                } else {
                    CommitOutcome::ResolvedConflict
                },
            };
            state.event_log.push(entry);
            proof {
                assert(state.event_log@.take(log0.len() as int) =~= log0);
            }
            k += 1;
        }
        proof {
            assert(proposals@.take(proposals@.len() as int) =~= proposals@);
        }
    }

/// Exec mirror of [`ownership_claim_of`].
fn ownership_claim_of_exec(e: &PlayerEvent) -> (r: Option<u32>)
    ensures
        r == ownership_claim_of(*e),
{
    match e {
        PlayerEvent::GainBall(a) => Some(*a),
        PlayerEvent::CaughtBall(a) => Some(*a),
        PlayerEvent::ClaimBall(a) => Some(*a),
        _ => None,
    }
}

/// Apply one event against the current state; returns whether it applied.
///
/// An applied event mutates exactly its declared scope: a claim sets the
/// ball owner, a pass or shot releases the ball and records the passer's
/// or shooter's statistic, a position override moves one player, a foul
/// records the offender's statistic.
fn apply_one(state: &mut MatchState, e: PlayerEvent, claimed: bool, Ghost(players0): Ghost<
    Seq<MatchPlayer>,
>) -> (applied: bool)
    requires
        old(state).well_formed(),
        roster_shape_kept(players0, old(state).players@),
    ensures
        final(state).well_formed(),
        roster_shape_kept(players0, final(state).players@),
        applied == event_applies(players0, old(state).ball.owner, claimed, e),
        (final(state).ball.owner, claimed) == ({
            let s = ownership_step(players0, old(state).ball.owner, claimed, e);
            (s.0, claimed)
        }),
        final(state).ball.position == old(state).ball.position,
        final(state).ball.velocity == ({
            match throw_of(e) {
                Some((target, force)) => if event_applies(
                    players0,
                    old(state).ball.owner,
                    claimed,
                    e,
                ) {
                    throw_velocity_spec(old(state).ball.position, target, force)
                } else {
                    old(state).ball.velocity
                },
                None => old(state).ball.velocity,
            }
        }),
        final(state).event_log == old(state).event_log,
        final(state).time == old(state).time,
        final(state).period == old(state).period,
        final(state).score == old(state).score,
        final(state).field_size == old(state).field_size,
        final(state).goal_positions == old(state).goal_positions,
{
    proof {
        assert forall|a: u32| roster_has_id(players0, a) implies roster_has_id(
            state.players@,
            a,
        ) by {
            let i = choose|i: int| 0 <= i < players0.len() && players0[i].id == a;
            assert(state.players@[i].id == a);
        }
        assert forall|a: u32| roster_has_id(state.players@, a) implies roster_has_id(
            players0,
            a,
        ) by {
            let i = choose|i: int| 0 <= i < state.players@.len() && state.players@[i].id == a;
            assert(players0[i].id == a);
        }
    }
    match e {
        PlayerEvent::GainBall(a) => claim_ball(state, a, claimed),
        PlayerEvent::CaughtBall(a) => claim_ball(state, a, claimed),
        PlayerEvent::ClaimBall(a) => claim_ball(state, a, claimed),
        PlayerEvent::PassTo(m) => {
            let owns = match state.ball.owner {
                Some(o) => o == m.from_player_id,
                None => false,
            };
            if owns {
                state.ball.owner = None;
                state.ball.velocity = throw_velocity(
                    state.ball.position,
                    m.pass_target,
                    m.pass_force,
                );
                record_pass(state, m.from_player_id);
                true
            } else {
                false
            }
        },
        PlayerEvent::Shoot(m) => {
            let owns = match state.ball.owner {
                Some(o) => o == m.from_player_id,
                None => false,
            };
            if owns {
                state.ball.owner = None;
                state.ball.velocity = throw_velocity(
                    state.ball.position,
                    m.shot_target,
                    m.shot_force,
                );
                record_shot(state, m.from_player_id);
                true
            } else {
                false
            }
        },
        PlayerEvent::MovePlayer(a, p) => {
            let in_band = -100_000 <= p.x && p.x <= 100_000 && -100_000 <= p.y && p.y <= 100_000;
            match state.index_of(a) {
                Some(i) => {
                    if in_band {
                        let mut moved = state.players[i];
                        moved.position = p;
                        state.players.set(i, moved);
                        proof {
                            let w = choose|w: int|
                                0 <= w < players0.len() && players0[w].id == a;
                            assert(state.players@[w].id == a);
                            assert forall|a2: u32|
                                roster_has_id(old(state).players@, a2) implies roster_has_id(
                                state.players@,
                                a2,
                            ) by {
                                let v = choose|v: int|
                                    0 <= v < old(state).players@.len() && old(
                                        state,
                                    ).players@[v].id == a2;
                                assert(state.players@[v].id == a2);
                            }
                        }
                        true
                    } else {
                        false
                    }
                },
                None => false,
            }
        },
        PlayerEvent::CommitFoul(a) => {
            match state.index_of(a) {
                Some(i) => {
                    let mut offender = state.players[i];
                    if offender.statistics.fouls < u32::MAX {
                        offender.statistics.fouls = offender.statistics.fouls + 1;
                    }
                    state.players.set(i, offender);
                    proof {
                        let w = choose|w: int| 0 <= w < players0.len() && players0[w].id == a;
                        assert(state.players@[w].id == a);
                        assert forall|a2: u32|
                            roster_has_id(old(state).players@, a2) implies roster_has_id(
                            state.players@,
                            a2,
                        ) by {
                            let v = choose|v: int|
                                0 <= v < old(state).players@.len() && old(state).players@[v].id
                                    == a2;
                            assert(state.players@[v].id == a2);
                        }
                    }
                    true
                },
                None => false,
            }
        },
    }
}

/// Take exclusive ownership of the ball for `a`, unless the tick is
/// already closed for claims or `a` is off the roster.
fn claim_ball(state: &mut MatchState, a: u32, claimed: bool) -> (applied: bool)
    requires
        old(state).well_formed(),
    ensures
        final(state).well_formed(),
        applied == (!claimed && roster_has_id(old(state).players@, a)),
        applied ==> final(state).ball.owner == Some(a),
        !applied ==> final(state).ball.owner == old(state).ball.owner,
        final(state).players == old(state).players,
        final(state).ball.position == old(state).ball.position,
        final(state).ball.velocity == old(state).ball.velocity,
        final(state).event_log == old(state).event_log,
        final(state).time == old(state).time,
        final(state).period == old(state).period,
        final(state).score == old(state).score,
        final(state).field_size == old(state).field_size,
        final(state).goal_positions == old(state).goal_positions,
{
    if claimed {
        return false;
    }
    match state.index_of(a) {
        Some(_) => {
            state.ball.owner = Some(a);
            true
        },
        None => false,
    }
}

/// Record a completed pass in the passer's statistics.
fn record_pass(state: &mut MatchState, a: u32)
    requires
        old(state).well_formed(),
    ensures
        final(state).well_formed(),
        roster_shape_kept(old(state).players@, final(state).players@),
        final(state).ball == old(state).ball,
        final(state).event_log == old(state).event_log,
        final(state).time == old(state).time,
        final(state).period == old(state).period,
        final(state).score == old(state).score,
        final(state).field_size == old(state).field_size,
        final(state).goal_positions == old(state).goal_positions,
{
    match state.index_of(a) {
        Some(i) => {
            let mut passer = state.players[i];
            if passer.statistics.passes < u32::MAX {
                passer.statistics.passes = passer.statistics.passes + 1;
            }
            state.players.set(i, passer);
            proof {
                assert(forall|w: int|
                    0 <= w < old(state).players@.len() && w != i ==> state.players@[w] == old(
                        state,
                    ).players@[w]);
                assert(forall|a2: u32|
                    roster_has_id(old(state).players@, a2) ==> roster_has_id(
                        state.players@,
                        a2,
                    )) by {
                    assert forall|a2: u32|
                        roster_has_id(old(state).players@, a2) implies roster_has_id(
                        state.players@,
                        a2,
                    ) by {
                        let w = choose|w: int|
                            0 <= w < old(state).players@.len() && old(state).players@[w].id == a2;
                        assert(state.players@[w].id == a2);
                    }
                };
            }
        },
        None => {},
    }
}

/// Record an attempted shot in the shooter's statistics.
fn record_shot(state: &mut MatchState, a: u32)
    requires
        old(state).well_formed(),
    ensures
        final(state).well_formed(),
        roster_shape_kept(old(state).players@, final(state).players@),
        final(state).ball == old(state).ball,
        final(state).event_log == old(state).event_log,
        final(state).time == old(state).time,
        final(state).period == old(state).period,
        final(state).score == old(state).score,
        final(state).field_size == old(state).field_size,
        final(state).goal_positions == old(state).goal_positions,
{
    match state.index_of(a) {
        Some(i) => {
            let mut shooter = state.players[i];
            if shooter.statistics.shots < u32::MAX {
                shooter.statistics.shots = shooter.statistics.shots + 1;
            }
            state.players.set(i, shooter);
            proof {
                assert(forall|a2: u32|
                    roster_has_id(old(state).players@, a2) ==> roster_has_id(
                        state.players@,
                        a2,
                    )) by {
                    assert forall|a2: u32|
                        roster_has_id(old(state).players@, a2) implies roster_has_id(
                        state.players@,
                        a2,
                    ) by {
                        let w = choose|w: int|
                            0 <= w < old(state).players@.len() && old(state).players@[w].id == a2;
                        assert(state.players@[w].id == a2);
                    }
                };
            }
        },
        None => {},
    }
}

/// Apply the uniform stamina decay to every agent still on the pitch:
/// condition is non-increasing across a tick.
pub fn apply_stamina_decay(state: &mut MatchState)
    requires
        old(state).well_formed(),
    ensures
        final(state).well_formed(),
        final(state).players@.len() == old(state).players@.len(),
        forall|i: int|
            0 <= i < old(state).players@.len() ==> {
                let np = #[trigger] final(state).players@[i];
                let op = old(state).players@[i];
                &&& np.condition <= op.condition
                &&& np.condition == if op.condition >= STAMINA_DECAY_PER_TICK {
                    (op.condition - STAMINA_DECAY_PER_TICK) as u32
                } else {
                    0u32
                }
                &&& np.id == op.id
                &&& np.side == op.side
                &&& np.state == op.state
                &&& np.position == op.position
                &&& np.statistics == op.statistics
            },
        final(state).ball == old(state).ball,
        final(state).event_log == old(state).event_log,
        final(state).time == old(state).time,
        final(state).period == old(state).period,
        final(state).score == old(state).score,
        final(state).field_size == old(state).field_size,
        final(state).goal_positions == old(state).goal_positions,
{
    let n = state.players.len();
    let mut i: usize = 0;
    while i < n
        invariant
            i <= n,
            n == state.players@.len(),
            n == old(state).players@.len(),
            state.well_formed(),
            forall|j: int|
                i <= j < n ==> #[trigger] state.players@[j] == old(state).players@[j],
            forall|j: int|
                0 <= j < i ==> {
                    let np = #[trigger] state.players@[j];
                    let op = old(state).players@[j];
                    &&& np.condition <= op.condition
                    &&& np.condition == if op.condition >= STAMINA_DECAY_PER_TICK {
                        (op.condition - STAMINA_DECAY_PER_TICK) as u32
                    } else {
                        0u32
                    }
                    &&& np.id == op.id
                    &&& np.side == op.side
                    &&& np.state == op.state
                    &&& np.position == op.position
                    &&& np.statistics == op.statistics
                },
            state.ball == old(state).ball,
            state.event_log == old(state).event_log,
            state.time == old(state).time,
            state.period == old(state).period,
            state.score == old(state).score,
            state.field_size == old(state).field_size,
            state.goal_positions == old(state).goal_positions,
        decreases n - i,
    {
        let mut p = state.players[i];
        if p.condition >= STAMINA_DECAY_PER_TICK {
            p.condition = p.condition - STAMINA_DECAY_PER_TICK;
        } else {
            p.condition = 0;
        }
        state.players.set(i, p);
        proof {
            assert(forall|a: u32|
                roster_has_id(old(state).players@, a) ==> roster_has_id(state.players@, a)) by {
                assert forall|a: u32|
                    roster_has_id(old(state).players@, a) implies roster_has_id(
                    state.players@,
                    a,
                ) by {
                    let w = choose|w: int|
                        0 <= w < old(state).players@.len() && old(state).players@[w].id == a;
                    assert(state.players@[w].id == a);
                }
            };
        }
        i += 1;
    }
}

/// Exec mirror of [`throw_velocity_spec`].
fn throw_velocity(from: Vec2, target: Vec2, force: u32) -> (v: Vec2)
    ensures
        v == throw_velocity_spec(from, target, force),
        -50 <= v.x <= 50,
        -50 <= v.y <= 50,
{
    let raw_cap: u32 = 1 + force / 50;
    let cap: i128 = if raw_cap > 50 {
        50
    } else {
        raw_cap as i128
    };
    let dx: i128 = (target.x as i128) - (from.x as i128);
    let dy: i128 = (target.y as i128) - (from.y as i128);
    let vx: i128 = if dx > cap {
        cap
    } else if dx < -cap {
        -cap
    } else {
        dx
    };
    let vy: i128 = if dy > cap {
        cap
    } else if dy < -cap {
        -cap
    } else {
        dy
    };
    Vec2 { x: vx as i64, y: vy as i64 }
}

/// Half of `v`, rounded towards zero.
pub open spec fn halve_spec(v: i64) -> int {
    if v >= 0 {
        v / 2
    } else {
        -((-v) as int / 2)
    }
}

/// Exec mirror of [`halve_spec`].
fn halve(v: i64) -> (h: i64)
    requires
        -1_000_000 <= v <= 1_000_000,
    ensures
        h == halve_spec(v),
        -1_000_000 <= h <= 1_000_000,
{
    if v >= 0 {
        v / 2
    } else {
        -((-v) / 2)
    }
}

/// Clamp a coordinate into the playing band.
fn clamp_band(v: i128) -> (c: i64)
    ensures
        c == clamp_spec(v as int, 100_000),
{
    if v > 100_000 {
        100_000
    } else if v < -100_000 {
        -100_000
    } else {
        v as i64
    }
}

/// Advance the ball one tick: an owned ball travels with its owner; a
/// loose ball drifts along its velocity, clamped to the playing band,
/// and its flight decays by half each tick.
pub fn advance_ball(state: &mut MatchState)
    requires
        old(state).well_formed(),
    ensures
        final(state).well_formed(),
        final(state).players == old(state).players,
        final(state).ball.owner == old(state).ball.owner,
        old(state).ball.owner matches Some(o) ==> final(state).ball.position
            == old(state).players@[crate::context::idx_of(old(state).players@, o)].position
            && final(state).ball.velocity == (Vec2 { x: 0, y: 0 }),
        old(state).ball.owner is None ==> final(state).ball.position == (Vec2 {
            x: clamp_spec(old(state).ball.position.x + old(state).ball.velocity.x, 100_000) as i64,
            y: clamp_spec(old(state).ball.position.y + old(state).ball.velocity.y, 100_000) as i64,
        }) && final(state).ball.velocity == (Vec2 {
            x: halve_spec(old(state).ball.velocity.x) as i64,
            y: halve_spec(old(state).ball.velocity.y) as i64,
        }),
        final(state).event_log == old(state).event_log,
        final(state).time == old(state).time,
        final(state).period == old(state).period,
        final(state).score == old(state).score,
        final(state).field_size == old(state).field_size,
        final(state).goal_positions == old(state).goal_positions,
{
    let owner = state.ball.owner;
    match owner {
        Some(o) => {
            match state.index_of(o) {
                Some(i) => {
                    proof {
                        let c = crate::context::idx_of(state.players@, o);
                        assert(0 <= c < state.players@.len() && state.players@[c].id == o);
                        assert(c == i as int);
                    }
                    state.ball.position = state.players[i].position;
                    state.ball.velocity = Vec2 { x: 0, y: 0 };
                },
                None => {
                },
            }
        },
        None => {
            let nx = clamp_band(
                (state.ball.position.x as i128) + (state.ball.velocity.x as i128),
            );
            let ny = clamp_band(
                (state.ball.position.y as i128) + (state.ball.velocity.y as i128),
            );
            state.ball.position = Vec2 { x: nx, y: ny };
            state.ball.velocity = Vec2 {
                x: halve(state.ball.velocity.x),
                y: halve(state.ball.velocity.y),
            };
        },
    }
}

} // verus!
