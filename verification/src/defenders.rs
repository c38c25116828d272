//! The defender behavioural state machine.
//!
//! Each state exposes a cheap deterministic fast path, a slow path for the
//! learned fallback, and a movement synthesis.  Numeric thresholds follow
//! the tactical constants: marking distance 2 units, tackling distance 1
//! unit, stamina floors of 20 and 25 percent, ball proximity 5 units.

use vstd::prelude::*;

use crate::context::{
    idx_of, is_opponent_of, is_teammate_of, lemma_filtered_element_from, lite_of,
    opponent_on_ball_spec, opponents_within, teammates_within, TickError,
};
use crate::events::{
    decided_events, decided_state, lift_defender, Event, EventCollection, PassingEventModel,
    PlayerEvent, ShootingEventModel, StateChangeResult,
};
use crate::geometry::{distance, distance_spec, Vec2};
use crate::match_state::{roster_has_id, Ball};
use crate::player::{DefenderState, MatchPlayer, MatchPlayerLite, PlayerState};
use crate::player::PlayerDistanceFromStartPosition;
use crate::player_ops::{
    lemma_self_on_roster, opponent_goal_spec, pass_power_spec, shot_power_spec,
    start_distance_band_spec, PlayerOperationsImpl, StateProcessingContext,
};
use crate::rng::MatchRandom;
use crate::steering::{arrive_speed, arrive_speed_spec, SteeringOutput};

verus! {

/// Desired marking distance from the tracked opponent, in field units.
pub const MARKING_DISTANCE_THRESHOLD: u64 = 2;

/// Distance within which the defender can slide in, in field units.
pub const TACKLING_DISTANCE_THRESHOLD: u64 = 1;

/// Minimum stamina percentage to keep marking.
pub const MARKING_STAMINA_THRESHOLD: u32 = 20;

/// Distance at which the ball counts as close while marking.
pub const BALL_PROXIMITY_THRESHOLD: u64 = 5;

/// Search radius for the opponent to mark.
pub const MARKING_SEARCH_RADIUS: u64 = 100;

/// Maximum distance to attempt a sliding tackle from.
pub const TACKLE_DISTANCE_THRESHOLD: u64 = 2;

/// Minimum stamina percentage to attempt a sliding tackle.
pub const TACKLE_STAMINA_THRESHOLD: u32 = 25;

/// `ball` is controlled by the side `me` plays for.
pub open spec fn team_controls_ball(players: Seq<MatchPlayer>, me: MatchPlayer, ball: Ball) -> bool {
    &&& me.side is Some
    &&& ball.owner matches Some(o) && roster_has_id(players, o) && players[idx_of(players, o)].side
        == me.side
}

/// A defender with nothing to do.
#[derive(Default)]
pub struct DefenderCommonState {}

impl DefenderCommonState {
    /// No additional conditions to process in this state.
    pub fn process_conditions(&self, _ctx: crate::player_ops::ConditionContext) {
    }

    pub fn try_fast(&self, _ctx: &StateProcessingContext) -> (r: Option<StateChangeResult>)
        ensures
            r is None,
    {
        None
    }

    pub fn process_slow(&self, _ctx: &StateProcessingContext) -> (r: Option<StateChangeResult>)
        ensures
            r is None,
    {
        None
    }

    pub fn velocity(&self, _ctx: &StateProcessingContext) -> (r: Option<SteeringOutput>)
        ensures
            r == Some(SteeringOutput { heading: Vec2 { x: 0, y: 0 }, speed_milli: 0u64 }),
    {
        Some(SteeringOutput { heading: Vec2 { x: 0, y: 0 }, speed_milli: 0 })
    }
}

/// A resting defender recovers and decides nothing.
#[derive(Default)]
pub struct DefenderRestingState {}

impl DefenderRestingState {
    pub fn try_fast(&self, _ctx: &StateProcessingContext) -> (r: Option<StateChangeResult>)
        ensures
            r is None,
    {
        None
    }

    pub fn process_slow(&self, _ctx: &StateProcessingContext) -> (r: Option<StateChangeResult>)
        ensures
            r is None,
    {
        None
    }
}

/// A sliding defender is committed: no decisions, no steering.
#[derive(Default)]
pub struct DefenderSlidingTackleState {}

impl DefenderSlidingTackleState {
    pub fn try_fast(&self, _ctx: &StateProcessingContext) -> (r: Option<StateChangeResult>)
        ensures
            r is None,
    {
        None
    }

    pub fn process_slow(&self, _ctx: &StateProcessingContext) -> (r: Option<StateChangeResult>)
        ensures
            r is None,
    {
        None
    }

    pub fn velocity(&self, _ctx: &StateProcessingContext) -> (r: Option<SteeringOutput>)
        ensures
            r == Some(SteeringOutput { heading: Vec2 { x: 0, y: 0 }, speed_milli: 0u64 }),
    {
        Some(SteeringOutput { heading: Vec2 { x: 0, y: 0 }, speed_milli: 0 })
    }
}

/// The transition law of the marking state.
///
/// In order: a defender below the stamina floor rests; with no opponent in
/// the search radius it falls back to holding the line; an opponent on the
/// ball inside tackling distance triggers a sliding tackle; an opponent
/// beyond one and a half marking distances is chased; a loose close ball is
/// intercepted; otherwise the defender keeps marking.
pub open spec fn marking_transition(me: MatchPlayer, players: Seq<MatchPlayer>, ball: Ball) -> Option<
    DefenderState,
> {
    if me.condition_percentage_spec() < MARKING_STAMINA_THRESHOLD {
        Some(DefenderState::Resting)
    } else {
        let opps = opponents_within(players, me, MARKING_SEARCH_RADIUS);
        if opps.len() == 0 {
            Some(DefenderState::HoldingLine)
        } else {
            let opp = opps[0];
            let d = distance_spec(me.position, opp.position);
            if ball.owner == Some(opp.id) && d < TACKLING_DISTANCE_THRESHOLD {
                Some(DefenderState::SlidingTackle)
            } else if d > MARKING_DISTANCE_THRESHOLD + MARKING_DISTANCE_THRESHOLD / 2 {
                Some(DefenderState::Running)
            } else if distance_spec(me.position, ball.position) < BALL_PROXIMITY_THRESHOLD
                && ball.owner != Some(opp.id) {
                Some(DefenderState::Intercepting)
            } else {
                None
            }
        }
    }
}

/// The point a marking defender holds: the tracked opponent's next
/// position, backed off along the opponent's velocity by the marking
/// distance, per axis.  A standing opponent gets no stand-off.
pub open spec fn marking_point_spec(opp: MatchPlayer) -> Vec2 {
    Vec2 {
        x: (opp.position.x + opp.velocity.x - crate::geometry::clamp_spec(
            opp.velocity.x as int,
            MARKING_DISTANCE_THRESHOLD as int,
        )) as i64,
        y: (opp.position.y + opp.velocity.y - crate::geometry::clamp_spec(
            opp.velocity.y as int,
            MARKING_DISTANCE_THRESHOLD as int,
        )) as i64,
    }
}

/// The movement of the marking state: head for the marking point of the
/// tracked opponent at full pace; stand still with nobody to mark.
pub open spec fn marking_velocity_spec(me: MatchPlayer, players: Seq<MatchPlayer>) -> SteeringOutput {
    let opps = opponents_within(players, me, MARKING_SEARCH_RADIUS);
    if opps.len() == 0 {
        SteeringOutput { heading: Vec2 { x: 0, y: 0 }, speed_milli: 0u64 }
    } else {
        let opp = players[idx_of(players, opps[0].id)];
        SteeringOutput {
            heading: Vec2 {
                x: (marking_point_spec(opp).x - me.position.x) as i64,
                y: (marking_point_spec(opp).y - me.position.y) as i64,
            },
            speed_milli: me.skills.max_speed_milli_spec(),
        }
    }
}

/// One axis of the marking stand-off: the velocity component capped at
/// the marking distance.
fn standoff_axis(v: i64) -> (s: i64)
    requires
        -1000 <= v <= 1000,
    ensures
        s == crate::geometry::clamp_spec(v as int, MARKING_DISTANCE_THRESHOLD as int),
{
    let cap: i64 = MARKING_DISTANCE_THRESHOLD as i64;
    if v > cap {
        cap
    } else if v < -cap {
        -cap
    } else {
        v
    }
}

/// Marking: stay tight on the nearest opponent in the search radius.
#[derive(Default)]
pub struct DefenderMarkingState {}

impl DefenderMarkingState {
    /// No additional conditions to process in this state.
    pub fn process_conditions(&self, _ctx: crate::player_ops::ConditionContext) {
    }

    /// The fast path: the full deterministic transition table of the
    /// marking state.
    pub fn try_fast(&self, ctx: &StateProcessingContext) -> (r: Option<StateChangeResult>)
        requires
            ctx.valid(),
        ensures
            decided_state(r) == lift_defender(
                marking_transition(*ctx.player, ctx.tick_context.players@, ctx.tick_context.ball),
            ),
            r is Some <==> marking_transition(
                *ctx.player,
                ctx.tick_context.players@,
                ctx.tick_context.ball,
            ) is Some,
            decided_events(r).len() == 0,
    {
        proof {
            lemma_self_on_roster(*ctx);
        }
        let stamina = ctx.player.condition_percentage();
        if stamina < MARKING_STAMINA_THRESHOLD {
            return Some(StateChangeResult::with_defender_state(DefenderState::Resting));
        }
        let opponents = match ctx.tick_context.nearby_opponents(
            ctx.player.id,
            MARKING_SEARCH_RADIUS,
        ) {
            Ok(v) => v,
            Err(_) => {
                return None;
            },
        };
        if opponents.len() == 0 {
            return Some(StateChangeResult::with_defender_state(DefenderState::HoldingLine));
        }
        let opponent_to_mark = opponents[0];
        proof {
            lemma_first_opponent_on_roster(
                ctx.tick_context.players@,
                *ctx.player,
                MARKING_SEARCH_RADIUS,
            );
        }
        let distance_to_opponent = distance(ctx.player.position, opponent_to_mark.position);
        let opponent_has_ball = ctx.tick_context.has_ball(opponent_to_mark.id);
        if opponent_has_ball && distance_to_opponent < TACKLING_DISTANCE_THRESHOLD {
            return Some(StateChangeResult::with_defender_state(DefenderState::SlidingTackle));
        }
        if distance_to_opponent > MARKING_DISTANCE_THRESHOLD + MARKING_DISTANCE_THRESHOLD / 2 {
            return Some(StateChangeResult::with_defender_state(DefenderState::Running));
        }
        let ball_dist = distance(ctx.player.position, ctx.tick_context.ball.position);
        if ball_dist < BALL_PROXIMITY_THRESHOLD && !opponent_has_ball {
            return Some(StateChangeResult::with_defender_state(DefenderState::Intercepting));
        }
        None
    }

    /// The slow path yields no decision for this state.
    pub fn process_slow(&self, _ctx: &StateProcessingContext) -> (r: Option<StateChangeResult>)
        ensures
            r is None,
    {
        None
    }

    /// Pursue the tracked opponent at full pace.
    pub fn velocity(&self, ctx: &StateProcessingContext) -> (r: Option<SteeringOutput>)
        requires
            ctx.valid(),
        ensures
            r == Some(marking_velocity_spec(*ctx.player, ctx.tick_context.players@)),
    {
        proof {
            lemma_self_on_roster(*ctx);
        }
        let opponents = match ctx.tick_context.nearby_opponents(
            ctx.player.id,
            MARKING_SEARCH_RADIUS,
        ) {
            Ok(v) => v,
            Err(_) => {
                return None;
            },
        };
        if opponents.len() == 0 {
            return Some(SteeringOutput { heading: Vec2 { x: 0, y: 0 }, speed_milli: 0 });
        }
        proof {
            lemma_first_opponent_on_roster(
                ctx.tick_context.players@,
                *ctx.player,
                MARKING_SEARCH_RADIUS,
            );
        }
        let opp_index = match ctx.tick_context.index_of(opponents[0].id) {
            Some(i) => i,
            None => {
                return None;
            },
        };
        let opp = ctx.tick_context.players[opp_index];
        proof {
            let players = ctx.tick_context.players@;
            let c = idx_of(players, opponents@[0].id);
            assert(0 <= c < players.len() && players[c].id == opponents@[0].id);
            assert(c == opp_index as int);
        }
        Some(
            SteeringOutput {
                heading: Vec2 {
                    x: opp.position.x + opp.velocity.x - standoff_axis(opp.velocity.x)
                        - ctx.player.position.x,
                    y: opp.position.y + opp.velocity.y - standoff_axis(opp.velocity.y)
                        - ctx.player.position.y,
                },
                speed_milli: ctx.player.skills.max_speed_milli(),
            },
        )
    }
}

/// The first opponent of `me` within `radius` is a roster entry: its
/// identity is on the roster and resolves to a valid player.
pub proof fn lemma_first_opponent_on_roster(
    players: Seq<MatchPlayer>,
    me: MatchPlayer,
    radius: u64,
)
    requires
        opponents_within(players, me, radius).len() > 0,
        forall|i: int| 0 <= i < players.len() ==> (#[trigger] players[i]).valid(),
        crate::match_state::player_ids_unique(players),
    ensures
        roster_has_id(players, opponents_within(players, me, radius)[0].id),
        ({
            let opp = players[idx_of(players, opponents_within(players, me, radius)[0].id)];
            &&& opp.valid()
            &&& opp.position == opponents_within(players, me, radius)[0].position
            &&& distance_spec(me.position, opp.position) == distance_spec(
                me.position,
                opponents_within(players, me, radius)[0].position,
            )
        }),
{
    let pred = |p: MatchPlayer| is_opponent_of(me, p) && distance_spec(me.position, p.position)
        <= radius;
    let filtered = players.filter(pred);
    assert(opponents_within(players, me, radius)[0] == lite_of(filtered[0]));
    lemma_filtered_element_from(players, pred, 0);
    let j = choose|j: int| 0 <= j < players.len() && players[j] == filtered[0];
    assert(players[j].id == opponents_within(players, me, radius)[0].id);
    let c = idx_of(players, players[j].id);
    assert(0 <= c < players.len() && players[c].id == players[j].id);
    assert(c == j);
}

/// Shooting: release the shot at the opponent goal and fall back to
/// standing.
#[derive(Default)]
pub struct DefenderShootingState {}

impl DefenderShootingState {
    /// No additional conditions to process in this state.
    pub fn process_conditions(&self, _ctx: crate::player_ops::ConditionContext) {
    }

    /// The fast path always decides: exactly one shoot event at the
    /// opponent goal, with the shooter's finishing-derived force, and a
    /// transition to standing.
    pub fn try_fast(&self, ctx: &StateProcessingContext) -> (r: Option<StateChangeResult>)
        requires
            ctx.valid(),
        ensures
            decided_state(r) == Some(PlayerState::Defender(DefenderState::Standing)),
            decided_events(r) =~= seq![
                Event::PlayerEvent(
                    PlayerEvent::Shoot(
                        ShootingEventModel {
                            from_player_id: ctx.player.id,
                            shot_target: opponent_goal_spec(*ctx.player, *ctx.tick_context),
                            shot_force: shot_power_spec(ctx.player.skills.technical.finishing),
                        },
                    ),
                ),
            ],
    {
        let ops = PlayerOperationsImpl::new(ctx);
        let target = ops.opponent_goal_position();
        let force = ops.shoot_goal_power();
        Some(
            StateChangeResult::with_defender_state_and_event(
                DefenderState::Standing,
                Event::PlayerEvent(
                    PlayerEvent::Shoot(
                        ShootingEventModel::build()
                            .with_player_id(ctx.player.id)
                            .with_target(target)
                            .with_force(force)
                            .build(),
                    ),
                ),
            ),
        )
    }

    pub fn process_slow(&self, _ctx: &StateProcessingContext) -> (r: Option<StateChangeResult>)
        ensures
            r is None,
    {
        None
    }

    pub fn velocity(&self, _ctx: &StateProcessingContext) -> (r: Option<SteeringOutput>)
        ensures
            r == Some(SteeringOutput { heading: Vec2 { x: 0, y: 0 }, speed_milli: 0u64 }),
    {
        Some(SteeringOutput { heading: Vec2 { x: 0, y: 0 }, speed_milli: 0 })
    }
}

/// The goalkeeper-free teammate in the long search radius whose position
/// lies closest to the goal point, scanning `cands` from index `i` with
/// the best candidate so far; ties keep the earlier candidate.
pub open spec fn best_pass_from(
    cands: Seq<MatchPlayerLite>,
    players: Seq<MatchPlayer>,
    goal: Vec2,
    i: int,
    acc: Option<(u32, nat)>,
) -> Option<u32>
    decreases cands.len() - i,
{
    if i < 0 || i >= cands.len() {
        match acc {
            Some((id, d)) => Some(id),
            None => None,
        }
    } else {
        let c = cands[i];
        let full = players[idx_of(players, c.id)];
        let gk = full.tactical_position.role_spec() == crate::player::PlayerRole::Goalkeeper;
        let d = distance_spec(goal, c.position);
        let better = match acc {
            Some((id, bd)) => d < bd,
            None => true,
        };
        if gk {
            best_pass_from(cands, players, goal, i + 1, acc)
        } else if better {
            best_pass_from(cands, players, goal, i + 1, Some((c.id, d)))
        } else {
            best_pass_from(cands, players, goal, i + 1, acc)
        }
    }
}

/// The best pass option of `me`: among teammates within 300 units, the
/// first non-goalkeeper nearest to the goal `me` attacks.
pub open spec fn best_pass_option_spec(
    players: Seq<MatchPlayer>,
    me: MatchPlayer,
    goal: Vec2,
) -> Option<u32> {
    best_pass_from(teammates_within(players, me, 300), players, goal, 0, None)
}

/// The first teammate of `me` within the short radius at strictly minimal
/// distance from `me`, scanning `cands` from index `i`.
pub open spec fn nearest_from(
    cands: Seq<MatchPlayerLite>,
    me: MatchPlayer,
    i: int,
    acc: Option<(u32, nat)>,
) -> Option<u32>
    decreases cands.len() - i,
{
    if i < 0 || i >= cands.len() {
        match acc {
            Some((id, d)) => Some(id),
            None => None,
        }
    } else {
        let c = cands[i];
        let d = distance_spec(me.position, c.position);
        let better = match acc {
            Some((id, bd)) => d < bd,
            None => true,
        };
        if better {
            nearest_from(cands, me, i + 1, Some((c.id, d)))
        } else {
            nearest_from(cands, me, i + 1, acc)
        }
    }
}

/// Every candidate handed out by a teammate query is a roster entry.
pub proof fn lemma_teammate_on_roster(
    players: Seq<MatchPlayer>,
    me: MatchPlayer,
    radius: u64,
    k: int,
)
    requires
        0 <= k < teammates_within(players, me, radius).len(),
        forall|i: int| 0 <= i < players.len() ==> (#[trigger] players[i]).valid(),
        crate::match_state::player_ids_unique(players),
    ensures
        roster_has_id(players, teammates_within(players, me, radius)[k].id),
        ({
            let tm = players[idx_of(players, teammates_within(players, me, radius)[k].id)];
            &&& tm.valid()
            &&& tm.position == teammates_within(players, me, radius)[k].position
        }),
{
    let pred = |p: MatchPlayer| is_teammate_of(me, p) && distance_spec(me.position, p.position)
        <= radius;
    let filtered = players.filter(pred);
    assert(teammates_within(players, me, radius)[k] == lite_of(filtered[k]));
    lemma_filtered_element_from(players, pred, k);
    let j = choose|j: int| 0 <= j < players.len() && players[j] == filtered[k];
    assert(players[j].id == teammates_within(players, me, radius)[k].id);
    let c = idx_of(players, players[j].id);
    assert(0 <= c < players.len() && players[c].id == players[j].id);
    assert(c == j);
}

/// A deep-scan result is one of the candidate identities.
pub proof fn lemma_best_pass_ids(
    cands: Seq<MatchPlayerLite>,
    players: Seq<MatchPlayer>,
    goal: Vec2,
    i: int,
    acc: Option<(u32, nat)>,
)
    requires
        0 <= i <= cands.len(),
        acc matches Some(p) ==> roster_has_id(players, p.0),
        forall|k: int| i <= k < cands.len() ==> roster_has_id(players, (#[trigger] cands[k]).id),
    ensures
        best_pass_from(cands, players, goal, i, acc) matches Some(id) ==> roster_has_id(
            players,
            id,
        ),
    decreases cands.len() - i,
{
    if i < cands.len() {
        let c = cands[i];
        let full = players[idx_of(players, c.id)];
        let gk = full.tactical_position.role_spec() == crate::player::PlayerRole::Goalkeeper;
        let d = distance_spec(goal, c.position);
        let better = match acc {
            Some((id, bd)) => d < bd,
            None => true,
        };
        if gk {
            lemma_best_pass_ids(cands, players, goal, i + 1, acc);
        } else if better {
            lemma_best_pass_ids(cands, players, goal, i + 1, Some((c.id, d)));
        } else {
            lemma_best_pass_ids(cands, players, goal, i + 1, acc);
        }
    }
}

/// A short-scan result is one of the candidate identities.
pub proof fn lemma_nearest_ids(
    cands: Seq<MatchPlayerLite>,
    players: Seq<MatchPlayer>,
    me: MatchPlayer,
    i: int,
    acc: Option<(u32, nat)>,
)
    requires
        0 <= i <= cands.len(),
        acc matches Some(p) ==> roster_has_id(players, p.0),
        forall|k: int| i <= k < cands.len() ==> roster_has_id(players, (#[trigger] cands[k]).id),
    ensures
        nearest_from(cands, me, i, acc) matches Some(id) ==> roster_has_id(players, id),
    decreases cands.len() - i,
{
    if i < cands.len() {
        let c = cands[i];
        let d = distance_spec(me.position, c.position);
        let better = match acc {
            Some((id, bd)) => d < bd,
            None => true,
        };
        if better {
            lemma_nearest_ids(cands, players, me, i + 1, Some((c.id, d)));
        } else {
            lemma_nearest_ids(cands, players, me, i + 1, acc);
        }
    }
}

/// Every identity a teammate query hands out is a roster identity.
pub proof fn lemma_all_teammates_on_roster(players: Seq<MatchPlayer>, me: MatchPlayer, radius: u64)
    requires
        forall|i: int| 0 <= i < players.len() ==> (#[trigger] players[i]).valid(),
        crate::match_state::player_ids_unique(players),
    ensures
        forall|k: int|
            0 <= k < teammates_within(players, me, radius).len() ==> roster_has_id(
                players,
                (#[trigger] teammates_within(players, me, radius)[k]).id,
            ),
{
    assert forall|k: int|
        0 <= k < teammates_within(players, me, radius).len() implies roster_has_id(
        players,
        (#[trigger] teammates_within(players, me, radius)[k]).id,
    ) by {
        lemma_teammate_on_roster(players, me, radius, k);
    }
}

/// The pass event played towards teammate `tid`: targeted at the
/// teammate's position, with the canonical pass power for the distance.
pub open spec fn passing_pass_event(me: MatchPlayer, players: Seq<MatchPlayer>, tid: u32) -> Event {
    Event::PlayerEvent(
        PlayerEvent::PassTo(
            PassingEventModel {
                from_player_id: me.id,
                pass_target: players[idx_of(players, tid)].position,
                pass_force: pass_power_spec(
                    distance_spec(me.position, players[idx_of(players, tid)].position),
                    me.skills.technical.passing,
                ),
            },
        ),
    )
}

/// Passing: move the ball on as soon as an option shows.
#[derive(Default)]
pub struct DefenderPassingState {}

impl DefenderPassingState {
    /// No additional conditions to process in this state.
    pub fn process_conditions(&self, _ctx: crate::player_ops::ConditionContext) {
    }

    /// The fast path: without the ball fall back to standing; with it,
    /// play to the best deep option and turn back, else square to the
    /// nearest close teammate, else keep looking.
    pub fn try_fast(&self, ctx: &StateProcessingContext) -> (r: Option<StateChangeResult>)
        requires
            ctx.valid(),
        ensures
            ctx.tick_context.ball.owner != Some(ctx.player.id) ==> decided_state(r) == Some(
                PlayerState::Defender(DefenderState::Standing),
            ) && decided_events(r).len() == 0,
            ctx.tick_context.ball.owner == Some(ctx.player.id) ==> {
                let players = ctx.tick_context.players@;
                let me = *ctx.player;
                let goal = opponent_goal_spec(me, *ctx.tick_context);
                match best_pass_option_spec(players, me, goal) {
                    Some(tid) => decided_state(r) == Some(
                        PlayerState::Defender(DefenderState::Returning),
                    ) && decided_events(r) =~= seq![passing_pass_event(me, players, tid)],
                    None => match nearest_from(teammates_within(players, me, 30), me, 0, None) {
                        Some(tid) => decided_state(r) is None && decided_events(r) =~= seq![
                            passing_pass_event(me, players, tid),
                        ] && r is Some,
                        None => r is None,
                    },
                }
            },
    {
        proof {
            lemma_self_on_roster(*ctx);
        }
        if !ctx.has_ball() {
            return Some(StateChangeResult::with_defender_state(DefenderState::Standing));
        }
        let ops = PlayerOperationsImpl::new(ctx);
        if let Some(teammate_id) = self.find_best_pass_option(ctx) {
            proof {
                let players = ctx.tick_context.players@;
                let me = *ctx.player;
                let goal = opponent_goal_spec(me, *ctx.tick_context);
                lemma_all_teammates_on_roster(players, me, 300);
                lemma_best_pass_ids(teammates_within(players, me, 300), players, goal, 0, None);
            }
            let target = match ops.get(teammate_id) {
                Ok(l) => l,
                Err(_) => {
                    return None;
                },
            };
            let force = match ops.pass_teammate_power(teammate_id) {
                Ok(f) => f,
                Err(_) => {
                    return None;
                },
            };
            return Some(
                StateChangeResult::with_defender_state_and_event(
                    DefenderState::Returning,
                    Event::PlayerEvent(
                        PlayerEvent::PassTo(
                            PassingEventModel::build()
                                .with_player_id(ctx.player.id)
                                .with_target(target.position)
                                .with_force(force)
                                .build(),
                        ),
                    ),
                ),
            );
        }
        let close = match ctx.tick_context.nearby_teammates(ctx.player.id, 30) {
            Ok(v) => v,
            Err(_) => {
                return None;
            },
        };
        let ghost players = ctx.tick_context.players@;
        let ghost me = *ctx.player;
        let mut best: Option<u32> = None;
        let mut best_d: u64 = 0;
        let mut i: usize = 0;
        while i < close.len()
            invariant
                i <= close@.len(),
                ctx.valid(),
                me == *ctx.player,
                players == ctx.tick_context.players@,
                close@ == teammates_within(players, me, 30),
                players[idx_of(players, me.id)] == me,
                match best {
                    Some(b) => nearest_from(close@, me, i as int, Some((b, best_d as nat)))
                        == nearest_from(close@, me, 0, None),
                    None => i == 0 && nearest_from(close@, me, 0, None) == nearest_from(
                        close@,
                        me,
                        i as int,
                        None,
                    ),
                },
            decreases close@.len() - i,
        {
            proof {
                lemma_teammate_on_roster(players, me, 30, i as int);
            }
            let c = close[i];
            let d = distance(ctx.player.position, c.position);
            let better = match best {
                Some(_) => d < best_d,
                None => true,
            };
            if better {
                best = Some(c.id);
                best_d = d;
            }
            i += 1;
        }
        if let Some(teammate_id) = best {
            proof {
                lemma_all_teammates_on_roster(players, me, 30);
                lemma_nearest_ids(close@, players, me, 0, None);
            }
            let target = match ops.get(teammate_id) {
                Ok(l) => l,
                Err(_) => {
                    return None;
                },
            };
            let force = match ops.pass_teammate_power(teammate_id) {
                Ok(f) => f,
                Err(_) => {
                    return None;
                },
            };
            let events = EventCollection::with_event(
                Event::PlayerEvent(
                    PlayerEvent::PassTo(
                        PassingEventModel::build()
                            .with_player_id(ctx.player.id)
                            .with_target(target.position)
                            .with_force(force)
                            .build(),
                    ),
                ),
            );
            return Some(StateChangeResult::with_events(events));
        }
        None
    }

    pub fn process_slow(&self, _ctx: &StateProcessingContext) -> (r: Option<StateChangeResult>)
        ensures
            r is None,
    {
        None
    }

    pub fn velocity(&self, _ctx: &StateProcessingContext) -> (r: Option<SteeringOutput>)
        ensures
            r == Some(SteeringOutput { heading: Vec2 { x: 0, y: 0 }, speed_milli: 0u64 }),
    {
        Some(SteeringOutput { heading: Vec2 { x: 0, y: 0 }, speed_milli: 0 })
    }

    /// The best deep pass option: among teammates within 300 units, the
    /// first non-goalkeeper nearest to the attacked goal.
    pub fn find_best_pass_option(&self, ctx: &StateProcessingContext) -> (r: Option<u32>)
        requires
            ctx.valid(),
        ensures
            r == best_pass_option_spec(
                ctx.tick_context.players@,
                *ctx.player,
                opponent_goal_spec(*ctx.player, *ctx.tick_context),
            ),
    {
        proof {
            lemma_self_on_roster(*ctx);
        }
        let ops = PlayerOperationsImpl::new(ctx);
        let goal = ops.opponent_goal_position();
        let cands = match ctx.tick_context.nearby_teammates(ctx.player.id, 300) {
            Ok(v) => v,
            Err(_) => {
                return None;
            },
        };
        let ghost players = ctx.tick_context.players@;
        let ghost me = *ctx.player;
        let mut best: Option<u32> = None;
        let mut best_d: u64 = 0;
        let mut i: usize = 0;
        while i < cands.len()
            invariant
                i <= cands@.len(),
                ctx.valid(),
                me == *ctx.player,
                players == ctx.tick_context.players@,
                cands@ == teammates_within(players, me, 300),
                players[idx_of(players, me.id)] == me,
                goal == opponent_goal_spec(me, *ctx.tick_context),
                crate::geometry::in_bounds(goal),
                match best {
                    Some(b) => best_pass_from(cands@, players, goal, i as int, Some((
                        b,
                        best_d as nat,
                    ))) == best_pass_from(cands@, players, goal, 0, None),
                    None => best_pass_from(cands@, players, goal, 0, None) == best_pass_from(
                        cands@,
                        players,
                        goal,
                        i as int,
                        None,
                    ),
                },
            decreases cands@.len() - i,
        {
            proof {
                lemma_teammate_on_roster(players, me, 300, i as int);
            }
            let c = cands[i];
            let full_index = match ctx.tick_context.index_of(c.id) {
                Some(k) => k,
                None => {
                    return None;
                },
            };
            let full = ctx.tick_context.players[full_index];
            proof {
                let w = idx_of(players, c.id);
                assert(0 <= w < players.len() && players[w].id == c.id);
                assert(w == full_index as int);
            }
            if !full.tactical_position.is_goalkeeper() {
                let d = distance(goal, c.position);
                let better = match best {
                    Some(_) => d < best_d,
                    None => true,
                };
                if better {
                    best = Some(c.id);
                    best_d = d;
                }
            }
            i += 1;
        }
        best
    }

    /// The pass power towards `teammate_id`, on the canonical clamped
    /// per-mille scale.
    pub fn calculate_pass_power(&self, teammate_id: u32, ctx: &StateProcessingContext) -> (r:
        Result<u32, TickError>)
        requires
            ctx.valid(),
        ensures
            r is Ok <==> roster_has_id(ctx.tick_context.players@, teammate_id),
            r matches Ok(p) ==> p == pass_power_spec(
                distance_spec(
                    ctx.player.position,
                    ctx.tick_context.players@[idx_of(
                        ctx.tick_context.players@,
                        teammate_id,
                    )].position,
                ),
                ctx.player.skills.technical.passing,
            ) && p <= 1000,
            r is Err ==> r == Err::<u32, TickError>(TickError::NotFound),
    {
        let ops = PlayerOperationsImpl::new(ctx);
        ops.pass_teammate_power(teammate_id)
    }
}

/// Per-mille chance that a sliding tackle succeeds: the mean of tackling
/// and composure on the per-mille scale, scaled by the base chance of six
/// hundred per mille.
pub open spec fn tackle_success_chance_spec(me: MatchPlayer) -> u32 {
    ((me.skills.technical.tackling + me.skills.mental.composure) * 15) as u32
}

/// Per-mille chance that a failed tackle is a foul: one fifth of the
/// skill shortfall plus an aggression surcharge.
pub open spec fn foul_chance_spec(me: MatchPlayer) -> u32 {
    (((1000 - (me.skills.technical.tackling + me.skills.mental.composure) * 25) / 5
        + me.skills.mental.aggression * 5) as u32)
}

/// Tackling: close down the opponent on the ball and slide in.
#[derive(Default)]
pub struct DefenderTacklingState {}

impl DefenderTacklingState {
    /// No additional conditions to process in this state.
    pub fn process_conditions(&self, _ctx: crate::player_ops::ConditionContext) {
    }

    /// The fast path.  With the ball under team control (or far from the
    /// defender's post) the defender runs the ball out; below the stamina
    /// floor it rests; facing an opponent on the ball it presses when out
    /// of reach and otherwise slides in, where the outcome of the slide
    /// is decided by two explicit draws from the match's random source:
    /// whatever they come back as, the defender stands up, having either
    /// gained the ball, conceded a foul, or neither.
    pub fn try_fast(&self, ctx: &StateProcessingContext, rng: &mut MatchRandom) -> (r: Option<
        StateChangeResult,
    >)
        requires
            ctx.valid(),
        ensures
            tackling_fast_outcome(r, *ctx.player, ctx.tick_context.players@, ctx.tick_context.ball),
    {
        proof {
            lemma_self_on_roster(*ctx);
        }
        let ops = PlayerOperationsImpl::new(ctx);
        if ctx.has_ball() {
            if self.team_in_control(ctx) {
                return Some(StateChangeResult::with_defender_state(DefenderState::Running));
            }
            let far = match ops.position_to_distance() {
                PlayerDistanceFromStartPosition::Small => false,
                PlayerDistanceFromStartPosition::Medium => true,
                PlayerDistanceFromStartPosition::Big => true,
            };
            if far {
                return Some(StateChangeResult::with_defender_state(DefenderState::Running));
            }
        }
        let stamina = ctx.player.condition_percentage();
        if stamina < TACKLE_STAMINA_THRESHOLD {
            return Some(StateChangeResult::with_defender_state(DefenderState::Resting));
        }
        let opponent = match ctx.tick_context.opponent_with_ball(ctx.player.id) {
            Ok(o) => o,
            Err(_) => {
                return None;
            },
        };
        if let Some(opponent) = opponent {
            let d = distance(ctx.player.position, opponent.position);
            if d > TACKLE_DISTANCE_THRESHOLD {
                return Some(StateChangeResult::with_defender_state(DefenderState::Pressing));
            }
            let success_draw = rng.draw(1000);
            let foul_draw = rng.draw(1000);
            let (tackle_success, committed_foul) = self.attempt_sliding_tackle(
                ctx,
                success_draw,
                foul_draw,
            );
            if tackle_success {
                let mut state_change = StateChangeResult::with_defender_state(
                    DefenderState::Standing,
                );
                state_change.events.add(
                    Event::PlayerEvent(PlayerEvent::GainBall(ctx.player.id)),
                );
                return Some(state_change);
            } else if committed_foul {
                let mut state_change = StateChangeResult::with_defender_state(
                    DefenderState::Standing,
                );
                state_change.events.add_player_event(PlayerEvent::CommitFoul(ctx.player.id));
                return Some(state_change);
            } else {
                return Some(StateChangeResult::with_defender_state(DefenderState::Standing));
            }
        }
        None
    }

    pub fn process_slow(&self, _ctx: &StateProcessingContext) -> (r: Option<StateChangeResult>)
        ensures
            r is None,
    {
        None
    }

    /// Close on the ball, slowing over the last ten units.
    pub fn velocity(&self, ctx: &StateProcessingContext) -> (r: Option<SteeringOutput>)
        requires
            ctx.valid(),
        ensures
            r matches Some(out) && out.heading.x == ctx.tick_context.ball.position.x
                - ctx.player.position.x && out.heading.y == ctx.tick_context.ball.position.y
                - ctx.player.position.y && out.speed_milli == arrive_speed_spec(
                ctx.player.skills.max_speed_milli_spec(),
                distance_spec(ctx.player.position, ctx.tick_context.ball.position),
                10,
            ) && out.speed_milli <= ctx.player.skills.max_speed_milli_spec(),
    {
        let target = ctx.tick_context.ball.position;
        let d = distance(ctx.player.position, target);
        let max = ctx.player.skills.max_speed_milli();
        let speed = arrive_speed(max, d, 10);
        Some(
            SteeringOutput {
                heading: Vec2 {
                    x: target.x - ctx.player.position.x,
                    y: target.y - ctx.player.position.y,
                },
                speed_milli: speed,
            },
        )
    }

    /// Is the ball under the defender's own team's control?
    fn team_in_control(&self, ctx: &StateProcessingContext) -> (r: bool)
        requires
            ctx.valid(),
        ensures
            r == team_controls_ball(ctx.tick_context.players@, *ctx.player, ctx.tick_context.ball),
    {
        let owner = match ctx.tick_context.ball.owner {
            Some(o) => o,
            None => {
                return false;
            },
        };
        if ctx.player.side.is_none() {
            return false;
        }
        match ctx.tick_context.index_of(owner) {
            Some(i) => {
                proof {
                    let players = ctx.tick_context.players@;
                    let c = idx_of(players, owner);
                    assert(0 <= c < players.len() && players[c].id == owner);
                    assert(c == i as int);
                }
                let owner_side = ctx.tick_context.players[i].side;
                match (owner_side, ctx.player.side) {
                    (Some(a), Some(b)) => a == b,
                    _ => false,
                }
            },
            None => false,
        }
    }

    /// Decide a sliding tackle from two explicit per-mille draws: the
    /// first against the success chance, the second against the foul
    /// chance of an unsuccessful slide.
    fn attempt_sliding_tackle(
        &self,
        ctx: &StateProcessingContext,
        success_draw: u32,
        foul_draw: u32,
    ) -> (r: (bool, bool))
        requires
            ctx.player.skills.valid(),
        ensures
            r.0 == (success_draw < tackle_success_chance_spec(*ctx.player)),
            r.1 == (!r.0 && foul_draw < foul_chance_spec(*ctx.player)),
    {
        let tackling = ctx.player.skills.technical.tackling;
        let composure = ctx.player.skills.mental.composure;
        let aggression = ctx.player.skills.mental.aggression;
        let overall_milli = (tackling + composure) * 25;
        let success_chance = (tackling + composure) * 15;
        let tackle_success = success_draw < success_chance;
        let foul_chance = (1000 - overall_milli) / 5 + aggression * 5;
        let committed_foul = !tackle_success && foul_draw < foul_chance;
        (tackle_success, committed_foul)
    }
}

/// The tackling fast path, whatever the draws came back as: with the
/// ball under team control (or far from the defender's post) the
/// defender runs the ball out; below the stamina floor it rests; facing
/// an opponent on the ball it presses or duels.
pub open spec fn tackling_fast_outcome(
    r: Option<StateChangeResult>,
    me: MatchPlayer,
    players: Seq<MatchPlayer>,
    ball: Ball,
) -> bool {
    if ball.owner == Some(me.id) {
        if team_controls_ball(players, me, ball) || start_distance_band_spec(me)
            != PlayerDistanceFromStartPosition::Small {
            decided_state(r) == Some(PlayerState::Defender(DefenderState::Running))
                && decided_events(r).len() == 0
        } else if me.condition_percentage_spec() < TACKLE_STAMINA_THRESHOLD {
            decided_state(r) == Some(PlayerState::Defender(DefenderState::Resting))
                && decided_events(r).len() == 0
        } else {
            tackling_duel_outcome(r, me, players, ball)
        }
    } else if me.condition_percentage_spec() < TACKLE_STAMINA_THRESHOLD {
        decided_state(r) == Some(PlayerState::Defender(DefenderState::Resting))
            && decided_events(r).len() == 0
    } else {
        tackling_duel_outcome(r, me, players, ball)
    }
}

/// What holds of a tackling duel whatever the draws came back as: facing
/// an opponent on the ball the defender presses when out of reach, and
/// otherwise stands up having gained the ball, conceded a foul, or
/// neither; with no opponent on the ball there is no decision.
pub open spec fn tackling_duel_outcome(
    r: Option<StateChangeResult>,
    me: MatchPlayer,
    players: Seq<MatchPlayer>,
    ball: Ball,
) -> bool {
    match opponent_on_ball_spec(players, me, ball) {
        Some(opp) => {
            if distance_spec(me.position, opp.position) > TACKLE_DISTANCE_THRESHOLD {
                decided_state(r) == Some(PlayerState::Defender(DefenderState::Pressing))
                    && decided_events(r).len() == 0
            } else {
                decided_state(r) == Some(PlayerState::Defender(DefenderState::Standing)) && (
                decided_events(r) =~= seq![
                    Event::PlayerEvent(PlayerEvent::GainBall(me.id)),
                ] || decided_events(r) =~= seq![
                    Event::PlayerEvent(PlayerEvent::CommitFoul(me.id)),
                ] || decided_events(r).len() == 0)
            }
        },
        None => r is None,
    }
}

} // verus!
