//! The midfielder behavioural state machine.
//!
//! A midfielder on the ball chooses between holding possession and
//! distributing; off the ball it balances tackling, intercepting,
//! pressing, supporting the attack and returning to its post.

use vstd::prelude::*;

use crate::context::{ball_towards_spec, opponents_within, teammates_within};
use crate::defenders::team_controls_ball;
use crate::events::{
    decided_events, decided_state, lift_midfielder, StateChangeResult,
};
use crate::geometry::{distance, distance_spec, Vec2};
use crate::match_state::Ball;
use crate::player::{MatchPlayer, MidfielderState};
use crate::player_ops::{
    lemma_self_on_roster, opponent_goal_spec, PlayerOperationsImpl, StateProcessingContext,
};
use crate::rng::MatchRandom;
use crate::steering::SteeringOutput;

verus! {

/// Teammates this close are passing options.
pub const PASSING_DISTANCE_THRESHOLD: u64 = 30;

/// A loose ball this close pulls the midfielder into a tackle.
pub const TACKLE_PULL_DISTANCE: u64 = 150;

/// A goalbound ball this close is intercepted.
pub const INTERCEPT_DISTANCE: u64 = 250;

/// A loose ball this close is pressed.
pub const PRESSING_DISTANCE_THRESHOLD: u64 = 50;

/// An opponent this close triggers pressing, the same radius at which a
/// loose ball is pressed.
pub const OPPONENT_PRESSURE_DISTANCE: u64 = 50;

/// Shooting range of a dribbling midfielder.
pub const MIDFIELD_SHOT_RANGE: u64 = 25;

/// A midfielder this far off its post tracks back when possession is
/// lost.
pub const RETURN_DISTANCE: u64 = 20;

/// Search radius for an open teammate while dribbling.
pub const OPEN_TEAMMATE_RADIUS: u64 = 150;

/// The milli-cosine bound for an incoming ball to count as towards the
/// midfielder.
pub const INTERCEPT_COS_MILLI: u32 = 800;

/// `me` stands in the half its team attacks: the high-x half for the
/// left side, the low-x half otherwise.
pub open spec fn in_attacking_half(me: MatchPlayer, width: i64) -> bool {
    if me.side == Some(crate::player::PlayerSide::Left) {
        me.position.x > width / 2
    } else {
        me.position.x < width / 2
    }
}

/// The ball sits in the attacking third of `me`'s side.
pub open spec fn ball_in_attacking_third(me: MatchPlayer, ball: Ball, width: i64) -> bool {
    if me.side == Some(crate::player::PlayerSide::Left) {
        ball.position.x > 2 * width / 3
    } else {
        ball.position.x < width / 3
    }
}

/// The transition law of the standing state.
pub open spec fn standing_transition(
    me: MatchPlayer,
    players: Seq<MatchPlayer>,
    ball: Ball,
    width: i64,
) -> Option<MidfielderState> {
    if ball.owner == Some(me.id) {
        if teammates_within(players, me, PASSING_DISTANCE_THRESHOLD).len() == 0 {
            Some(MidfielderState::HoldingPossession)
        } else {
            Some(MidfielderState::Distributing)
        }
    } else if team_controls_ball(players, me, ball) {
        Some(MidfielderState::Running)
    } else if distance_spec(me.position, ball.position) < TACKLE_PULL_DISTANCE {
        Some(MidfielderState::Tackling)
    } else if distance_spec(me.position, ball.position) < INTERCEPT_DISTANCE && ball_towards_spec(
        ball,
        me.position,
        INTERCEPT_COS_MILLI,
    ) {
        Some(MidfielderState::Intercepting)
    } else if distance_spec(me.position, ball.position) < PRESSING_DISTANCE_THRESHOLD {
        Some(MidfielderState::Pressing)
    } else if opponents_within(players, me, OPPONENT_PRESSURE_DISTANCE).len() > 0 {
        Some(MidfielderState::Pressing)
    } else if ball_in_attacking_third(me, ball, width) {
        Some(MidfielderState::AttackSupporting)
    } else {
        None
    }
}

/// Standing: wait, and pick the next involvement.
#[derive(Default)]
pub struct MidfielderStandingState {}

impl MidfielderStandingState {
    /// No additional conditions to process in this state.
    pub fn process_conditions(&self, _ctx: crate::player_ops::ConditionContext) {
    }

    /// The fast path: the full deterministic transition table of the
    /// standing state.
    pub fn try_fast(&self, ctx: &StateProcessingContext) -> (r: Option<StateChangeResult>)
        requires
            ctx.valid(),
        ensures
            decided_state(r) == lift_midfielder(
                standing_transition(
                    *ctx.player,
                    ctx.tick_context.players@,
                    ctx.tick_context.ball,
                    ctx.tick_context.field_size.width,
                ),
            ),
            r is Some <==> standing_transition(
                *ctx.player,
                ctx.tick_context.players@,
                ctx.tick_context.ball,
                ctx.tick_context.field_size.width,
            ) is Some,
            decided_events(r).len() == 0,
    {
        proof {
            lemma_self_on_roster(*ctx);
        }
        if ctx.has_ball() {
            return if self.should_hold_possession(ctx) {
                Some(StateChangeResult::with_midfielder_state(MidfielderState::HoldingPossession))
            } else {
                Some(StateChangeResult::with_midfielder_state(MidfielderState::Distributing))
            };
        }
        if self.team_in_control(ctx) {
            return Some(StateChangeResult::with_midfielder_state(MidfielderState::Running));
        }
        let ball_dist = distance(ctx.player.position, ctx.tick_context.ball.position);
        if ball_dist < TACKLE_PULL_DISTANCE {
            return Some(StateChangeResult::with_midfielder_state(MidfielderState::Tackling));
        }
        if ball_dist < INTERCEPT_DISTANCE {
            let towards = match ctx.tick_context.is_ball_towards_agent(
                ctx.player.id,
                INTERCEPT_COS_MILLI,
            ) {
                Ok(b) => b,
                Err(_) => {
                    return None;
                },
            };
            if towards {
                return Some(
                    StateChangeResult::with_midfielder_state(MidfielderState::Intercepting),
                );
            }
        }
        if ball_dist < PRESSING_DISTANCE_THRESHOLD {
            return Some(StateChangeResult::with_midfielder_state(MidfielderState::Pressing));
        }
        if self.is_opponent_nearby(ctx) {
            return Some(StateChangeResult::with_midfielder_state(MidfielderState::Pressing));
        }
        if self.should_support_attack(ctx) {
            return Some(
                StateChangeResult::with_midfielder_state(MidfielderState::AttackSupporting),
            );
        }
        None
    }

    pub fn process_slow(&self, _ctx: &StateProcessingContext) -> (r: Option<StateChangeResult>)
        ensures
            r is None,
    {
        None
    }

    pub fn velocity(&self, _ctx: &StateProcessingContext) -> (r: Option<SteeringOutput>)
        ensures
            r == Some(SteeringOutput { heading: Vec2 { x: 0, y: 0 }, speed_milli: 0u64 }),
    {
        Some(SteeringOutput { heading: Vec2 { x: 0, y: 0 }, speed_milli: 0 })
    }

    /// Hold possession exactly when there is no passing option.
    fn should_hold_possession(&self, ctx: &StateProcessingContext) -> (r: bool)
        requires
            ctx.valid(),
        ensures
            r == (teammates_within(
                ctx.tick_context.players@,
                *ctx.player,
                PASSING_DISTANCE_THRESHOLD,
            ).len() == 0),
    {
        !self.has_passing_options(ctx)
    }

    /// A teammate within the passing threshold is an option.
    fn has_passing_options(&self, ctx: &StateProcessingContext) -> (r: bool)
        requires
            ctx.valid(),
        ensures
            r == (teammates_within(
                ctx.tick_context.players@,
                *ctx.player,
                PASSING_DISTANCE_THRESHOLD,
            ).len() > 0),
    {
        proof {
            lemma_self_on_roster(*ctx);
        }
        match ctx.tick_context.nearby_teammates(ctx.player.id, PASSING_DISTANCE_THRESHOLD) {
            Ok(v) => v.len() > 0,
            Err(_) => false,
        }
    }

    /// An opponent stands within the pressure distance.
    fn is_opponent_nearby(&self, ctx: &StateProcessingContext) -> (r: bool)
        requires
            ctx.valid(),
        ensures
            r == (opponents_within(
                ctx.tick_context.players@,
                *ctx.player,
                OPPONENT_PRESSURE_DISTANCE,
            ).len() > 0),
    {
        proof {
            lemma_self_on_roster(*ctx);
        }
        match ctx.tick_context.nearby_opponents(ctx.player.id, OPPONENT_PRESSURE_DISTANCE) {
            Ok(v) => v.len() > 0,
            Err(_) => false,
        }
    }

    /// The ball sits in the attacking third of the midfielder's side.
    fn should_support_attack(&self, ctx: &StateProcessingContext) -> (r: bool)
        requires
            ctx.valid(),
        ensures
            r == ball_in_attacking_third(
                *ctx.player,
                ctx.tick_context.ball,
                ctx.tick_context.field_size.width,
            ),
    {
        let width = ctx.tick_context.field_size.width;
        let ball_x = ctx.tick_context.ball.position.x;
        match ctx.player.side {
            Some(crate::player::PlayerSide::Left) => ball_x > (2 * width) / 3,
            _ => ball_x < width / 3,
        }
    }

    /// Is the ball under the midfielder's own team's control?
    fn team_in_control(&self, ctx: &StateProcessingContext) -> (r: bool)
        requires
            ctx.valid(),
        ensures
            r == team_controls_ball(ctx.tick_context.players@, *ctx.player, ctx.tick_context.ball),
    {
        let owner = match ctx.tick_context.ball.owner {
            Some(o) => o,
            None => {
                return false;
            },
        };
        if ctx.player.side.is_none() {
            return false;
        }
        match ctx.tick_context.index_of(owner) {
            Some(i) => {
                proof {
                    let players = ctx.tick_context.players@;
                    let c = crate::context::idx_of(players, owner);
                    assert(0 <= c < players.len() && players[c].id == owner);
                    assert(c == i as int);
                }
                let owner_side = ctx.tick_context.players[i].side;
                match (owner_side, ctx.player.side) {
                    (Some(a), Some(b)) => a == b,
                    _ => false,
                }
            },
            None => false,
        }
    }
}

/// The transition law of the dribbling state.  Which open teammate
/// receives is drawn from the random source, but whether the midfielder
/// passes at all is deterministic: an open teammate, or a long spell on
/// the ball, forces the pass.
pub open spec fn dribbling_transition(
    me: MatchPlayer,
    players: Seq<MatchPlayer>,
    ball: Ball,
    width: i64,
    goal: Vec2,
    in_state_time: u64,
) -> Option<MidfielderState> {
    if ball.owner == Some(me.id) {
        if distance_spec(me.position, goal) <= MIDFIELD_SHOT_RANGE {
            Some(MidfielderState::DistanceShooting)
        } else if teammates_within(players, me, OPEN_TEAMMATE_RADIUS).len() > 0 {
            Some(MidfielderState::Passing)
        } else if in_state_time > 100 {
            Some(MidfielderState::Passing)
        } else {
            None
        }
    } else {
        if !team_controls_ball(players, me, ball) && distance_spec(me.position, ball.position)
            < TACKLE_PULL_DISTANCE {
            Some(MidfielderState::Pressing)
        } else if team_controls_ball(players, me, ball) && in_attacking_half(me, width) {
            Some(MidfielderState::AttackSupporting)
        } else if distance_spec(me.start_position, me.position) > RETURN_DISTANCE
            && !team_controls_ball(players, me, ball) {
            Some(MidfielderState::Returning)
        } else {
            None
        }
    }
}

/// Dribbling: carry the ball through midfield.
#[derive(Default)]
pub struct MidfielderDribblingState {}

impl MidfielderDribblingState {
    /// No additional conditions to process in this state.
    pub fn process_conditions(&self, _ctx: crate::player_ops::ConditionContext) {
    }

    /// The fast path: shoot in range, else pass to an open teammate (the
    /// receiver drawn from the random source), else keep carrying; off
    /// the ball, press, support, or track back.
    pub fn try_fast(&self, ctx: &StateProcessingContext, rng: &mut MatchRandom) -> (r: Option<
        StateChangeResult,
    >)
        requires
            ctx.valid(),
        ensures
            decided_state(r) == lift_midfielder(
                dribbling_transition(
                    *ctx.player,
                    ctx.tick_context.players@,
                    ctx.tick_context.ball,
                    ctx.tick_context.field_size.width,
                    opponent_goal_spec(*ctx.player, *ctx.tick_context),
                    ctx.in_state_time,
                ),
            ),
            r is Some <==> dribbling_transition(
                *ctx.player,
                ctx.tick_context.players@,
                ctx.tick_context.ball,
                ctx.tick_context.field_size.width,
                opponent_goal_spec(*ctx.player, *ctx.tick_context),
                ctx.in_state_time,
            ) is Some,
            decided_events(r).len() == 0,
    {
        proof {
            lemma_self_on_roster(*ctx);
        }
        if ctx.has_ball() {
            if self.is_in_shooting_position(ctx) {
                return Some(
                    StateChangeResult::with_midfielder_state(MidfielderState::DistanceShooting),
                );
            }
            if let Some(_teammate) = self.find_open_teammate(ctx, rng) {
                return Some(
                    StateChangeResult::with_midfielder_state(MidfielderState::Passing),
                );
            }
            if ctx.in_state_time > 100 {
                return Some(
                    StateChangeResult::with_midfielder_state(MidfielderState::Passing),
                );
            }
            return None;
        }
        if self.should_press(ctx) {
            return Some(StateChangeResult::with_midfielder_state(MidfielderState::Pressing));
        }
        if self.should_support_attack(ctx) {
            return Some(
                StateChangeResult::with_midfielder_state(MidfielderState::AttackSupporting),
            );
        }
        if self.should_return_to_position(ctx) {
            return Some(StateChangeResult::with_midfielder_state(MidfielderState::Returning));
        }
        None
    }

    pub fn process_slow(&self, _ctx: &StateProcessingContext) -> (r: Option<StateChangeResult>)
        ensures
            r is None,
    {
        None
    }

    pub fn velocity(&self, _ctx: &StateProcessingContext) -> (r: Option<SteeringOutput>)
        ensures
            r == Some(SteeringOutput { heading: Vec2 { x: 0, y: 0 }, speed_milli: 0u64 }),
    {
        Some(SteeringOutput { heading: Vec2 { x: 0, y: 0 }, speed_milli: 0 })
    }

    /// Draw an open teammate within the search radius from the random
    /// source; no decision when nobody is open.
    fn find_open_teammate(&self, ctx: &StateProcessingContext, rng: &mut MatchRandom) -> (r:
        Option<u32>)
        requires
            ctx.valid(),
        ensures
            r is Some <==> teammates_within(
                ctx.tick_context.players@,
                *ctx.player,
                OPEN_TEAMMATE_RADIUS,
            ).len() > 0,
            r matches Some(id) ==> exists|k: int|
                0 <= k < teammates_within(
                    ctx.tick_context.players@,
                    *ctx.player,
                    OPEN_TEAMMATE_RADIUS,
                ).len() && (#[trigger] teammates_within(
                    ctx.tick_context.players@,
                    *ctx.player,
                    OPEN_TEAMMATE_RADIUS,
                )[k]).id == id,
    {
        proof {
            lemma_self_on_roster(*ctx);
        }
        let cands = match ctx.tick_context.nearby_teammates(ctx.player.id, OPEN_TEAMMATE_RADIUS) {
            Ok(v) => v,
            Err(_) => {
                return None;
            },
        };
        if cands.len() == 0 {
            return None;
        }
        let bound: u32 = if cands.len() >= 1000 {
            1000
        } else {
            cands.len() as u32
        };
        let pick = rng.draw(bound) as usize;
        if pick < cands.len() {
            Some(cands[pick].id)
        } else {
            Some(cands[0].id)
        }
    }

    /// Within shooting range of the attacked goal.
    fn is_in_shooting_position(&self, ctx: &StateProcessingContext) -> (r: bool)
        requires
            ctx.valid(),
        ensures
            r == (distance_spec(
                ctx.player.position,
                opponent_goal_spec(*ctx.player, *ctx.tick_context),
            ) <= MIDFIELD_SHOT_RANGE),
    {
        let ops = PlayerOperationsImpl::new(ctx);
        let goal = ops.opponent_goal_position();
        distance(ctx.player.position, goal) <= MIDFIELD_SHOT_RANGE
    }

    /// Support when the team controls the ball and the midfielder already
    /// stands in the half its team attacks.
    fn should_support_attack(&self, ctx: &StateProcessingContext) -> (r: bool)
        requires
            ctx.valid(),
        ensures
            r == (team_controls_ball(ctx.tick_context.players@, *ctx.player, ctx.tick_context.ball)
                && in_attacking_half(*ctx.player, ctx.tick_context.field_size.width)),
    {
        let half: i64 = ctx.tick_context.field_size.width / 2;
        let in_front = match ctx.player.side {
            Some(crate::player::PlayerSide::Left) => ctx.player.position.x > half,
            _ => ctx.player.position.x < half,
        };
        self.team_in_control(ctx) && in_front
    }

    /// Track back when possession is lost far from the post.
    fn should_return_to_position(&self, ctx: &StateProcessingContext) -> (r: bool)
        requires
            ctx.valid(),
        ensures
            r == (distance_spec(ctx.player.start_position, ctx.player.position) > RETURN_DISTANCE
                && !team_controls_ball(
                ctx.tick_context.players@,
                *ctx.player,
                ctx.tick_context.ball,
            )),
    {
        let d = distance(ctx.player.start_position, ctx.player.position);
        d > RETURN_DISTANCE && !self.team_in_control(ctx)
    }

    /// Press a loose ball in reach.
    fn should_press(&self, ctx: &StateProcessingContext) -> (r: bool)
        requires
            ctx.valid(),
        ensures
            r == (!team_controls_ball(ctx.tick_context.players@, *ctx.player, ctx.tick_context.ball)
                && distance_spec(ctx.player.position, ctx.tick_context.ball.position)
                < TACKLE_PULL_DISTANCE),
    {
        let ball_dist = distance(ctx.player.position, ctx.tick_context.ball.position);
        !self.team_in_control(ctx) && ball_dist < TACKLE_PULL_DISTANCE
    }

    /// Is the ball under the midfielder's own team's control?
    fn team_in_control(&self, ctx: &StateProcessingContext) -> (r: bool)
        requires
            ctx.valid(),
        ensures
            r == team_controls_ball(ctx.tick_context.players@, *ctx.player, ctx.tick_context.ball),
    {
        let owner = match ctx.tick_context.ball.owner {
            Some(o) => o,
            None => {
                return false;
            },
        };
        if ctx.player.side.is_none() {
            return false;
        }
        match ctx.tick_context.index_of(owner) {
            Some(i) => {
                proof {
                    let players = ctx.tick_context.players@;
                    let c = crate::context::idx_of(players, owner);
                    assert(0 <= c < players.len() && players[c].id == owner);
                    assert(c == i as int);
                }
                let owner_side = ctx.tick_context.players[i].side;
                match (owner_side, ctx.player.side) {
                    (Some(a), Some(b)) => a == b,
                    _ => false,
                }
            },
            None => false,
        }
    }
}

} // verus!
