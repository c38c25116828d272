//! The forward behavioural state machine.
//!
//! A forward on the ball weighs shooting, passing under pressure, and
//! holding the ball up; a forward off the ball chases it.  The shooting
//! gate combines a distance band with a documented clear shooting lane:
//! no opponent may stand within the tight angular cone towards the goal.

use vstd::prelude::*;

use crate::context::{is_opponent_of, opponents_within};
use crate::events::{
    decided_events, decided_state, Event, PlayerEvent, ShootingEventModel, StateChangeResult,
};
use crate::geometry::{aligned_spec, cos_above, distance, distance_spec, Vec2};
use crate::player::{ForwardState, MatchPlayer, PlayerState};
use crate::player_ops::{
    lemma_self_on_roster, opponent_goal_spec, shot_power_spec, PlayerOperationsImpl,
    StateProcessingContext,
};
use crate::steering::{arrive_speed, arrive_speed_spec, SteeringOutput};

verus! {

/// Shots are considered once the ball is this close to the opponent goal.
pub const LONG_SHOT_DISTANCE: u64 = 250;

/// A clearly scoring distance.
pub const CLOSE_SHOT_DISTANCE: u64 = 25;

/// Pressure radius: two opponents this close force a pass.
pub const PRESSURE_RADIUS: u64 = 50;

/// Dribbling needs this much free space ahead.
pub const DRIBBLE_SPACE_RADIUS: u64 = 10;

/// The milli-cosine bound of the shooting lane: an opponent inside this
/// cone towards the goal blocks the shot.
pub const SHOT_LANE_COS_MILLI: u32 = 900;

/// No opponent stands inside the angular cone between `me` and the goal:
/// for every opponent, the directions goal-to-opponent and goal-to-me do
/// not align above the lane threshold.
pub open spec fn clear_shot_spec(players: Seq<MatchPlayer>, me: MatchPlayer, goal: Vec2) -> bool {
    forall|j: int|
        0 <= j < players.len() && is_opponent_of(me, #[trigger] players[j]) ==> !aligned_spec(
            Vec2 { x: (goal.x - players[j].position.x) as i64, y: (goal.y - players[j].position.y) as i64 },
            Vec2 { x: (goal.x - me.position.x) as i64, y: (goal.y - me.position.y) as i64 },
            SHOT_LANE_COS_MILLI,
        )
}

/// The transition law of the dribbling state.
pub open spec fn dribbling_transition(
    me: MatchPlayer,
    players: Seq<MatchPlayer>,
    ball_position: Vec2,
    ball_owner: Option<u32>,
    goal: Vec2,
) -> Option<ForwardState> {
    if ball_owner != Some(me.id) {
        Some(ForwardState::Running)
    } else if distance_spec(ball_position, goal) < LONG_SHOT_DISTANCE && clear_shot_spec(
        players,
        me,
        goal,
    ) {
        Some(ForwardState::Shooting)
    } else if opponents_within(players, me, PRESSURE_RADIUS).len() >= 2 {
        Some(ForwardState::Passing)
    } else if opponents_within(players, me, DRIBBLE_SPACE_RADIUS).len() > 0 {
        Some(ForwardState::HoldingUpPlay)
    } else if distance_spec(ball_position, goal) < CLOSE_SHOT_DISTANCE && clear_shot_spec(
        players,
        me,
        goal,
    ) {
        Some(ForwardState::Shooting)
    } else {
        None
    }
}

/// Dribbling: carry the ball forward while the situation allows it.
#[derive(Default)]
pub struct ForwardDribblingState {}

impl ForwardDribblingState {
    /// No additional conditions to process in this state.
    pub fn process_conditions(&self, _ctx: crate::player_ops::ConditionContext) {
    }

    /// The fast path: the full deterministic transition table of the
    /// dribbling state.
    pub fn try_fast(&self, ctx: &StateProcessingContext) -> (r: Option<StateChangeResult>)
        requires
            ctx.valid(),
        ensures
            decided_state(r) == crate::events::lift_forward(
                dribbling_transition(
                    *ctx.player,
                    ctx.tick_context.players@,
                    ctx.tick_context.ball.position,
                    ctx.tick_context.ball.owner,
                    opponent_goal_spec(*ctx.player, *ctx.tick_context),
                ),
            ),
            r is Some <==> dribbling_transition(
                *ctx.player,
                ctx.tick_context.players@,
                ctx.tick_context.ball.position,
                ctx.tick_context.ball.owner,
                opponent_goal_spec(*ctx.player, *ctx.tick_context),
            ) is Some,
            decided_events(r).len() == 0,
    {
        proof {
            lemma_self_on_roster(*ctx);
        }
        if !ctx.has_ball() {
            return Some(StateChangeResult::with_forward_state(ForwardState::Running));
        }
        let ops = PlayerOperationsImpl::new(ctx);
        let goal = ops.opponent_goal_position();
        let ball_to_goal = distance(ctx.tick_context.ball.position, goal);
        if ball_to_goal < LONG_SHOT_DISTANCE && self.has_clear_shot(ctx) {
            return Some(StateChangeResult::with_forward_state(ForwardState::Shooting));
        }
        let pressing = match ctx.tick_context.nearby_opponents(ctx.player.id, PRESSURE_RADIUS) {
            Ok(v) => v,
            Err(_) => {
                return None;
            },
        };
        if pressing.len() >= 2 {
            return Some(StateChangeResult::with_forward_state(ForwardState::Passing));
        }
        if !self.has_space_to_dribble(ctx) {
            return Some(StateChangeResult::with_forward_state(ForwardState::HoldingUpPlay));
        }
        if self.can_shoot(ctx) {
            return Some(StateChangeResult::with_forward_state(ForwardState::Shooting));
        }
        None
    }

    pub fn process_slow(&self, _ctx: &StateProcessingContext) -> (r: Option<StateChangeResult>)
        ensures
            r is None,
    {
        None
    }

    /// Head for the opponent goal, slowing over the last 150 units.
    pub fn velocity(&self, ctx: &StateProcessingContext) -> (r: Option<SteeringOutput>)
        requires
            ctx.valid(),
        ensures
            ({
                let goal = opponent_goal_spec(*ctx.player, *ctx.tick_context);
                r matches Some(out) && out.heading.x == goal.x - ctx.player.position.x
                    && out.heading.y == goal.y - ctx.player.position.y && out.speed_milli
                    == arrive_speed_spec(
                    ctx.player.skills.max_speed_milli_spec(),
                    distance_spec(ctx.player.position, goal),
                    150,
                ) && out.speed_milli <= ctx.player.skills.max_speed_milli_spec()
            }),
    {
        let ops = PlayerOperationsImpl::new(ctx);
        let goal = ops.opponent_goal_position();
        let d = distance(ctx.player.position, goal);
        let max = ctx.player.skills.max_speed_milli();
        let speed = arrive_speed(max, d, 150);
        Some(
            SteeringOutput {
                heading: Vec2 {
                    x: goal.x - ctx.player.position.x,
                    y: goal.y - ctx.player.position.y,
                },
                speed_milli: speed,
            },
        )
    }

    /// No opponent in the immediate dribbling space.
    pub fn has_space_to_dribble(&self, ctx: &StateProcessingContext) -> (r: bool)
        requires
            ctx.valid(),
        ensures
            r == (opponents_within(
                ctx.tick_context.players@,
                *ctx.player,
                DRIBBLE_SPACE_RADIUS,
            ).len() == 0),
    {
        proof {
            lemma_self_on_roster(*ctx);
        }
        match ctx.tick_context.nearby_opponents(ctx.player.id, DRIBBLE_SPACE_RADIUS) {
            Ok(v) => v.len() == 0,
            Err(_) => false,
        }
    }

    /// Close enough to the goal, with a clear lane.
    pub fn can_shoot(&self, ctx: &StateProcessingContext) -> (r: bool)
        requires
            ctx.valid(),
        ensures
            r == (distance_spec(
                ctx.tick_context.ball.position,
                opponent_goal_spec(*ctx.player, *ctx.tick_context),
            ) < CLOSE_SHOT_DISTANCE && clear_shot_spec(
                ctx.tick_context.players@,
                *ctx.player,
                opponent_goal_spec(*ctx.player, *ctx.tick_context),
            )),
    {
        let ops = PlayerOperationsImpl::new(ctx);
        let goal = ops.opponent_goal_position();
        let d = distance(ctx.tick_context.ball.position, goal);
        d < CLOSE_SHOT_DISTANCE && self.has_clear_shot(ctx)
    }

    /// No opponent stands inside the shooting lane towards the goal.
    pub fn has_clear_shot(&self, ctx: &StateProcessingContext) -> (r: bool)
        requires
            ctx.valid(),
        ensures
            r == clear_shot_spec(
                ctx.tick_context.players@,
                *ctx.player,
                opponent_goal_spec(*ctx.player, *ctx.tick_context),
            ),
    {
        let ops = PlayerOperationsImpl::new(ctx);
        let goal = ops.opponent_goal_position();
        let me_dir = Vec2 {
            x: goal.x - ctx.player.position.x,
            y: goal.y - ctx.player.position.y,
        };
        let n = ctx.tick_context.players.len();
        let mut j: usize = 0;
        while j < n
            invariant
                j <= n,
                n == ctx.tick_context.players@.len(),
                ctx.valid(),
                goal == opponent_goal_spec(*ctx.player, *ctx.tick_context),
                crate::geometry::in_bounds(goal),
                me_dir.x == goal.x - ctx.player.position.x,
                me_dir.y == goal.y - ctx.player.position.y,
                forall|k: int|
                    0 <= k < j && is_opponent_of(*ctx.player, #[trigger] ctx.tick_context.players@[k])
                        ==> !aligned_spec(
                        Vec2 {
                            x: (goal.x - ctx.tick_context.players@[k].position.x) as i64,
                            y: (goal.y - ctx.tick_context.players@[k].position.y) as i64,
                        },
                        Vec2 {
                            x: (goal.x - ctx.player.position.x) as i64,
                            y: (goal.y - ctx.player.position.y) as i64,
                        },
                        SHOT_LANE_COS_MILLI,
                    ),
            decreases n - j,
        {
            let p = ctx.tick_context.players[j];
            let opp = match (ctx.player.side, p.side) {
                (Some(a), Some(b)) => a != b,
                _ => false,
            };
            if opp {
                let opp_dir = Vec2 { x: goal.x - p.position.x, y: goal.y - p.position.y };
                if cos_above(opp_dir, me_dir, SHOT_LANE_COS_MILLI) {
                    return false;
                }
            }
            j += 1;
        }
        true
    }
}

/// Returning: the forward holds in place while tracking back.
pub struct ForwardReturningState {}

impl ForwardReturningState {
    pub fn process(_ctx: &StateProcessingContext) -> (r: StateChangeResult)
        ensures
            r.state is None,
            r.velocity is None,
            r.events.events@.len() == 0,
    {
        StateChangeResult::new()
    }
}

/// Shooting: release the shot at the opponent goal and fall back to
/// standing.
#[derive(Default)]
pub struct ForwardShootingState {}

impl ForwardShootingState {
    /// No additional conditions to process in this state.
    pub fn process_conditions(&self, _ctx: crate::player_ops::ConditionContext) {
    }

    /// The fast path always decides: exactly one shoot event at the
    /// opponent goal, with the shooter's finishing-derived force, and a
    /// transition to standing.
    pub fn try_fast(&self, ctx: &StateProcessingContext) -> (r: Option<StateChangeResult>)
        requires
            ctx.valid(),
        ensures
            decided_state(r) == Some(PlayerState::Forward(ForwardState::Standing)),
            decided_events(r) =~= seq![
                Event::PlayerEvent(
                    PlayerEvent::Shoot(
                        ShootingEventModel {
                            from_player_id: ctx.player.id,
                            shot_target: opponent_goal_spec(*ctx.player, *ctx.tick_context),
                            shot_force: shot_power_spec(ctx.player.skills.technical.finishing),
                        },
                    ),
                ),
            ],
    {
        let ops = PlayerOperationsImpl::new(ctx);
        let target = ops.opponent_goal_position();
        let force = ops.shoot_goal_power();
        Some(
            StateChangeResult::with_forward_state_and_event(
                ForwardState::Standing,
                Event::PlayerEvent(
                    PlayerEvent::Shoot(
                        ShootingEventModel::build()
                            .with_player_id(ctx.player.id)
                            .with_target(target)
                            .with_force(force)
                            .build(),
                    ),
                ),
            ),
        )
    }

    pub fn process_slow(&self, _ctx: &StateProcessingContext) -> (r: Option<StateChangeResult>)
        ensures
            r is None,
    {
        None
    }

    pub fn velocity(&self, _ctx: &StateProcessingContext) -> (r: Option<SteeringOutput>)
        ensures
            r == Some(SteeringOutput { heading: Vec2 { x: 0, y: 0 }, speed_milli: 0u64 }),
    {
        Some(SteeringOutput { heading: Vec2 { x: 0, y: 0 }, speed_milli: 0 })
    }
}

/// A tackling forward makes no decisions of its own.
#[derive(Default)]
pub struct ForwardTacklingState {}

impl ForwardTacklingState {
    /// No additional conditions to process in this state.
    pub fn process_conditions(&self, _ctx: crate::player_ops::ConditionContext) {
    }

    pub fn try_fast(&self, _ctx: &StateProcessingContext) -> (r: Option<StateChangeResult>)
        ensures
            r is None,
    {
        None
    }

    pub fn process_slow(&self, _ctx: &StateProcessingContext) -> (r: Option<StateChangeResult>)
        ensures
            r is None,
    {
        None
    }

    pub fn velocity(&self, _ctx: &StateProcessingContext) -> (r: Option<SteeringOutput>)
        ensures
            r == Some(SteeringOutput { heading: Vec2 { x: 0, y: 0 }, speed_milli: 0u64 }),
    {
        Some(SteeringOutput { heading: Vec2 { x: 0, y: 0 }, speed_milli: 0 })
    }
}

/// Take the ball: chase a loose ball; give up once somebody owns it.
#[derive(Default)]
pub struct ForwardTakeBallState {}

impl ForwardTakeBallState {
    /// No additional conditions to process in this state.
    pub fn process_conditions(&self, _ctx: crate::player_ops::ConditionContext) {
    }

    pub fn try_fast(&self, ctx: &StateProcessingContext) -> (r: Option<StateChangeResult>)
        ensures
            ctx.tick_context.ball.owner is Some ==> decided_state(r) == Some(
                PlayerState::Forward(ForwardState::Running),
            ) && decided_events(r).len() == 0,
            ctx.tick_context.ball.owner is None ==> r is None,
    {
        if ctx.tick_context.ball_is_owned() {
            return Some(StateChangeResult::with_forward_state(ForwardState::Running));
        }
        None
    }

    pub fn process_slow(&self, _ctx: &StateProcessingContext) -> (r: Option<StateChangeResult>)
        ensures
            r is None,
    {
        None
    }

    /// Sprint straight onto the loose ball.
    pub fn velocity(&self, ctx: &StateProcessingContext) -> (r: Option<SteeringOutput>)
        requires
            ctx.valid(),
        ensures
            r matches Some(out) && out.heading.x == ctx.tick_context.ball.position.x
                - ctx.player.position.x && out.heading.y == ctx.tick_context.ball.position.y
                - ctx.player.position.y && out.speed_milli == arrive_speed_spec(
                ctx.player.skills.max_speed_milli_spec(),
                distance_spec(ctx.player.position, ctx.tick_context.ball.position),
                0,
            ) && out.speed_milli <= ctx.player.skills.max_speed_milli_spec(),
    {
        let target = ctx.tick_context.ball.position;
        let d = distance(ctx.player.position, target);
        let max = ctx.player.skills.max_speed_milli();
        let speed = arrive_speed(max, d, 0);
        Some(
            SteeringOutput {
                heading: Vec2 {
                    x: target.x - ctx.player.position.x,
                    y: target.y - ctx.player.position.y,
                },
                speed_milli: speed,
            },
        )
    }
}

} // verus!
