//! The goalkeeper behavioural state machine.
//!
//! The keeper's reflex strategy works over half-open distance bands with
//! the lower bound inclusive: within three units it holds its ground, up
//! to ten it moves to clear, up to a hundred it attacks a ball heading at
//! its goal, and otherwise it patrols around its post on a wander heading
//! drawn from the match's random source.

use vstd::prelude::*;

use crate::events::{
    decided_events, decided_state, Event, PlayerEvent, StateChangeResult,
};
use crate::geometry::{aligned_spec, cos_above, distance, distance_spec, Vec2};
use crate::match_state::Ball;
use crate::net::{NetLayer, NeuralNetwork};
use crate::player::{GoalkeeperState, MatchPlayer, PlayerState};
use crate::player_ops::StateProcessingContext;
use crate::steering::{
    arrive_speed_spec, move_axis_spec, step_axis, wander_point_spec, SteeringBehavior,
    SteeringOutput,
};

verus! {

/// The keeper holds its ground inside this distance.
pub const KEEPER_HOLD_DISTANCE: u64 = 3;

/// The keeper moves to clear inside this distance.
pub const KEEPER_CLEAR_DISTANCE: u64 = 10;

/// The keeper attacks a goalbound ball inside this distance.
pub const KEEPER_ATTACK_DISTANCE: u64 = 100;

/// Dive duration in ticks.
pub const DIVE_TICKS: u64 = 10;

/// Dive plus recovery in ticks.
pub const DIVE_RECOVERY_TICKS: u64 = 25;

/// Holding duration in ticks before the keeper distributes.
pub const HOLDING_DURATION: u64 = 100;

/// The ball at `ball_position` is heading towards the goal at
/// `goal_position`: the offset from ball to goal points down the pitch
/// within the milli-cosine bound of 800.
pub open spec fn ball_heading_towards_goal_spec(ball_position: Vec2, goal_position: Vec2) -> bool {
    aligned_spec(
        Vec2 {
            x: (goal_position.x - ball_position.x) as i64,
            y: (goal_position.y - ball_position.y) as i64,
        },
        Vec2 { x: 1, y: 0 },
        800,
    )
}

/// Exec mirror of [`ball_heading_towards_goal_spec`].
pub fn ball_heading_towards_goal(ball_position: Vec2, goal_position: Vec2) -> (r: bool)
    requires
        crate::geometry::in_bounds(ball_position),
        crate::geometry::in_bounds(goal_position),
    ensures
        r == ball_heading_towards_goal_spec(ball_position, goal_position),
{
    let to_goal = Vec2 {
        x: goal_position.x - ball_position.x,
        y: goal_position.y - ball_position.y,
    };
    cos_above(to_goal, Vec2 { x: 1, y: 0 }, 800)
}

/// The point a keeper clears towards: straight up or down the near
/// touchline, by the sign of its own y coordinate.
pub open spec fn clear_target_spec(me: MatchPlayer) -> Vec2 {
    Vec2 { x: 0, y: if me.position.y > 0 { 100i64 } else { -100i64 } }
}

/// The movement law of the keeper's reflex strategy, over the distance
/// bands, whatever the wander angle draw came back as.  The speed never
/// exceeds the keeper's top speed.
pub open spec fn keeper_movement_ok(r: StateChangeResult, me: MatchPlayer, ball: Ball) -> bool {
    let d = distance_spec(me.position, ball.position);
    let max = me.skills.max_speed_milli_spec();
    &&& (r.velocity matches Some(out) && out.speed_milli <= max)
    &&& if d <= KEEPER_HOLD_DISTANCE {
        r.velocity == Some(SteeringOutput { heading: Vec2 { x: 0, y: 0 }, speed_milli: 0u64 })
    } else if d <= KEEPER_CLEAR_DISTANCE {
        r.velocity matches Some(out) && out.heading.x == clear_target_spec(me).x - me.position.x
            && out.heading.y == clear_target_spec(me).y - me.position.y && out.speed_milli
            == arrive_speed_spec(max, distance_spec(me.position, clear_target_spec(me)), 5)
    } else if d <= KEEPER_ATTACK_DISTANCE && ball_heading_towards_goal_spec(
        ball.position,
        me.start_position,
    ) {
        r.velocity matches Some(out) && out.heading.x == ball.position.x - me.position.x
            && out.heading.y == ball.position.y - me.position.y && out.speed_milli
            == arrive_speed_spec(max, d, (10 + d / 10) as u64)
    } else {
        r.velocity matches Some(out) && out.speed_milli == max / 2 && exists|a: u32|
            5 <= a < 90 && out.heading == (Vec2 {
                x: (wander_point_spec(me.start_position, 20, 100, 60, a).x - me.position.x) as i64,
                y: (wander_point_spec(me.start_position, 20, 100, 60, a).y - me.position.y) as i64,
            })
    }
}

/// The reflex strategy of a goalkeeper without a dedicated state.
pub struct GoalkeeperStrategies {}

impl GoalkeeperStrategies {
    /// Pick the keeper's movement for this tick from the distance bands.
    /// The wander band draws its heading angle from the random source;
    /// whatever the draw, the keeper patrols at half pace around its
    /// post.
    pub fn calculate(ctx: &StateProcessingContext, rng: &mut crate::rng::MatchRandom) -> (r:
        StateChangeResult)
        requires
            ctx.valid(),
        ensures
            r.state is None,
            r.events.events@.len() == 0,
            keeper_movement_ok(r, *ctx.player, ctx.tick_context.ball),
    {
        let me = ctx.player;
        let ball_position = ctx.tick_context.ball.position;
        let ball_distance = distance(me.position, ball_position);
        let heading_home = ball_heading_towards_goal(ball_position, me.start_position);
        if ball_distance <= KEEPER_HOLD_DISTANCE {
            return StateChangeResult::with_velocity(
                SteeringOutput { heading: Vec2 { x: 0, y: 0 }, speed_milli: 0 },
            );
        }
        if ball_distance <= KEEPER_CLEAR_DISTANCE {
            let clear_target = Vec2 { x: 0, y: if me.position.y > 0 { 100 } else { -100 } };
            let out = (SteeringBehavior::Arrive { target: clear_target, slowing_distance: 5 })
                .calculate(me);
            return StateChangeResult::with_velocity(out);
        }
        if ball_distance <= KEEPER_ATTACK_DISTANCE && heading_home {
            let out = (SteeringBehavior::Arrive {
                target: ball_position,
                slowing_distance: 10 + ball_distance / 10,
            }).calculate(me);
            return StateChangeResult::with_velocity(out);
        }
        let angle: u32 = 5 + rng.draw(85);
        let out = (SteeringBehavior::Wander {
            target: me.start_position,
            radius: 20,
            jitter: 100,
            distance: 60,
            angle,
        }).calculate(me);
        proof {
            assert(5 <= angle < 90);
        }
        StateChangeResult::with_velocity(out)
    }
}

/// The bundled weight of the keeper evaluator, by action row and feature
/// column.
pub open spec fn keeper_weight_spec(k: int, j: int) -> int {
    let lean = 900 - 100 * k;
    if j == 0 {
        lean
    } else if j == 1 {
        100 * k - 300
    } else if j == 2 {
        -lean
    } else {
        200
    }
}

/// Loads the bundled evaluator weights for the keeper's running choices:
/// four features, one dense layer scoring seven follow-up states.  The
/// contract pins every weight and bias, so loading is deterministic: two
/// loads yield the same evaluator.
#[derive(Debug)]
pub struct GoalkeepersNetLoader;

impl GoalkeepersNetLoader {
    pub fn load() -> (net: NeuralNetwork)
        ensures
            net.wf(4),
            net.layers@.len() == 1,
            net.layers@[0].weights@.len() == 7,
            net.layers@[0].biases@.len() == 7,
            forall|k: int, j: int|
                0 <= k < 7 && 0 <= j < 4 ==> (#[trigger] net.layers@[0].weights@[k]@[j])
                    == keeper_weight_spec(k, j),
            forall|k: int| 0 <= k < 7 ==> (#[trigger] net.layers@[0].biases@[k]) == 50,
    {
        let mut rows: Vec<Vec<i64>> = Vec::new();
        let mut biases: Vec<i64> = Vec::new();
        let mut k: usize = 0;
        while k < 7
            invariant
                rows@.len() == k,
                biases@.len() == k,
                k <= 7,
                forall|i: int| 0 <= i < k ==> (#[trigger] rows@[i])@.len() == 4,
                forall|i: int, j: int|
                    0 <= i < k && 0 <= j < 4 ==> (#[trigger] rows@[i]@[j]) == keeper_weight_spec(
                        i,
                        j,
                    ),
                forall|i: int, j: int|
                    0 <= i < k && 0 <= j < 4 ==> -1000 <= (#[trigger] rows@[i]@[j]) <= 1000,
                forall|i: int| 0 <= i < k ==> (#[trigger] biases@[i]) == 50,
            decreases 7 - k,
        {
            let mut row: Vec<i64> = Vec::new();
            let lean: i64 = 900 - 100 * (k as i64);
            row.push(lean);
            row.push(100 * (k as i64) - 300);
            row.push(-lean);
            row.push(200);
            rows.push(row);
            biases.push(50);
            k += 1;
        }
        let mut layers: Vec<NetLayer> = Vec::new();
        layers.push(NetLayer { weights: rows, biases });
        NeuralNetwork { layers }
    }
}

/// The dive speed in milli-units per tick, from acceleration and
/// agility.
pub open spec fn dive_speed_milli_spec(me: MatchPlayer) -> u64 {
    ((me.skills.physical.acceleration + me.skills.physical.agility) * 200) as u64
}

/// Where a dive carries the keeper: each axis moves towards the ball by
/// at most the jumping-derived dive length.
pub open spec fn dive_position_spec(me: MatchPlayer, ball_position: Vec2) -> Vec2 {
    let step = (me.skills.physical.jumping_reach * 3 / 10) as i64;
    Vec2 {
        x: move_axis_spec(me.position.x, ball_position.x, step) as i64,
        y: move_axis_spec(me.position.y, ball_position.y, step) as i64,
    }
}

/// The diving fast path, whatever the catch draw came back as: a keeper
/// with the ball distributes; far from the ball it returns to its goal;
/// a finished dive stands up; during the dive the keeper's position is
/// overridden along the dive direction; in recovery the keeper catches
/// the ball, claims a loose ball beside it, or waits.
pub open spec fn diving_fast_outcome(
    r: Option<StateChangeResult>,
    me: MatchPlayer,
    ball: Ball,
    t: u64,
) -> bool {
    let d = distance_spec(me.position, ball.position);
    if ball.owner == Some(me.id) {
        decided_state(r) == Some(PlayerState::Goalkeeper(GoalkeeperState::Passing))
            && decided_events(r).len() == 0
    } else if d > KEEPER_ATTACK_DISTANCE {
        decided_state(r) == Some(PlayerState::Goalkeeper(GoalkeeperState::ReturningToGoal))
            && decided_events(r).len() == 0
    } else if t > DIVE_RECOVERY_TICKS {
        decided_state(r) == Some(PlayerState::Goalkeeper(GoalkeeperState::Standing))
            && decided_events(r).len() == 0
    } else if t <= DIVE_TICKS {
        decided_state(r) is None && decided_events(r) =~= seq![
            Event::PlayerEvent(
                PlayerEvent::MovePlayer(me.id, dive_position_spec(me, ball.position)),
            ),
        ] && r is Some
    } else {
        r is Some && ((decided_state(r) == Some(
            PlayerState::Goalkeeper(GoalkeeperState::Standing),
        ) && decided_events(r) =~= seq![
            Event::PlayerEvent(PlayerEvent::CaughtBall(me.id)),
        ] && d < 1) || (decided_state(r) is None && decided_events(r) =~= seq![
            Event::PlayerEvent(PlayerEvent::ClaimBall(me.id)),
        ] && d < 2) || (decided_state(r) is None && decided_events(r).len() == 0 && d >= 2))
    }
}

/// Diving: the committed save attempt, then recovery.
#[derive(Default)]
pub struct GoalkeeperDivingState {}

impl GoalkeeperDivingState {
    /// No additional conditions to process in this state.
    pub fn process_conditions(&self, _ctx: crate::player_ops::ConditionContext) {
    }

    /// The fast path.  A keeper with the ball distributes; far from the
    /// ball it returns to its goal; a finished dive stands up.  During
    /// the dive the keeper's position is overridden along the dive
    /// direction; in recovery the keeper catches the ball on a
    /// skill-dependent draw, or claims a loose ball lying beside it.
    pub fn try_fast(&self, ctx: &StateProcessingContext, rng: &mut crate::rng::MatchRandom) -> (r:
        Option<StateChangeResult>)
        requires
            ctx.valid(),
        ensures
            diving_fast_outcome(
                r,
                *ctx.player,
                ctx.tick_context.ball,
                ctx.in_state_time,
            ),
    {
        let mut result = StateChangeResult::new();
        if ctx.has_ball() {
            return Some(StateChangeResult::with_goalkeeper_state(GoalkeeperState::Passing));
        }
        let ball_distance = distance(ctx.player.position, ctx.tick_context.ball.position);
        if ball_distance > KEEPER_ATTACK_DISTANCE {
            return Some(
                StateChangeResult::with_goalkeeper_state(GoalkeeperState::ReturningToGoal),
            );
        }
        if ctx.in_state_time > DIVE_RECOVERY_TICKS {
            return Some(StateChangeResult::with_goalkeeper_state(GoalkeeperState::Standing));
        }
        if ctx.in_state_time <= DIVE_TICKS {
            let dive_position = self.calculate_dive_position(ctx);
            result.events.add_player_event(
                PlayerEvent::MovePlayer(ctx.player.id, dive_position),
            );
            return Some(result);
        }
        if self.is_ball_caught(ctx, rng) {
            return Some(
                StateChangeResult::with_goalkeeper_state_and_event(
                    GoalkeeperState::Standing,
                    Event::PlayerEvent(PlayerEvent::CaughtBall(ctx.player.id)),
                ),
            );
        }
        if self.is_ball_nearby(ctx) {
            result.events.add_player_event(PlayerEvent::ClaimBall(ctx.player.id));
            return Some(result);
        }
        Some(result)
    }

    pub fn process_slow(&self, _ctx: &StateProcessingContext) -> (r: Option<StateChangeResult>)
        ensures
            r is None,
    {
        None
    }

    /// During the dive window, move along the dive direction at the dive
    /// speed; afterwards lie still.
    pub fn velocity(&self, ctx: &StateProcessingContext) -> (r: Option<SteeringOutput>)
        requires
            ctx.valid(),
        ensures
            ctx.in_state_time <= DIVE_TICKS ==> (r matches Some(out) && out.heading.x
                == ctx.tick_context.ball.position.x - ctx.player.position.x && out.heading.y
                == ctx.tick_context.ball.position.y - ctx.player.position.y && out.speed_milli
                == dive_speed_milli_spec(*ctx.player)),
            ctx.in_state_time > DIVE_TICKS ==> r == Some(
                SteeringOutput { heading: Vec2 { x: 0, y: 0 }, speed_milli: 0u64 },
            ),
    {
        if ctx.in_state_time <= DIVE_TICKS {
            let heading = Vec2 {
                x: ctx.tick_context.ball.position.x - ctx.player.position.x,
                y: ctx.tick_context.ball.position.y - ctx.player.position.y,
            };
            let speed = self.calculate_dive_speed(ctx);
            Some(SteeringOutput { heading, speed_milli: speed })
        } else {
            Some(SteeringOutput { heading: Vec2 { x: 0, y: 0 }, speed_milli: 0 })
        }
    }

    /// How far the dive carries, from the keeper's jumping reach.
    fn calculate_dive_distance(&self, ctx: &StateProcessingContext) -> (d: u32)
        requires
            ctx.player.skills.valid(),
        ensures
            d == ctx.player.skills.physical.jumping_reach * 3 / 10,
    {
        (ctx.player.skills.physical.jumping_reach * 3) / 10
    }

    /// Where this dive carries the keeper.
    fn calculate_dive_position(&self, ctx: &StateProcessingContext) -> (p: Vec2)
        requires
            ctx.valid(),
        ensures
            p == dive_position_spec(*ctx.player, ctx.tick_context.ball.position),
    {
        let step: i64 = self.calculate_dive_distance(ctx) as i64;
        let ball = ctx.tick_context.ball.position;
        Vec2 {
            x: step_axis(ctx.player.position.x, ball.x, step),
            y: step_axis(ctx.player.position.y, ball.y, step),
        }
    }

    /// The dive speed, from acceleration and agility.
    fn calculate_dive_speed(&self, ctx: &StateProcessingContext) -> (s: u64)
        requires
            ctx.player.skills.valid(),
        ensures
            s == dive_speed_milli_spec(*ctx.player),
    {
        (((ctx.player.skills.physical.acceleration + ctx.player.skills.physical.agility) * 200)
            as u64)
    }

    /// Whether the keeper catches the ball: it must lie within one unit,
    /// and a per-mille draw must fall under the first-touch-derived catch
    /// chance.
    fn is_ball_caught(&self, ctx: &StateProcessingContext, rng: &mut crate::rng::MatchRandom) -> (r:
        bool)
        requires
            ctx.valid(),
        ensures
            r ==> distance_spec(ctx.player.position, ctx.tick_context.ball.position) < 1,
    {
        let ball_distance = distance(ctx.player.position, ctx.tick_context.ball.position);
        let catch_chance = ctx.player.skills.technical.first_touch * 50;
        ball_distance < 1 && rng.draw(1000) < catch_chance
    }

    /// Whether the ball lies within claiming reach.
    fn is_ball_nearby(&self, ctx: &StateProcessingContext) -> (r: bool)
        requires
            ctx.valid(),
        ensures
            r == (distance_spec(ctx.player.position, ctx.tick_context.ball.position) < 2),
    {
        distance(ctx.player.position, ctx.tick_context.ball.position) < 2
    }
}

/// Holding: keep hold of the ball, then distribute.
#[derive(Default)]
pub struct GoalkeeperHoldingState {}

impl GoalkeeperHoldingState {
    /// No additional conditions to process in this state.
    pub fn process_conditions(&self, _ctx: crate::player_ops::ConditionContext) {
    }

    /// Without the ball the keeper stands up; after the holding duration
    /// it moves the ball on.
    pub fn try_fast(&self, ctx: &StateProcessingContext) -> (r: Option<StateChangeResult>)
        ensures
            ctx.tick_context.ball.owner != Some(ctx.player.id) ==> decided_state(r) == Some(
                PlayerState::Goalkeeper(GoalkeeperState::Standing),
            ) && decided_events(r).len() == 0,
            ctx.tick_context.ball.owner == Some(ctx.player.id) && ctx.in_state_time
                >= HOLDING_DURATION ==> decided_state(r) == Some(
                PlayerState::Goalkeeper(GoalkeeperState::Distributing),
            ) && decided_events(r).len() == 0,
            ctx.tick_context.ball.owner == Some(ctx.player.id) && ctx.in_state_time
                < HOLDING_DURATION ==> r is None,
    {
        if !ctx.has_ball() {
            return Some(StateChangeResult::with_goalkeeper_state(GoalkeeperState::Standing));
        }
        if ctx.in_state_time >= HOLDING_DURATION {
            return Some(
                StateChangeResult::with_goalkeeper_state(GoalkeeperState::Distributing),
            );
        }
        None
    }

    pub fn process_slow(&self, _ctx: &StateProcessingContext) -> (r: Option<StateChangeResult>)
        ensures
            r is None,
    {
        None
    }

    pub fn velocity(&self, _ctx: &StateProcessingContext) -> (r: Option<SteeringOutput>)
        ensures
            r == Some(SteeringOutput { heading: Vec2 { x: 0, y: 0 }, speed_milli: 0u64 }),
    {
        Some(SteeringOutput { heading: Vec2 { x: 0, y: 0 }, speed_milli: 0 })
    }
}

} // verus!
