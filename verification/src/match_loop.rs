//! The match loop: drives ticks until full time.
//!
//! Periods run strictly forward, first half to half time to second half
//! to full time.  On full time the loop becomes inert: a further tick
//! call fails with an `AlreadyEnded` condition and changes nothing, the
//! event log included.  Within a playing tick, every agent is evaluated
//! against the same read-only snapshot, in roster order; the proposals
//! are then committed by the event pipeline, stamina decays uniformly,
//! and time advances.

use vstd::prelude::*;

use crate::context::TickContext;
use crate::events::{Event, PlayerEvent, StateChangeResult};
use crate::match_state::{FieldSize, MatchPeriod, MatchState, player_ids_unique};
use crate::pipeline::{advance_ball, apply_stamina_decay, commit_events};
use crate::player::{
    DefenderState, ForwardState, GoalkeeperState, MatchPlayer, MidfielderState, PlayerState,
};
use crate::player_ops::StateProcessingContext;
use crate::rng::MatchRandom;
use crate::steering::{step_axis, SteeringOutput};

verus! {

/// Ticks in one half.
pub const HALF_TICKS: u64 = 2700;

/// Failure of a tick call.
#[derive(Clone, Copy, Debug, PartialEq, Eq, Structural)]
pub enum MatchError {
    /// The match has reached full time; the loop is inert.
    AlreadyEnded,
}

/// How far a period has progressed; periods only ever move up this rank.
pub open spec fn period_rank(p: MatchPeriod) -> int {
    match p {
        MatchPeriod::FirstHalf => 0,
        MatchPeriod::HalfTime => 1,
        MatchPeriod::SecondHalf => 2,
        MatchPeriod::FullTime => 3,
    }
}

/// The period after a tick that ends at `new_time`.
pub open spec fn next_period(p: MatchPeriod, new_time: u64) -> MatchPeriod {
    match p {
        MatchPeriod::FirstHalf => if new_time >= HALF_TICKS {
            MatchPeriod::HalfTime
        } else {
            MatchPeriod::FirstHalf
        },
        MatchPeriod::HalfTime => MatchPeriod::SecondHalf,
        MatchPeriod::SecondHalf => if new_time >= 2 * HALF_TICKS {
            MatchPeriod::FullTime
        } else {
            MatchPeriod::SecondHalf
        },
        MatchPeriod::FullTime => MatchPeriod::FullTime,
    }
}

/// Periods never move backwards: the linear order first half, half time,
/// second half, full time is respected by every transition.
pub proof fn lemma_period_forward(p: MatchPeriod, new_time: u64)
    ensures
        period_rank(next_period(p, new_time)) >= period_rank(p),
{
}

/// Clamp a coordinate into the playing band.
fn clamp_play(v: i128) -> (c: i64)
    ensures
        c == crate::geometry::clamp_spec(v as int, 100_000),
{
    if v < -100_000 {
        -100_000
    } else if v > 100_000 {
        100_000
    } else {
        v as i64
    }
}

/// The point one tick of a movement intent carries an agent to: each
/// axis moves towards the desired point (clamped into the playing band)
/// by at most the intent's speed in whole units.
pub open spec fn advanced_position_spec(pos: crate::geometry::Vec2, out: SteeringOutput)
    -> crate::geometry::Vec2 {
    let step = (out.speed_milli / 1000) as i64;
    crate::geometry::Vec2 {
        x: crate::steering::move_axis_spec(
            pos.x,
            crate::geometry::clamp_spec(pos.x + out.heading.x, 100_000) as i64,
            step,
        ) as i64,
        y: crate::steering::move_axis_spec(
            pos.y,
            crate::geometry::clamp_spec(pos.y + out.heading.y, 100_000) as i64,
            step,
        ) as i64,
    }
}

/// Advance a position one tick along a movement intent.
pub fn advance_position(pos: crate::geometry::Vec2, out: SteeringOutput) -> (np:
    crate::geometry::Vec2)
    requires
        crate::geometry::in_play_bounds(pos),
        out.speed_milli <= 100_000,
    ensures
        np == advanced_position_spec(pos, out),
        crate::geometry::in_play_bounds(np),
{
    let step: i64 = (out.speed_milli / 1000) as i64;
    let tx = clamp_play((pos.x as i128) + (out.heading.x as i128));
    let ty = clamp_play((pos.y as i128) + (out.heading.y as i128));
    let nx = step_axis(pos.x, tx, step);
    let ny = step_axis(pos.y, ty, step);
    crate::geometry::Vec2 { x: nx, y: ny }
}

/// The shot event a shooting state releases: at the goal the player
/// attacks, with the finishing-derived force.
pub open spec fn shoot_event_spec(player: MatchPlayer, ctx: TickContext) -> Event {
    Event::PlayerEvent(
        crate::events::PlayerEvent::Shoot(
            crate::events::ShootingEventModel {
                from_player_id: player.id,
                shot_target: crate::player_ops::opponent_goal_spec(player, ctx),
                shot_force: crate::player_ops::shot_power_spec(player.skills.technical.finishing),
            },
        ),
    )
}

/// `res` holds the agent in place: no transition, no events, and the
/// given movement intent.
pub open spec fn holds_with(res: StateChangeResult, vel: Option<SteeringOutput>) -> bool {
    res.state is None && res.events.events@.len() == 0 && res.velocity == vel
}

/// What one agent's evaluation yields, state by state: the decision is
/// the state's own fast-path law (the slow path yields no decision for
/// these states, so the fast path short-circuits it), and the movement
/// intent is the state's own movement law.  For the two states that
/// consult the random source, the decision is pinned to some outcome of
/// the state's law, which holds whatever the draws came back as.
pub open spec fn evaluation_spec(
    res: StateChangeResult,
    player: MatchPlayer,
    ctx: TickContext,
) -> bool {
    let players = ctx.players@;
    let ball = ctx.ball;
    let goal = crate::player_ops::opponent_goal_spec(player, ctx);
    let zero = SteeringOutput {
        heading: crate::geometry::Vec2 { x: 0, y: 0 },
        speed_milli: 0u64,
    };
    match player.state {
        PlayerState::Defender(ds) => match ds {
            DefenderState::Marking => {
                &&& res.state == crate::events::lift_defender(
                    crate::defenders::marking_transition(player, players, ball),
                )
                &&& res.events.events@.len() == 0
                &&& res.velocity == Some(
                    crate::defenders::marking_velocity_spec(player, players),
                )
            },
            DefenderState::Tackling => {
                &&& exists|r: Option<StateChangeResult>|
                    (#[trigger] crate::defenders::tackling_fast_outcome(r, player, players, ball))
                        && res.state == crate::events::decided_state(r) && res.events.events@
                        == crate::events::decided_events(r)
                &&& res.velocity == Some(
                    crate::steering::arrive_output_spec(player, ball.position, 10),
                )
            },
            DefenderState::Passing => {
                &&& if ball.owner != Some(player.id) {
                    res.state == Some(PlayerState::Defender(DefenderState::Standing))
                        && res.events.events@.len() == 0
                } else {
                    match crate::defenders::best_pass_option_spec(players, player, goal) {
                        Some(tid) => res.state == Some(
                            PlayerState::Defender(DefenderState::Returning),
                        ) && res.events.events@ =~= seq![
                            crate::defenders::passing_pass_event(player, players, tid),
                        ],
                        None => match crate::defenders::nearest_from(
                            crate::context::teammates_within(players, player, 30),
                            player,
                            0,
                            None,
                        ) {
                            Some(tid) => res.state is None && res.events.events@ =~= seq![
                                crate::defenders::passing_pass_event(player, players, tid),
                            ],
                            None => res.state is None && res.events.events@.len() == 0,
                        },
                    }
                }
                &&& res.velocity == Some(zero)
            },
            DefenderState::Shooting => {
                &&& res.state == Some(PlayerState::Defender(DefenderState::Standing))
                &&& res.events.events@ =~= seq![shoot_event_spec(player, ctx)]
                &&& res.velocity == Some(zero)
            },
            DefenderState::SlidingTackle => holds_with(res, Some(zero)),
            DefenderState::Resting => holds_with(res, None),
            _ => holds_with(res, Some(zero)),
        },
        PlayerState::Forward(fs) => match fs {
            ForwardState::Dribbling => {
                &&& res.state == crate::events::lift_forward(
                    crate::forwards::dribbling_transition(
                        player,
                        players,
                        ball.position,
                        ball.owner,
                        goal,
                    ),
                )
                &&& res.events.events@.len() == 0
                &&& res.velocity == Some(crate::steering::arrive_output_spec(player, goal, 150))
            },
            ForwardState::Shooting => {
                &&& res.state == Some(PlayerState::Forward(ForwardState::Standing))
                &&& res.events.events@ =~= seq![shoot_event_spec(player, ctx)]
                &&& res.velocity == Some(zero)
            },
            ForwardState::TakeBall => {
                &&& res.state == if ball.owner is Some {
                    Some(PlayerState::Forward(ForwardState::Running))
                } else {
                    None::<PlayerState>
                }
                &&& res.events.events@.len() == 0
                &&& res.velocity == Some(
                    crate::steering::arrive_output_spec(player, ball.position, 0),
                )
            },
            ForwardState::Tackling => holds_with(res, Some(zero)),
            _ => holds_with(res, None),
        },
        PlayerState::Goalkeeper(gs) => match gs {
            GoalkeeperState::Diving => {
                &&& exists|r: Option<StateChangeResult>|
                    (#[trigger] crate::goalkeepers::diving_fast_outcome(
                        r,
                        player,
                        ball,
                        player.in_state_time,
                    )) && res.state == crate::events::decided_state(r) && res.events.events@
                        == crate::events::decided_events(r)
                &&& res.velocity == Some(
                    if player.in_state_time <= crate::goalkeepers::DIVE_TICKS {
                        SteeringOutput {
                            heading: crate::geometry::Vec2 {
                                x: (ball.position.x - player.position.x) as i64,
                                y: (ball.position.y - player.position.y) as i64,
                            },
                            speed_milli: crate::goalkeepers::dive_speed_milli_spec(player),
                        }
                    } else {
                        zero
                    },
                )
            },
            GoalkeeperState::Holding => {
                &&& res.state == if ball.owner != Some(player.id) {
                    Some(PlayerState::Goalkeeper(GoalkeeperState::Standing))
                } else if player.in_state_time >= crate::goalkeepers::HOLDING_DURATION {
                    Some(PlayerState::Goalkeeper(GoalkeeperState::Distributing))
                } else {
                    None::<PlayerState>
                }
                &&& res.events.events@.len() == 0
                &&& res.velocity == Some(zero)
            },
            _ => {
                &&& res.state is None
                &&& res.events.events@.len() == 0
                &&& crate::goalkeepers::keeper_movement_ok(res, player, ball)
            },
        },
        PlayerState::Midfielder(ms) => match ms {
            MidfielderState::Standing => {
                &&& res.state == crate::events::lift_midfielder(
                    crate::midfielders::standing_transition(
                        player,
                        players,
                        ball,
                        ctx.field_size.width,
                    ),
                )
                &&& res.events.events@.len() == 0
                &&& res.velocity == Some(zero)
            },
            MidfielderState::Dribbling => {
                &&& res.state == crate::events::lift_midfielder(
                    crate::midfielders::dribbling_transition(
                        player,
                        players,
                        ball,
                        ctx.field_size.width,
                        goal,
                        player.in_state_time,
                    ),
                )
                &&& res.events.events@.len() == 0
                &&& res.velocity == Some(zero)
            },
            _ => holds_with(res, None),
        },
    }
}

/// Evaluate one agent against the tick snapshot: fast path first, slow
/// path if the fast path yields nothing, movement synthesis either way.
/// The result follows the agent's own state's laws exactly
/// ([`evaluation_spec`]); in particular the decision never leaves the
/// agent's role's state set and any movement intent respects the
/// engine's speed band.
pub fn evaluate_player(ctx: &TickContext, player: &MatchPlayer, rng: &mut MatchRandom) -> (res:
    StateChangeResult)
    requires
        ctx.wf(),
        player.valid(),
        exists|i: int| 0 <= i < ctx.players@.len() && ctx.players@[i] == *player,
    ensures
        evaluation_spec(res, *player, *ctx),
        res.state matches Some(s) ==> s.role_spec() == player.state.role_spec(),
        res.velocity matches Some(out) ==> out.speed_milli <= 100_000,
{
    let spc = StateProcessingContext {
        player,
        tick_context: ctx,
        in_state_time: player.in_state_time,
    };
    proof {
        assert(spc.valid());
    }
    match player.state {
        PlayerState::Defender(ds) => {
            match ds {
                DefenderState::Marking => {
                    let handler = crate::defenders::DefenderMarkingState {};
                    let mut res = match handler.try_fast(&spc) {
                        Some(r) => r,
                        None => match handler.process_slow(&spc) {
                            Some(r) => r,
                            None => StateChangeResult::new(),
                        },
                    };
                    res.velocity = handler.velocity(&spc);
                    res
                },
                DefenderState::Tackling => {
                    let handler = crate::defenders::DefenderTacklingState {};
                    let fast = handler.try_fast(&spc, rng);
                    let ghost witness = fast;
                    let mut res = match fast {
                        Some(r) => r,
                        None => match handler.process_slow(&spc) {
                            Some(r) => r,
                            None => StateChangeResult::new(),
                        },
                    };
                    proof {
                        assert(crate::defenders::tackling_fast_outcome(
                            witness,
                            *player,
                            ctx.players@,
                            ctx.ball,
                        ) && res.state == crate::events::decided_state(witness)
                            && res.events.events@ == crate::events::decided_events(witness));
                    }
                    res.velocity = handler.velocity(&spc);
                    res
                },
                DefenderState::Passing => {
                    let handler = crate::defenders::DefenderPassingState {};
                    let mut res = match handler.try_fast(&spc) {
                        Some(r) => r,
                        None => match handler.process_slow(&spc) {
                            Some(r) => r,
                            None => StateChangeResult::new(),
                        },
                    };
                    res.velocity = handler.velocity(&spc);
                    res
                },
                DefenderState::Shooting => {
                    let handler = crate::defenders::DefenderShootingState {};
                    let mut res = match handler.try_fast(&spc) {
                        Some(r) => r,
                        None => StateChangeResult::new(),
                    };
                    res.velocity = handler.velocity(&spc);
                    res
                },
                DefenderState::SlidingTackle => {
                    let handler = crate::defenders::DefenderSlidingTackleState {};
                    let mut res = match handler.try_fast(&spc) {
                        Some(r) => r,
                        None => match handler.process_slow(&spc) {
                            Some(r) => r,
                            None => StateChangeResult::new(),
                        },
                    };
                    res.velocity = handler.velocity(&spc);
                    res
                },
                DefenderState::Resting => {
                    let handler = crate::defenders::DefenderRestingState {};
                    match handler.try_fast(&spc) {
                        Some(r) => r,
                        None => match handler.process_slow(&spc) {
                            Some(r) => r,
                            None => StateChangeResult::new(),
                        },
                    }
                },
                _ => {
                    let handler = crate::defenders::DefenderCommonState {};
                    let mut res = match handler.try_fast(&spc) {
                        Some(r) => r,
                        None => match handler.process_slow(&spc) {
                            Some(r) => r,
                            None => StateChangeResult::new(),
                        },
                    };
                    res.velocity = handler.velocity(&spc);
                    res
                },
            }
        },
        PlayerState::Forward(fs) => {
            match fs {
                ForwardState::Dribbling => {
                    let handler = crate::forwards::ForwardDribblingState {};
                    let mut res = match handler.try_fast(&spc) {
                        Some(r) => r,
                        None => match handler.process_slow(&spc) {
                            Some(r) => r,
                            None => StateChangeResult::new(),
                        },
                    };
                    res.velocity = handler.velocity(&spc);
                    res
                },
                ForwardState::Shooting => {
                    let handler = crate::forwards::ForwardShootingState {};
                    let mut res = match handler.try_fast(&spc) {
                        Some(r) => r,
                        None => StateChangeResult::new(),
                    };
                    res.velocity = handler.velocity(&spc);
                    res
                },
                ForwardState::TakeBall => {
                    let handler = crate::forwards::ForwardTakeBallState {};
                    let mut res = match handler.try_fast(&spc) {
                        Some(r) => r,
                        None => match handler.process_slow(&spc) {
                            Some(r) => r,
                            None => StateChangeResult::new(),
                        },
                    };
                    res.velocity = handler.velocity(&spc);
                    res
                },
                ForwardState::Tackling => {
                    let handler = crate::forwards::ForwardTacklingState {};
                    let mut res = match handler.try_fast(&spc) {
                        Some(r) => r,
                        None => match handler.process_slow(&spc) {
                            Some(r) => r,
                            None => StateChangeResult::new(),
                        },
                    };
                    res.velocity = handler.velocity(&spc);
                    res
                },
                ForwardState::Returning => crate::forwards::ForwardReturningState::process(&spc),
                _ => StateChangeResult::new(),
            }
        },
        PlayerState::Goalkeeper(gs) => {
            match gs {
                GoalkeeperState::Diving => {
                    let handler = crate::goalkeepers::GoalkeeperDivingState {};
                    let fast = handler.try_fast(&spc, rng);
                    let ghost witness = fast;
                    let mut res = match fast {
                        Some(r) => r,
                        None => match handler.process_slow(&spc) {
                            Some(r) => r,
                            None => StateChangeResult::new(),
                        },
                    };
                    proof {
                        assert(crate::goalkeepers::diving_fast_outcome(
                            witness,
                            *player,
                            ctx.ball,
                            player.in_state_time,
                        ) && res.state == crate::events::decided_state(witness)
                            && res.events.events@ == crate::events::decided_events(witness));
                    }
                    res.velocity = handler.velocity(&spc);
                    res
                },
                GoalkeeperState::Holding => {
                    let handler = crate::goalkeepers::GoalkeeperHoldingState {};
                    let mut res = match handler.try_fast(&spc) {
                        Some(r) => r,
                        None => match handler.process_slow(&spc) {
                            Some(r) => r,
                            None => StateChangeResult::new(),
                        },
                    };
                    res.velocity = handler.velocity(&spc);
                    res
                },
                _ => crate::goalkeepers::GoalkeeperStrategies::calculate(&spc, rng),
            }
        },
        PlayerState::Midfielder(ms) => {
            match ms {
                MidfielderState::Standing => {
                    let handler = crate::midfielders::MidfielderStandingState {};
                    let mut res = match handler.try_fast(&spc) {
                        Some(r) => r,
                        None => match handler.process_slow(&spc) {
                            Some(r) => r,
                            None => StateChangeResult::new(),
                        },
                    };
                    res.velocity = handler.velocity(&spc);
                    res
                },
                MidfielderState::Dribbling => {
                    let handler = crate::midfielders::MidfielderDribblingState {};
                    let mut res = match handler.try_fast(&spc, rng) {
                        Some(r) => r,
                        None => match handler.process_slow(&spc) {
                            Some(r) => r,
                            None => StateChangeResult::new(),
                        },
                    };
                    res.velocity = handler.velocity(&spc);
                    res
                },
                _ => StateChangeResult::new(),
            }
        },
    }
}

/// One match, driven tick by tick.
pub struct MatchEngine {
    pub state: MatchState,
}

impl MatchEngine {
    /// Start a match over a roster.
    pub fn new(players: Vec<MatchPlayer>, field_size: FieldSize) -> (engine: MatchEngine)
        requires
            forall|i: int| 0 <= i < players@.len() ==> (#[trigger] players@[i]).valid(),
            player_ids_unique(players@),
            field_size.valid(),
        ensures
            engine.state.well_formed(),
            engine.state.period == MatchPeriod::FirstHalf,
            engine.state.time == 0,
            engine.state.event_log@.len() == 0,
    {
        MatchEngine { state: MatchState::from_roster(players, field_size) }
    }

    /// Advance the match by one tick.
    ///
    /// After full time the loop is inert: the call fails with
    /// `AlreadyEnded` and the whole match state, the event log included,
    /// is unchanged.  A half-time tick only restarts the clock.  A
    /// playing tick applies the uniform stamina decay to every agent,
    /// appends exactly this tick's proposals to the log — each entry
    /// timestamped with the tick and resolved by the pipeline fold, so
    /// the first valid ownership claim wins — and leaves the ball with
    /// the owner that fold yields.  Time advances by one and the period
    /// moves forward along the linear order.
    pub fn tick(&mut self, rng: &mut MatchRandom) -> (r: Result<(), MatchError>)
        requires
            old(self).state.well_formed(),
            old(self).state.time < u64::MAX,
        ensures
            old(self).state.period == MatchPeriod::FullTime ==> r == Err::<(), MatchError>(
                MatchError::AlreadyEnded,
            ) && final(self).state == old(self).state,
            old(self).state.period != MatchPeriod::FullTime ==> {
                &&& r == Ok::<(), MatchError>(())
                &&& final(self).state.well_formed()
                &&& final(self).state.time == old(self).state.time + 1
                &&& final(self).state.period == next_period(
                    old(self).state.period,
                    (old(self).state.time + 1) as u64,
                )
                &&& final(self).state.players@.len() == old(self).state.players@.len()
                &&& forall|i: int|
                    0 <= i < old(self).state.players@.len() ==> (#[trigger] final(self).state.players@[i]).condition
                        <= old(self).state.players@[i].condition
                &&& forall|i: int|
                    0 <= i < old(self).state.players@.len() ==> (#[trigger] final(self).state.players@[i]).id
                        == old(self).state.players@[i].id
                &&& final(self).state.event_log@.len() >= old(self).state.event_log@.len()
                &&& final(self).state.event_log@.take(
                    old(self).state.event_log@.len() as int,
                ) == old(self).state.event_log@
            },
            old(self).state.period == MatchPeriod::HalfTime ==> final(self).state.players
                == old(self).state.players && final(self).state.ball == old(self).state.ball
                && final(self).state.event_log == old(self).state.event_log,
            old(self).state.period == MatchPeriod::FirstHalf || old(self).state.period
                == MatchPeriod::SecondHalf ==> {
                let appended = final(self).state.event_log@.skip(
                    old(self).state.event_log@.len() as int,
                ).map_values(|ce: crate::match_state::CommittedEvent| ce.event);
                &&& forall|i: int|
                    0 <= i < old(self).state.players@.len() ==> (#[trigger] final(self).state.players@[i]).condition
                        == if old(self).state.players@[i].condition
                        >= crate::pipeline::STAMINA_DECAY_PER_TICK {
                        (old(self).state.players@[i].condition
                            - crate::pipeline::STAMINA_DECAY_PER_TICK) as u32
                    } else {
                        0u32
                    }
                &&& forall|k: int|
                    0 <= k < appended.len() ==> {
                        let entry = #[trigger] final(self).state.event_log@[old(self).state.event_log@.len() + k];
                        &&& entry.time == old(self).state.time
                        &&& entry.outcome == crate::pipeline::outcome_at(
                            old(self).state.players@,
                            appended,
                            old(self).state.ball.owner,
                            k,
                        )
                    }
                &&& final(self).state.ball.owner == crate::pipeline::ownership_after(
                    old(self).state.players@,
                    appended,
                    old(self).state.ball.owner,
                    false,
                ).0
            },
            period_rank(final(self).state.period) >= period_rank(old(self).state.period),
    {
        match self.state.period {
            MatchPeriod::FullTime => {
                return Err(MatchError::AlreadyEnded);
            },
            MatchPeriod::HalfTime => {
                self.state.time = self.state.time + 1;
                self.state.period = MatchPeriod::SecondHalf;
                proof {
                    assert(self.state.event_log@.take(
                        old(self).state.event_log@.len() as int,
                    ) =~= old(self).state.event_log@);
                }
                return Ok(());
            },
            _ => {},
        }
        let ctx = TickContext::build(&self.state);
        let n = self.state.players.len();
        let mut proposals: Vec<PlayerEvent> = Vec::new();
        let mut i: usize = 0;
        while i < n
            invariant
                i <= n,
                n == self.state.players@.len(),
                ctx.wf(),
                ctx.players@ == old(self).state.players@,
                self.state.well_formed(),
                self.state.players@.len() == old(self).state.players@.len(),
                forall|j: int|
                    0 <= j < n ==> {
                        let np = #[trigger] self.state.players@[j];
                        let op = old(self).state.players@[j];
                        &&& np.id == op.id
                        &&& np.side == op.side
                        &&& np.condition == op.condition
                        &&& np.valid()
                    },
                forall|j: int|
                    i <= j < n ==> #[trigger] self.state.players@[j] == old(
                        self,
                    ).state.players@[j],
                self.state.ball == old(self).state.ball,
                self.state.event_log == old(self).state.event_log,
                self.state.time == old(self).state.time,
                self.state.period == old(self).state.period,
                self.state.score == old(self).state.score,
                self.state.field_size == old(self).state.field_size,
                self.state.goal_positions == old(self).state.goal_positions,
            decreases n - i,
        {
            let snapshot = ctx.players[i];
            proof {
                assert(ctx.players@[i as int] == snapshot);
            }
            let res = evaluate_player(&ctx, &snapshot, rng);
            let mut updated = self.state.players[i];
            match res.state {
                Some(next_state) => {
                    let changed = !state_tags_equal(&updated.state, &next_state);
                    if changed {
                        updated.state = next_state;
                        updated.in_state_time = 0;
                    } else {
                        if updated.in_state_time < u64::MAX {
                            updated.in_state_time = updated.in_state_time + 1;
                        }
                    }
                },
                None => {
                    if updated.in_state_time < u64::MAX {
                        updated.in_state_time = updated.in_state_time + 1;
                    }
                },
            }
            match res.velocity {
                Some(out) => {
                    updated.position = advance_position(updated.position, out);
                },
                None => {},
            }
            proof {
                assert(ctx.players@[i as int].state == self.state.players@[i as int].state);
                assert(updated.state.role_spec()
                    == self.state.players@[i as int].state.role_spec());
            }
            self.state.players.set(i, updated);
            proof {
                lemma_same_ids_same_roster(old(self).state.players@, self.state.players@);
            }
            let mut k: usize = 0;
            let events = res.events.events;
            while k < events.len()
                invariant
                    k <= events@.len(),
                decreases events@.len() - k,
            {
                match events[k] {
                    Event::PlayerEvent(pe) => {
                        proposals.push(pe);
                    },
                }
                k += 1;
            }
            i += 1;
        }
        let ghost players_pre = self.state.players@;
        let ghost owner_pre = self.state.ball.owner;
        let ghost log_pre = self.state.event_log@;
        commit_events(&mut self.state, &proposals);
        proof {
            lemma_same_ids_same_roster(old(self).state.players@, players_pre);
        }
        advance_ball(&mut self.state);
        apply_stamina_decay(&mut self.state);
        proof {
            let oldlen = old(self).state.event_log@.len() as int;
            let appended = self.state.event_log@.skip(oldlen).map_values(
                |ce: crate::match_state::CommittedEvent| ce.event,
            );
            assert(log_pre == old(self).state.event_log@);
            assert(self.state.event_log@.len() == oldlen + proposals@.len());
            assert forall|k: int| 0 <= k < proposals@.len() implies appended[k] == proposals@[k] by {
                assert(self.state.event_log@.skip(oldlen)[k] == self.state.event_log@[oldlen
                    + k]);
                assert(self.state.event_log@[oldlen + k].event == proposals@[k]);
            }
            assert(appended =~= proposals@);
            crate::pipeline::lemma_fold_roster_invariant(
                players_pre,
                old(self).state.players@,
                proposals@,
                owner_pre,
                false,
            );
            assert forall|k: int| 0 <= k < appended.len() implies {
                let entry = #[trigger] self.state.event_log@[oldlen + k];
                &&& entry.time == old(self).state.time
                &&& entry.outcome == crate::pipeline::outcome_at(
                    old(self).state.players@,
                    appended,
                    old(self).state.ball.owner,
                    k,
                )
            } by {
                crate::pipeline::lemma_outcome_roster_invariant(
                    players_pre,
                    old(self).state.players@,
                    proposals@,
                    owner_pre,
                    k,
                );
            }
        }
        self.state.time = self.state.time + 1;
        let new_time = self.state.time;
        match self.state.period {
            MatchPeriod::FirstHalf => {
                if new_time >= HALF_TICKS {
                    self.state.period = MatchPeriod::HalfTime;
                }
            },
            MatchPeriod::SecondHalf => {
                if new_time >= 2 * HALF_TICKS {
                    self.state.period = MatchPeriod::FullTime;
                }
            },
            _ => {},
        }
        proof {
            assert(self.state.event_log@.take(old(self).state.event_log@.len() as int)
                =~= old(self).state.event_log@);
        }
        Ok(())
    }
}

impl MatchEngine {
    /// The final score, once the loop has reached full time and become
    /// inert; the full committed event log sits in the match state
    /// beside it.
    pub fn final_score(&self) -> (r: Option<crate::match_state::Score>)
        ensures
            r is Some <==> self.state.period == MatchPeriod::FullTime,
            r matches Some(s) ==> s == self.state.score,
    {
        match self.state.period {
            MatchPeriod::FullTime => Some(self.state.score),
            _ => None,
        }
    }
}

/// Two state tags are the same state.
fn state_tags_equal(a: &PlayerState, b: &PlayerState) -> (r: bool)
    ensures
        r == (a == b),
{
    a == b
}

/// Rosters with pointwise equal identities accept the same identities.
proof fn lemma_same_ids_same_roster(a: Seq<MatchPlayer>, b: Seq<MatchPlayer>)
    requires
        a.len() == b.len(),
        forall|i: int| 0 <= i < a.len() ==> (#[trigger] b[i]).id == a[i].id,
    ensures
        forall|x: u32|
            crate::match_state::roster_has_id(a, x) <==> crate::match_state::roster_has_id(b, x),
{
    assert forall|x: u32|
        crate::match_state::roster_has_id(a, x) <==> crate::match_state::roster_has_id(
        b,
        x,
    ) by {
        if crate::match_state::roster_has_id(a, x) {
            let i = choose|i: int| 0 <= i < a.len() && a[i].id == x;
            assert(b[i].id == x);
        }
        if crate::match_state::roster_has_id(b, x) {
            let i = choose|i: int| 0 <= i < b.len() && b[i].id == x;
            assert(a[i].id == x);
        }
    }
}

} // verus!
