use football_sim::context::{TickContext, TickError};
use football_sim::defenders::{DefenderMarkingState, DefenderPassingState, DefenderTacklingState};
use football_sim::events::{Event, PassingEventModel, PlayerEvent};
use football_sim::forwards::{ForwardDribblingState, ForwardShootingState};
use football_sim::geometry::{distance, isqrt, Vec2};
use football_sim::goalkeepers::{ball_heading_towards_goal, GoalkeeperDivingState, GoalkeeperHoldingState};
use football_sim::match_loop::{MatchEngine, MatchError};
use football_sim::match_state::{CommitOutcome, FieldSize, MatchPeriod, MatchState};
use football_sim::midfielders::{MidfielderDribblingState, MidfielderStandingState};
use football_sim::pipeline::{advance_ball, apply_stamina_decay, commit_events};
use football_sim::player::{
    DefenderState, ForwardState, GoalkeeperState, MatchPlayer, MatchPlayerStatistics,
    MidfielderState, PlayerPositionType, PlayerSide, PlayerState,
};
use football_sim::player_ops::{PlayerOperationsImpl, StateProcessingContext};
use football_sim::rng::MatchRandom;
use football_sim::skills::{Mental, Physical, PlayerSkills, Technical};
use football_sim::steering::arrive_speed;

fn skills() -> PlayerSkills {
    PlayerSkills {
        technical: Technical {
            corners: 10,
            crossing: 10,
            dribbling: 10,
            finishing: 10,
            first_touch: 10,
            free_kick_taking: 10,
            heading: 10,
            long_shots: 10,
            long_throws: 10,
            marking: 10,
            passing: 10,
            penalty_taking: 10,
            tackling: 10,
            technique: 10,
        },
        mental: Mental {
            aggression: 10,
            anticipation: 10,
            bravery: 10,
            composure: 10,
            concentration: 10,
            decisions: 10,
            determination: 10,
            flair: 10,
            leadership: 10,
            off_the_ball: 10,
            positioning: 10,
            teamwork: 10,
            vision: 10,
            work_rate: 10,
        },
        physical: Physical {
            acceleration: 10,
            agility: 10,
            balance: 10,
            jumping_reach: 10,
            natural_fitness: 10,
            pace: 10,
            stamina: 10,
            strength: 10,
            match_readiness: 10,
        },
    }
}

fn player(
    id: u32,
    side: PlayerSide,
    tactical: PlayerPositionType,
    state: PlayerState,
    x: i64,
    y: i64,
) -> MatchPlayer {
    MatchPlayer {
        id,
        side: Some(side),
        tactical_position: tactical,
        position: Vec2 { x, y },
        start_position: Vec2 { x, y },
        velocity: Vec2 { x: 0, y: 0 },
        skills: skills(),
        condition: 10_000,
        state,
        in_state_time: 0,
        statistics: MatchPlayerStatistics::default(),
    }
}

fn small_state(players: Vec<MatchPlayer>) -> MatchState {
    MatchState::from_roster(players, FieldSize::standard())
}

#[test]
fn distance_is_the_integer_square_root() {
    assert_eq!(5, distance(Vec2 { x: 0, y: 0 }, Vec2 { x: 3, y: 4 }));
    assert_eq!(3, isqrt(15));
    assert_eq!(4, isqrt(16));
}

#[test]
fn context_distance_is_symmetric_for_all_pairs() {
    let players = vec![
        player(1, PlayerSide::Left, PlayerPositionType::Defender,
            PlayerState::Defender(DefenderState::Standing), 100, 100),
        player(2, PlayerSide::Left, PlayerPositionType::Forward,
            PlayerState::Forward(ForwardState::Standing), 317, 215),
        player(3, PlayerSide::Right, PlayerPositionType::Defender,
            PlayerState::Defender(DefenderState::Standing), 700, 400),
    ];
    let state = small_state(players);
    let ctx = TickContext::build(&state);

    for &a in &[1u32, 2, 3] {
        for &b in &[1u32, 2, 3] {
            assert_eq!(ctx.distance(a, b).unwrap(), ctx.distance(b, a).unwrap());
        }
    }
}

#[test]
fn unknown_identity_is_a_not_found_condition() {

    let state = small_state(vec![player(1, PlayerSide::Left, PlayerPositionType::Defender,
        PlayerState::Defender(DefenderState::Standing), 100, 100)]);
    let ctx = TickContext::build(&state);

    assert_eq!(Err(TickError::NotFound), ctx.distance(1, 99));
    assert_eq!(Err(TickError::NotFound), ctx.ball_distance(99));
}

#[test]
fn rebuilding_the_context_yields_identical_query_results() {
    let players = vec![
        player(1, PlayerSide::Left, PlayerPositionType::Defender,
            PlayerState::Defender(DefenderState::Standing), 100, 100),
        player(2, PlayerSide::Right, PlayerPositionType::Forward,
            PlayerState::Forward(ForwardState::Standing), 600, 300),
    ];
    let state = small_state(players);

    let first = TickContext::build(&state);
    let second = TickContext::build(&state);

    assert_eq!(first.distance(1, 2), second.distance(1, 2));
    assert_eq!(first.ball_distance(1), second.ball_distance(1));
    assert_eq!(
        first.nearby_opponents(1, 1000).unwrap(),
        second.nearby_opponents(1, 1000).unwrap()
    );
    assert_eq!(first.ball.owner, second.ball.owner);
    assert_eq!(first.time, second.time);
}

#[test]
fn arrive_speed_is_zero_at_the_target_and_shrinks_with_distance() {
    let max = 10_000u64;
    assert_eq!(0, arrive_speed(max, 0, 10));
    let near = arrive_speed(max, 3, 10);
    let far = arrive_speed(max, 7, 10);
    assert_eq!(3000, near);
    assert_eq!(7000, far);
    assert!(near < far);
    assert_eq!(max, arrive_speed(max, 10, 10));
    assert_eq!(max, arrive_speed(max, 250, 10));
}

#[test]
fn exhausted_defender_rests_instead_of_tackling() {

    // A defender at 15 percent stamina, with the opponent carrying the
    // ball inside tackling distance.
    let mut defender = player(1, PlayerSide::Left, PlayerPositionType::Defender,
        PlayerState::Defender(DefenderState::Marking), 200, 200);
    defender.condition = 1_500;
    let opponent = player(2, PlayerSide::Right, PlayerPositionType::Forward,
        PlayerState::Forward(ForwardState::Dribbling), 200, 200);
    let mut state = small_state(vec![defender, opponent]);
    state.ball.owner = Some(2);
    state.ball.position = Vec2 { x: 200, y: 200 };
    let ctx = TickContext::build(&state);
    let snapshot = ctx.players[0];
    let spc = StateProcessingContext { player: &snapshot, tick_context: &ctx, in_state_time: 0 };

    let decision = DefenderMarkingState::default().try_fast(&spc).expect("a decision");

    assert_eq!(
        Some(PlayerState::Defender(DefenderState::Resting)),
        decision.state
    );
    assert_eq!(0, decision.events.events.len());
}

#[test]
fn fit_defender_slides_in_on_the_ball_carrier() {

    let defender = player(1, PlayerSide::Left, PlayerPositionType::Defender,
        PlayerState::Defender(DefenderState::Marking), 200, 200);
    let opponent = player(2, PlayerSide::Right, PlayerPositionType::Forward,
        PlayerState::Forward(ForwardState::Dribbling), 200, 200);
    let mut state = small_state(vec![defender, opponent]);
    state.ball.owner = Some(2);
    state.ball.position = Vec2 { x: 200, y: 200 };
    let ctx = TickContext::build(&state);
    let snapshot = ctx.players[0];
    let spc = StateProcessingContext { player: &snapshot, tick_context: &ctx, in_state_time: 0 };

    let decision = DefenderMarkingState::default().try_fast(&spc).expect("a decision");

    assert_eq!(
        Some(PlayerState::Defender(DefenderState::SlidingTackle)),
        decision.state
    );
}

#[test]
fn forward_with_a_clear_lane_shoots_at_the_opponent_goal() {

    // Ball-to-goal distance 200, inside the documented threshold of 250,
    // with the only opponent far outside the shooting lane.
    let forward = player(1, PlayerSide::Left, PlayerPositionType::Forward,
        PlayerState::Forward(ForwardState::Dribbling), 640, 272);
    let opponent = player(2, PlayerSide::Right, PlayerPositionType::Defender,
        PlayerState::Defender(DefenderState::Standing), 640, 100);
    let mut state = small_state(vec![forward, opponent]);
    state.ball.owner = Some(1);
    state.ball.position = Vec2 { x: 640, y: 272 };
    let ctx = TickContext::build(&state);
    let snapshot = ctx.players[0];
    let spc = StateProcessingContext { player: &snapshot, tick_context: &ctx, in_state_time: 0 };

    let decision = ForwardDribblingState::default().try_fast(&spc).expect("a decision");
    assert_eq!(Some(PlayerState::Forward(ForwardState::Shooting)), decision.state);

    let shot = ForwardShootingState::default().try_fast(&spc).expect("a decision");
    assert_eq!(1, shot.events.events.len());
    match shot.events.events[0] {
        Event::PlayerEvent(PlayerEvent::Shoot(model)) => {
            assert_eq!(1, model.from_player_id);
            // The left-side forward targets the right goal.
            assert_eq!(Vec2 { x: 840, y: 272 }, model.shot_target);
        },
        ref other => panic!("expected a shoot event, got {:?}", other),
    }
}

#[test]
fn first_gain_ball_claim_wins_and_the_second_is_a_resolved_conflict() {
    let d1 = player(1, PlayerSide::Left, PlayerPositionType::Defender,
        PlayerState::Defender(DefenderState::Tackling), 200, 200);
    let d2 = player(2, PlayerSide::Left, PlayerPositionType::Defender,
        PlayerState::Defender(DefenderState::Tackling), 210, 200);
    let mut state = small_state(vec![d1, d2]);

    let proposals = vec![PlayerEvent::GainBall(1), PlayerEvent::GainBall(2)];
    commit_events(&mut state, &proposals);

    assert_eq!(Some(1), state.ball.owner);
    assert_eq!(2, state.event_log.len());
    assert_eq!(CommitOutcome::Applied, state.event_log[0].outcome);
    assert_eq!(CommitOutcome::ResolvedConflict, state.event_log[1].outcome);
}

#[test]
fn stamina_decay_never_raises_condition() {
    let players = vec![
        player(1, PlayerSide::Left, PlayerPositionType::Defender,
            PlayerState::Defender(DefenderState::Standing), 100, 100),
        player(2, PlayerSide::Right, PlayerPositionType::Forward,
            PlayerState::Forward(ForwardState::Standing), 600, 300),
    ];
    let mut state = small_state(players);
    let before: Vec<u32> = state.players.iter().map(|p| p.condition).collect();

    apply_stamina_decay(&mut state);

    for (p, b) in state.players.iter().zip(before.iter()) {
        assert!(p.condition <= *b);
    }
}

#[test]
fn ticks_advance_time_and_never_raise_stamina() {
    let players = vec![
        player(1, PlayerSide::Left, PlayerPositionType::Goalkeeper,
            PlayerState::Goalkeeper(GoalkeeperState::Standing), 20, 272),
        player(2, PlayerSide::Left, PlayerPositionType::Defender,
            PlayerState::Defender(DefenderState::Marking), 200, 200),
        player(3, PlayerSide::Right, PlayerPositionType::Midfielder,
            PlayerState::Midfielder(MidfielderState::Standing), 500, 300),
        player(4, PlayerSide::Right, PlayerPositionType::Forward,
            PlayerState::Forward(ForwardState::Dribbling), 640, 272),
    ];
    let mut engine = MatchEngine::new(players, FieldSize::standard());
    let mut rng = MatchRandom::from_seed(7);
    let before: Vec<u32> = engine.state.players.iter().map(|p| p.condition).collect();

    for _ in 0..3 {
        engine.tick(&mut rng).expect("a playing tick");
    }

    assert_eq!(3, engine.state.time);
    for (p, b) in engine.state.players.iter().zip(before.iter()) {
        assert!(p.condition <= *b);
    }
    // Ownership stays exclusive by construction: one owner or none.
    match engine.state.ball.owner {
        Some(id) => assert!(engine.state.players.iter().any(|p| p.id == id)),
        None => {},
    }
}

#[test]
fn tick_after_full_time_fails_and_changes_nothing() {
    let players = vec![player(1, PlayerSide::Left, PlayerPositionType::Defender,
        PlayerState::Defender(DefenderState::Standing), 100, 100)];
    let mut engine = MatchEngine::new(players, FieldSize::standard());
    engine.state.period = MatchPeriod::FullTime;
    let log_before = engine.state.event_log.len();
    let time_before = engine.state.time;
    let mut rng = MatchRandom::from_seed(3);

    let result = engine.tick(&mut rng);

    assert_eq!(Err(MatchError::AlreadyEnded), result);
    assert_eq!(log_before, engine.state.event_log.len());
    assert_eq!(time_before, engine.state.time);
}

#[test]
fn goalkeeper_heading_test_follows_the_cone() {

    // Goal straight down the pitch: tightly aligned with the x axis.
    assert!(ball_heading_towards_goal(Vec2 { x: 0, y: 0 }, Vec2 { x: 100, y: 10 }));
    // Goal behind the ball: opposite direction.
    assert!(!ball_heading_towards_goal(Vec2 { x: 0, y: 0 }, Vec2 { x: -100, y: 0 }));
    // Goal sharply sideways: outside the cone.
    assert!(!ball_heading_towards_goal(Vec2 { x: 0, y: 0 }, Vec2 { x: 10, y: 100 }));
}

#[test]
fn tackling_duel_ends_standing_with_at_most_one_event() {

    let defender = player(1, PlayerSide::Left, PlayerPositionType::Defender,
        PlayerState::Defender(DefenderState::Tackling), 300, 300);
    let opponent = player(2, PlayerSide::Right, PlayerPositionType::Forward,
        PlayerState::Forward(ForwardState::Dribbling), 300, 301);
    let mut state = small_state(vec![defender, opponent]);
    state.ball.owner = Some(2);
    state.ball.position = Vec2 { x: 300, y: 301 };
    let ctx = TickContext::build(&state);
    let snapshot = ctx.players[0];
    let spc = StateProcessingContext { player: &snapshot, tick_context: &ctx, in_state_time: 0 };
    let mut rng = MatchRandom::from_seed(17);

    let decision = DefenderTacklingState::default()
        .try_fast(&spc, &mut rng)
        .expect("a decision");

    assert_eq!(
        Some(PlayerState::Defender(DefenderState::Standing)),
        decision.state
    );
    assert!(decision.events.events.len() <= 1);
    for event in &decision.events.events {
        match event {
            Event::PlayerEvent(PlayerEvent::GainBall(id)) => assert_eq!(1, *id),
            Event::PlayerEvent(PlayerEvent::CommitFoul(id)) => assert_eq!(1, *id),
            other => panic!("unexpected event {:?}", other),
        }
    }
}

#[test]
fn midfielder_runs_when_its_team_controls_the_ball() {

    let midfielder = player(1, PlayerSide::Left, PlayerPositionType::Midfielder,
        PlayerState::Midfielder(MidfielderState::Standing), 300, 300);
    let teammate = player(2, PlayerSide::Left, PlayerPositionType::Forward,
        PlayerState::Forward(ForwardState::Dribbling), 500, 300);
    let mut state = small_state(vec![midfielder, teammate]);
    state.ball.owner = Some(2);
    state.ball.position = Vec2 { x: 500, y: 300 };
    let ctx = TickContext::build(&state);
    let snapshot = ctx.players[0];
    let spc = StateProcessingContext { player: &snapshot, tick_context: &ctx, in_state_time: 0 };

    let decision = MidfielderStandingState::default().try_fast(&spc).expect("a decision");

    assert_eq!(
        Some(PlayerState::Midfielder(MidfielderState::Running)),
        decision.state
    );
}

#[test]
fn keeper_holds_the_ball_then_distributes() {

    let keeper = player(1, PlayerSide::Left, PlayerPositionType::Goalkeeper,
        PlayerState::Goalkeeper(GoalkeeperState::Holding), 20, 272);
    let mut state = small_state(vec![keeper]);
    state.ball.owner = Some(1);
    state.ball.position = Vec2 { x: 20, y: 272 };
    let ctx = TickContext::build(&state);
    let snapshot = ctx.players[0];

    let early = StateProcessingContext { player: &snapshot, tick_context: &ctx, in_state_time: 5 };
    assert!(GoalkeeperHoldingState::default().try_fast(&early).is_none());

    let late = StateProcessingContext {
        player: &snapshot,
        tick_context: &ctx,
        in_state_time: 100,
    };
    let decision = GoalkeeperHoldingState::default().try_fast(&late).expect("a decision");
    assert_eq!(
        Some(PlayerState::Goalkeeper(GoalkeeperState::Distributing)),
        decision.state
    );
}

#[test]
fn committed_pass_releases_the_ball_and_counts_for_the_passer() {

    let passer = player(1, PlayerSide::Left, PlayerPositionType::Defender,
        PlayerState::Defender(DefenderState::Passing), 200, 200);
    let mate = player(2, PlayerSide::Left, PlayerPositionType::Forward,
        PlayerState::Forward(ForwardState::Standing), 400, 200);
    let mut state = small_state(vec![passer, mate]);
    state.ball.owner = Some(1);

    let proposals = vec![PlayerEvent::PassTo(PassingEventModel {
        from_player_id: 1,
        pass_target: Vec2 { x: 400, y: 200 },
        pass_force: 500,
    })];
    commit_events(&mut state, &proposals);

    assert_eq!(None, state.ball.owner);
    assert_eq!(1, state.players[0].statistics.passes);
    assert_eq!(CommitOutcome::Applied, state.event_log[0].outcome);
}

#[test]
fn committed_pass_sets_the_ball_in_flight() {

    let passer = player(1, PlayerSide::Left, PlayerPositionType::Defender,
        PlayerState::Defender(DefenderState::Passing), 420, 272);
    let mate = player(2, PlayerSide::Left, PlayerPositionType::Forward,
        PlayerState::Forward(ForwardState::Standing), 520, 272);
    let mut state = small_state(vec![passer, mate]);
    // The ball starts at the centre spot, held by the passer.
    state.ball.owner = Some(1);

    let proposals = vec![PlayerEvent::PassTo(PassingEventModel {
        from_player_id: 1,
        pass_target: Vec2 { x: 520, y: 272 },
        pass_force: 500,
    })];
    commit_events(&mut state, &proposals);

    // Released, with an eastward flight capped by the force.
    assert_eq!(None, state.ball.owner);
    assert_eq!(Vec2 { x: 11, y: 0 }, state.ball.velocity);

    let before_x = state.ball.position.x;
    advance_ball(&mut state);
    assert_eq!(before_x + 11, state.ball.position.x);
    assert_eq!(Vec2 { x: 5, y: 0 }, state.ball.velocity);
}

#[test]
fn own_side_is_side_relative() {
    let left_back = player(1, PlayerSide::Left, PlayerPositionType::Defender,
        PlayerState::Defender(DefenderState::Standing), 100, 272);
    let right_back = player(2, PlayerSide::Right, PlayerPositionType::Defender,
        PlayerState::Defender(DefenderState::Standing), 700, 272);
    let state = small_state(vec![left_back, right_back]);
    let ctx = TickContext::build(&state);

    let left_snapshot = ctx.players[0];
    let left_spc = StateProcessingContext {
        player: &left_snapshot,
        tick_context: &ctx,
        in_state_time: 0,
    };
    assert!(PlayerOperationsImpl::new(&left_spc).on_own_side());

    // A right-side defender deep in the high-x half is on its own side too.
    let right_snapshot = ctx.players[1];
    let right_spc = StateProcessingContext {
        player: &right_snapshot,
        tick_context: &ctx,
        in_state_time: 0,
    };
    assert!(PlayerOperationsImpl::new(&right_spc).on_own_side());
}

#[test]
fn tiredness_means_low_stamina() {
    let mut weary = player(1, PlayerSide::Left, PlayerPositionType::Defender,
        PlayerState::Defender(DefenderState::Standing), 100, 272);
    weary.condition = 1_500;
    let fresh = player(2, PlayerSide::Left, PlayerPositionType::Forward,
        PlayerState::Forward(ForwardState::Standing), 300, 272);
    let state = small_state(vec![weary, fresh]);
    let ctx = TickContext::build(&state);

    let weary_snapshot = ctx.players[0];
    let weary_spc = StateProcessingContext {
        player: &weary_snapshot,
        tick_context: &ctx,
        in_state_time: 0,
    };
    assert!(PlayerOperationsImpl::new(&weary_spc).is_tired());

    let fresh_snapshot = ctx.players[1];
    let fresh_spc = StateProcessingContext {
        player: &fresh_snapshot,
        tick_context: &ctx,
        in_state_time: 0,
    };
    assert!(!PlayerOperationsImpl::new(&fresh_spc).is_tired());
}

#[test]
fn defender_pass_power_uses_the_canonical_normalisation() {
    let passer = player(1, PlayerSide::Left, PlayerPositionType::Defender,
        PlayerState::Defender(DefenderState::Passing), 200, 272);
    // Distance 20 with passing skill 10: raw power well above the band,
    // so the canonical clamped force is full.
    let mate = player(2, PlayerSide::Left, PlayerPositionType::Forward,
        PlayerState::Forward(ForwardState::Standing), 220, 272);
    let state = small_state(vec![passer, mate]);
    let ctx = TickContext::build(&state);
    let snapshot = ctx.players[0];
    let spc = StateProcessingContext { player: &snapshot, tick_context: &ctx, in_state_time: 0 };

    let power = DefenderPassingState::default()
        .calculate_pass_power(2, &spc)
        .expect("a roster teammate");

    assert_eq!(1000, power);
}

#[test]
fn right_side_midfielder_supports_in_its_own_attacking_half() {
    // The right side attacks the low-x half: a right-side midfielder at
    // low x, with a teammate on the ball, moves to support the attack.
    let midfielder = player(1, PlayerSide::Right, PlayerPositionType::Midfielder,
        PlayerState::Midfielder(MidfielderState::Dribbling), 200, 272);
    let carrier = player(2, PlayerSide::Right, PlayerPositionType::Forward,
        PlayerState::Forward(ForwardState::Dribbling), 150, 272);
    let mut state = small_state(vec![midfielder, carrier]);
    state.ball.owner = Some(2);
    state.ball.position = Vec2 { x: 150, y: 272 };
    let ctx = TickContext::build(&state);
    let snapshot = ctx.players[0];
    let spc = StateProcessingContext { player: &snapshot, tick_context: &ctx, in_state_time: 0 };
    let mut rng = MatchRandom::from_seed(23);

    let decision = MidfielderDribblingState::default()
        .try_fast(&spc, &mut rng)
        .expect("a decision");

    assert_eq!(
        Some(PlayerState::Midfielder(MidfielderState::AttackSupporting)),
        decision.state
    );
}

#[test]
fn marking_pursuit_backs_off_by_the_marking_distance() {
    let defender = player(1, PlayerSide::Left, PlayerPositionType::Defender,
        PlayerState::Defender(DefenderState::Marking), 200, 200);
    let mut opponent = player(2, PlayerSide::Right, PlayerPositionType::Forward,
        PlayerState::Forward(ForwardState::Running), 210, 200);
    opponent.velocity = Vec2 { x: 5, y: 0 };
    let state = small_state(vec![defender, opponent]);
    let ctx = TickContext::build(&state);
    let snapshot = ctx.players[0];
    let spc = StateProcessingContext { player: &snapshot, tick_context: &ctx, in_state_time: 0 };

    let intent = DefenderMarkingState::default().velocity(&spc).expect("a movement");

    // Next position 215, backed off by the two-unit marking stand-off.
    assert_eq!(Vec2 { x: 13, y: 0 }, intent.heading);
}

#[test]
fn dive_movement_stops_when_the_dive_window_closes() {
    let keeper = player(1, PlayerSide::Left, PlayerPositionType::Goalkeeper,
        PlayerState::Goalkeeper(GoalkeeperState::Diving), 20, 272);
    let mut state = small_state(vec![keeper]);
    state.ball.position = Vec2 { x: 25, y: 272 };
    let ctx = TickContext::build(&state);
    let snapshot = ctx.players[0];

    let diving = StateProcessingContext { player: &snapshot, tick_context: &ctx, in_state_time: 5 };
    let mid_dive = GoalkeeperDivingState::default().velocity(&diving).expect("a movement");
    // Acceleration and agility of ten each give a dive speed of 4000.
    assert_eq!(4000, mid_dive.speed_milli);

    let landed = StateProcessingContext {
        player: &snapshot,
        tick_context: &ctx,
        in_state_time: 11,
    };
    let grounded = GoalkeeperDivingState::default().velocity(&landed).expect("a movement");
    assert_eq!(0, grounded.speed_milli);
}
