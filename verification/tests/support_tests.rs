use football_sim::generators::{Country, PlayerPositionGenerator};
use football_sim::generators::random_string;
use football_sim::net::{NetLayer, NeuralNetwork};
use football_sim::person::{PersonBehaviour, PersonBehaviourState};
use football_sim::player::PlayerPositionType;
use football_sim::player_ops::pass_power;
use football_sim::rng::MatchRandom;
use football_sim::states_common::{PlayerStandingStateNetLoader, StandingState};
use football_sim::team::{
    ClubPlayer, Currency, CurrencyValue, PlayerCollection, PlayerCollectionResult,
    PlayerResultItem, PlayerSelector, SimulatorData, Staff, StaffCollectionResult,
    StaffRelations, Tactics, Team, TeamBehaviourResult, TeamResult, TeamTrainingResult,
};
use football_sim::transfers::TransferPool;
use football_sim::goalkeepers::GoalkeepersNetLoader;
use football_sim::player::CommonPlayerState;

#[test]
fn behaviour_starts_normal_and_improves_one_notch() {
    let mut behaviour = PersonBehaviour::default();
    assert_eq!(PersonBehaviourState::Normal, behaviour.state);
    assert!(!behaviour.is_poor());

    behaviour.try_increase();
    assert_eq!(PersonBehaviourState::Good, behaviour.state);

    behaviour.try_increase();
    assert_eq!(PersonBehaviourState::Good, behaviour.state);

    behaviour.state = PersonBehaviourState::Poor;
    assert!(behaviour.is_poor());
    assert_eq!("Poor", behaviour.as_str());
    behaviour.try_increase();
    assert_eq!(PersonBehaviourState::Normal, behaviour.state);
    assert_eq!("Normal", behaviour.as_str());
}

#[test]
fn transfer_pool_groups_items_by_club() {
    let mut pool: TransferPool<u32> = TransferPool::new();

    pool.push_transfer(11, 5);
    pool.push_transfer(12, 5);
    pool.push_transfer(13, 8);

    assert_eq!(Some(vec![11, 12]), pool.pull_transfers(5));
    assert_eq!(None, pool.pull_transfers(5));
    assert_eq!(Some(vec![13]), pool.pull_transfers(8));
    assert_eq!(None, pool.pull_transfers(99));
}

fn club_player(id: u32, positions: Vec<PlayerPositionType>, condition: u32) -> ClubPlayer {
    ClubPlayer { id, positions, condition }
}

#[test]
fn selector_fills_the_sheet_per_formation_position() {
    let team = Team {
        id: 1,
        players: PlayerCollection {
            players: vec![
                club_player(10, vec![PlayerPositionType::Goalkeeper], 90),
                club_player(11, vec![PlayerPositionType::Striker], 80),
                club_player(
                    12,
                    vec![PlayerPositionType::Striker, PlayerPositionType::MidfielderCenter],
                    70,
                ),
            ],
        },
        tactics: Some(Tactics {
            positions: vec![PlayerPositionType::Goalkeeper, PlayerPositionType::Striker],
        }),
        transfer_list: Vec::new(),
    };
    let staff = Staff { relations: StaffRelations { favorite_players: vec![11] } };

    let selection = PlayerSelector::select(&team, &staff);

    let picked: Vec<(u32, PlayerPositionType)> = selection
        .main_squad
        .iter()
        .map(|s| (s.player_id, s.position))
        .collect();
    // Per position, candidates come in ascending order of condition.
    assert_eq!(
        vec![
            (10, PlayerPositionType::Goalkeeper),
            (12, PlayerPositionType::Striker),
            (11, PlayerPositionType::Striker),
        ],
        picked
    );
    assert!(selection.substitutes.is_empty());
}

#[test]
fn team_result_puts_players_on_the_transfer_list() {
    let team = Team {
        id: 4,
        players: PlayerCollection { players: Vec::new() },
        tactics: None,
        transfer_list: Vec::new(),
    };
    let mut data = SimulatorData { teams: vec![team] };
    let result = TeamResult::new(
        4,
        PlayerCollectionResult { players: vec![PlayerResultItem { player_id: 77 }] },
        StaffCollectionResult::default(),
        TeamBehaviourResult::default(),
        TeamTrainingResult::default(),
    );

    result.process(&mut data);

    assert_eq!(1, data.teams[0].transfer_list.len());
    assert_eq!(77, data.teams[0].transfer_list[0].player_id);
    assert_eq!(
        CurrencyValue { amount: 100_000, currency: Currency::Usd },
        data.teams[0].transfer_list[0].value
    );
}

#[test]
fn draws_stay_under_their_bound() {
    let mut rng = MatchRandom::from_seed(99);
    for _ in 0..200 {
        assert!(rng.draw(7) < 7);
    }
    assert_eq!(0, rng.draw(1));
}

#[test]
fn generated_worlds_have_the_documented_shape() {
    let mut rng = MatchRandom::from_seed(5);

    let name = random_string(&mut rng, 10);
    assert_eq!(10, name.len());
    assert!(name.chars().all(|c| c.is_ascii_lowercase()));

    let country = Country::generate(&mut rng);
    assert!(country.id >= 1);
    assert_eq!(6, country.leagues.len());
    assert_eq!(5000, country.reputation);

    let position = PlayerPositionGenerator::generate(&mut rng);
    assert!(matches!(
        position,
        PlayerPositionType::Goalkeeper
            | PlayerPositionType::Defender
            | PlayerPositionType::Midfielder
            | PlayerPositionType::Forward
    ));
}

#[test]
fn standing_state_walks_after_twenty_ticks() {

    assert_eq!(None, StandingState::process(20));
    assert_eq!(Some(CommonPlayerState::Walking), StandingState::process(21));
}

#[test]
fn bundled_evaluators_have_their_documented_shape() {

    let standing = PlayerStandingStateNetLoader::load();
    assert_eq!(1, standing.layers.len());
    assert_eq!(7, standing.layers[0].weights.len());

    let keeper = GoalkeepersNetLoader::load();
    assert_eq!(1, keeper.layers.len());
    assert_eq!(7, keeper.layers[0].weights.len());

    // The bundled weights are pinned exactly: loading is deterministic.
    assert_eq!(vec![100, -100, 250, -100], standing.layers[0].weights[0]);
    assert_eq!(25, standing.layers[0].biases[0]);
    assert_eq!(vec![900, -300, -900, 200], keeper.layers[0].weights[0]);
    assert_eq!(50, keeper.layers[0].biases[6]);
    let again = PlayerStandingStateNetLoader::load();
    assert_eq!(standing.layers[0].weights, again.layers[0].weights);
    assert_eq!(standing.layers[0].biases, again.layers[0].biases);
}

#[test]
fn evaluator_picks_the_best_action_above_the_floor() {
    let net = NeuralNetwork {
        layers: vec![NetLayer {
            weights: vec![vec![1000, 0], vec![0, 1000]],
            biases: vec![0, 0],
        }],
    };
    let features = vec![1000i64, 2000i64];

    assert_eq!(Some(1), net.evaluate_action(&features, 0));
    assert_eq!(None, net.evaluate_action(&features, 3000));
    // The evaluator is pure: the same features score the same.
    assert_eq!(net.forward(&features), net.forward(&features));
}

#[test]
fn pass_power_follows_the_canonical_normalisation() {
    // Raw power below the band: no force.
    assert_eq!(0, pass_power(3, 10));
    // Raw power above the band: full force.
    assert_eq!(1000, pass_power(100, 10));
    // Inside the band: the linear ramp.
    assert_eq!((3 * 1000) / 7, pass_power(6, 10));
}
