//! Role-independent behavioural states.

use vstd::prelude::*;

use crate::events::StateChangeResult;
use crate::geometry::Vec2;
use crate::net::{NetLayer, NeuralNetwork};
use crate::player::CommonPlayerState;
use crate::player_ops::StateProcessingContext;
use crate::steering::SteeringOutput;

verus! {

/// The shared standing state: after 20 ticks of standing the player
/// starts walking; otherwise it holds.
pub struct StandingState {}

impl StandingState {
    pub fn process(in_state_time: u64) -> (r: Option<CommonPlayerState>)
        ensures
            r == if in_state_time > 20 {
                Some(CommonPlayerState::Walking)
            } else {
                None::<CommonPlayerState>
            },
    {
        if in_state_time > 20 {
            return Some(CommonPlayerState::Walking);
        }
        None
    }
}

/// The bundled weight of the standing-state evaluator, by action row and
/// feature column: each row leans on the relative ball data with its own
/// slope.
pub open spec fn standing_weight_spec(k: int, j: int) -> int {
    let base = 100 + 50 * k;
    if j == 0 {
        base
    } else if j == 1 {
        -base
    } else if j == 2 {
        350 - base
    } else {
        base - 200
    }
}

/// Loads the bundled evaluator weights for the common standing state: four
/// features (ball position and velocity relative to the agent), one dense
/// layer scoring the seven common follow-up states.  The contract pins
/// every weight and bias, so loading is deterministic: two loads yield
/// the same evaluator.
#[derive(Debug)]
pub struct PlayerStandingStateNetLoader;

impl PlayerStandingStateNetLoader {
    pub fn load() -> (net: NeuralNetwork)
        ensures
            net.wf(4),
            net.layers@.len() == 1,
            net.layers@[0].weights@.len() == 7,
            net.layers@[0].biases@.len() == 7,
            forall|k: int, j: int|
                0 <= k < 7 && 0 <= j < 4 ==> (#[trigger] net.layers@[0].weights@[k]@[j])
                    == standing_weight_spec(k, j),
            forall|k: int| 0 <= k < 7 ==> (#[trigger] net.layers@[0].biases@[k]) == 25,
    {
        let weights = standing_weight_rows();
        let mut biases: Vec<i64> = Vec::new();
        let mut k: usize = 0;
        while k < 7
            invariant
                biases@.len() == k,
                k <= 7,
                forall|i: int| 0 <= i < k ==> #[trigger] biases@[i] == 25,
            decreases 7 - k,
        {
            biases.push(25);
            k += 1;
        }
        let mut layers: Vec<NetLayer> = Vec::new();
        layers.push(NetLayer { weights, biases });
        NeuralNetwork { layers }
    }
}

/// The bundled weight rows of the standing-state evaluator.
fn standing_weight_rows() -> (rows: Vec<Vec<i64>>)
    ensures
        rows@.len() == 7,
        forall|k: int| 0 <= k < 7 ==> (#[trigger] rows@[k])@.len() == 4,
        forall|k: int, j: int|
            0 <= k < 7 && 0 <= j < 4 ==> (#[trigger] rows@[k]@[j]) == standing_weight_spec(k, j),
        forall|k: int, j: int|
            0 <= k < 7 && 0 <= j < 4 ==> -1000 <= (#[trigger] rows@[k]@[j]) <= 1000,
{
    let mut rows: Vec<Vec<i64>> = Vec::new();
    let mut k: usize = 0;
    while k < 7
        invariant
            rows@.len() == k,
            k <= 7,
            forall|i: int| 0 <= i < k ==> (#[trigger] rows@[i])@.len() == 4,
            forall|i: int, j: int|
                0 <= i < k && 0 <= j < 4 ==> (#[trigger] rows@[i]@[j]) == standing_weight_spec(
                    i,
                    j,
                ),
            forall|i: int, j: int|
                0 <= i < k && 0 <= j < 4 ==> -1000 <= (#[trigger] rows@[i]@[j]) <= 1000,
        decreases 7 - k,
    {
        let mut row: Vec<i64> = Vec::new();
        let base: i64 = 100 + 50 * (k as i64);
        row.push(base);
        row.push(-base);
        row.push(350 - base);
        row.push(base - 200);
        rows.push(row);
        k += 1;
    }
    rows
}

/// An injured player makes no decisions and does not move.
#[derive(Default)]
pub struct CommonInjuredState {}

impl CommonInjuredState {
    /// No additional conditions to process in this state.
    pub fn process_conditions(&self, _ctx: crate::player_ops::ConditionContext) {
    }

    /// No fast decision: an injured player holds its state.
    pub fn try_fast(&self, _ctx: &StateProcessingContext) -> (r: Option<StateChangeResult>)
        ensures
            r is None,
    {
        None
    }

    /// No slow decision either.
    pub fn process_slow(&self, _ctx: &StateProcessingContext) -> (r: Option<StateChangeResult>)
        ensures
            r is None,
    {
        None
    }

    /// An injured player stays put.
    pub fn velocity(&self, _ctx: &StateProcessingContext) -> (r: Option<SteeringOutput>)
        ensures
            r == Some(SteeringOutput { heading: Vec2 { x: 0, y: 0 }, speed_milli: 0u64 }),
    {
        Some(SteeringOutput { heading: Vec2 { x: 0, y: 0 }, speed_milli: 0 })
    }
}

} // verus!
