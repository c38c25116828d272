//! Read-only operations a state machine performs for one player.
//!
//! A [`StateProcessingContext`] bundles the evaluated player with the tick
//! snapshot; [`PlayerOperationsImpl`] is the lens through which the
//! behavioural states read it.  Everything here is a pure function over
//! the snapshot, safe to evaluate for all agents of a tick independently.

use vstd::prelude::*;

use crate::context::{idx_of, TickContext, TickError};
use crate::geometry::{distance, distance_spec, Vec2};
use crate::match_state::roster_has_id;
use crate::player::{
    MatchPlayer, MatchPlayerLite, PlayerDistanceFromStartPosition, PlayerSide,
};
use crate::skills::PlayerSkills;

verus! {

/// The data one agent's evaluation reads: the agent itself, the tick
/// snapshot, and how long the agent has sat in its current state.
pub struct StateProcessingContext<'a> {
    pub player: &'a MatchPlayer,
    pub tick_context: &'a TickContext,
    pub in_state_time: u64,
}

impl<'a> StateProcessingContext<'a> {
    /// The context is consistent: a well-formed snapshot that contains the
    /// evaluated player.
    pub open spec fn valid(self) -> bool {
        &&& self.tick_context.wf()
        &&& self.player.valid()
        &&& exists|i: int|
            0 <= i < self.tick_context.players@.len() && self.tick_context.players@[i]
                == *self.player
    }

    /// Does the evaluated player own the ball?
    pub fn has_ball(&self) -> (r: bool)
        ensures
            r == (self.tick_context.ball.owner == Some(self.player.id)),
    {
        self.tick_context.has_ball(self.player.id)
    }
}

/// The stamina percentage at and below which a player counts as tired:
/// the upper of the behavioural tables' stamina floors.
pub const FATIGUE_FLOOR: u32 = 25;

/// `player` stands inside the half its own team defends.
pub open spec fn on_own_side_spec(player: MatchPlayer, width: i64) -> bool {
    match player.side {
        Some(PlayerSide::Left) => player.position.x < width / 2,
        Some(PlayerSide::Right) => player.position.x > width / 2,
        None => false,
    }
}

/// The canonical pass-power normalisation, on a 0..=1000 per-mille scale:
/// the raw power `10 * distance / passing` is mapped linearly from the
/// documented 3..=10 band onto the full scale and clamped.
pub open spec fn pass_power_spec(dist: nat, passing: u32) -> u32 {
    let raw = (10 * dist) / passing as nat;
    if raw <= 3 {
        0
    } else if raw >= 10 {
        1000
    } else {
        (((raw - 3) * 1000) / 7) as u32
    }
}

/// Shot force on a 0..=1000 per-mille scale, from the shooter's finishing
/// skill.
pub open spec fn shot_power_spec(finishing: u32) -> u32 {
    (finishing * 50) as u32
}

/// The data a state's condition pass reads: the player alone; condition
/// bookkeeping is otherwise handled by the pipeline's uniform decay.
pub struct ConditionContext<'a> {
    pub player: &'a MatchPlayer,
}

/// Read-only operations over one player's processing context.
pub struct PlayerOperationsImpl<'p> {
    pub ctx: &'p StateProcessingContext<'p>,
}

impl<'p> PlayerOperationsImpl<'p> {
    pub fn new(ctx: &'p StateProcessingContext<'p>) -> (ops: PlayerOperationsImpl<'p>)
        ensures
            ops.ctx == ctx,
    {
        PlayerOperationsImpl { ctx }
    }

    /// The spec view of the wrapped context.
    pub open spec fn ctx_spec(self) -> StateProcessingContext<'p> {
        *self.ctx
    }

    /// The light projection of the roster entry with identity `player_id`.
    pub fn get(&self, player_id: u32) -> (r: Result<MatchPlayerLite, TickError>)
        requires
            self.ctx_spec().valid(),
        ensures
            r is Ok <==> roster_has_id(self.ctx_spec().tick_context.players@, player_id),
            r matches Ok(l) ==> l.id == player_id && l.position
                == self.ctx_spec().tick_context.players@[idx_of(
                self.ctx_spec().tick_context.players@,
                player_id,
            )].position,
            r is Err ==> r == Err::<MatchPlayerLite, TickError>(TickError::NotFound),
    {
        match self.ctx.tick_context.index_of(player_id) {
            Some(i) => {
                let p = self.ctx.tick_context.players[i];
                proof {
                    let c = idx_of(self.ctx.tick_context.players@, player_id);
                    assert(0 <= c < self.ctx.tick_context.players@.len()
                        && self.ctx.tick_context.players@[c].id == player_id);
                    assert(c == i as int);
                }
                Ok(MatchPlayerLite { id: p.id, position: p.position })
            },
            None => Err(TickError::NotFound),
        }
    }

    /// The skill sheet of the roster entry with identity `player_id`.
    pub fn skills(&self, player_id: u32) -> (r: Result<PlayerSkills, TickError>)
        requires
            self.ctx_spec().valid(),
        ensures
            r is Ok <==> roster_has_id(self.ctx_spec().tick_context.players@, player_id),
            r matches Ok(s) ==> s == self.ctx_spec().tick_context.players@[idx_of(
                self.ctx_spec().tick_context.players@,
                player_id,
            )].skills,
            r is Err ==> r == Err::<PlayerSkills, TickError>(TickError::NotFound),
    {
        match self.ctx.tick_context.index_of(player_id) {
            Some(i) => {
                proof {
                    let c = idx_of(self.ctx.tick_context.players@, player_id);
                    assert(0 <= c < self.ctx.tick_context.players@.len()
                        && self.ctx.tick_context.players@[c].id == player_id);
                    assert(c == i as int);
                }
                Ok(self.ctx.tick_context.players[i].skills)
            },
            None => Err(TickError::NotFound),
        }
    }

    /// Is the player inside the half its own team defends?  The left
    /// side defends the low-x half, the right side the high-x half; an
    /// unassigned player has no own half.
    pub fn on_own_side(&self) -> (r: bool)
        requires
            self.ctx_spec().valid(),
        ensures
            r == on_own_side_spec(
                *self.ctx_spec().player,
                self.ctx_spec().tick_context.field_size.width,
            ),
    {
        let half: i64 = self.ctx.tick_context.field_size.width / 2;
        match self.ctx.player.side {
            Some(PlayerSide::Left) => self.ctx.player.position.x < half,
            Some(PlayerSide::Right) => self.ctx.player.position.x > half,
            None => false,
        }
    }

    /// The goal the player attacks: the right goal for the left side, the
    /// left goal for the right side, and the origin for an unassigned
    /// player.
    pub fn opponent_goal_position(&self) -> (g: Vec2)
        ensures
            g == opponent_goal_spec(*self.ctx_spec().player, *self.ctx_spec().tick_context),
    {
        match self.ctx.player.side {
            Some(PlayerSide::Left) => self.ctx.tick_context.goal_positions.right,
            Some(PlayerSide::Right) => self.ctx.tick_context.goal_positions.left,
            None => Vec2 { x: 0, y: 0 },
        }
    }

    /// Exact distance from the player's formation position.
    pub fn distance_from_start_position(&self) -> (d: u64)
        requires
            self.ctx_spec().valid(),
        ensures
            d == distance_spec(
                self.ctx_spec().player.start_position,
                self.ctx_spec().player.position,
            ),
    {
        distance(self.ctx.player.start_position, self.ctx.player.position)
    }

    /// The banded distance from the player's formation position.
    pub fn position_to_distance(&self) -> (b: PlayerDistanceFromStartPosition)
        requires
            self.ctx_spec().valid(),
        ensures
            b == start_distance_band_spec(*self.ctx_spec().player),
    {
        MatchPlayerLogic::distance_to_start_position(self.ctx.player)
    }

    /// A player is tired once its condition has fallen to the fatigue
    /// floor of the behavioural tables.
    pub fn is_tired(&self) -> (r: bool)
        ensures
            r == (self.ctx_spec().player.condition_percentage_spec() <= FATIGUE_FLOOR),
    {
        self.ctx.player.condition_percentage() <= FATIGUE_FLOOR
    }

    /// Shot force from the shooter's finishing skill.
    pub fn shoot_goal_power(&self) -> (p: u32)
        requires
            self.ctx_spec().valid(),
        ensures
            p == shot_power_spec(self.ctx_spec().player.skills.technical.finishing),
            p <= 1000,
    {
        self.ctx.player.skills.technical.finishing * 50
    }

    /// The canonical pass power towards teammate `teammate_id`.
    pub fn pass_teammate_power(&self, teammate_id: u32) -> (r: Result<u32, TickError>)
        requires
            self.ctx_spec().valid(),
        ensures
            r is Ok <==> roster_has_id(self.ctx_spec().tick_context.players@, teammate_id),
            r matches Ok(p) ==> p == pass_power_spec(
                distance_spec(
                    self.ctx_spec().player.position,
                    self.ctx_spec().tick_context.players@[idx_of(
                        self.ctx_spec().tick_context.players@,
                        teammate_id,
                    )].position,
                ),
                self.ctx_spec().player.skills.technical.passing,
            ),
            r matches Ok(p) ==> p <= 1000,
            r is Err ==> r == Err::<u32, TickError>(TickError::NotFound),
    {
        let d = match self.distance_to_player(teammate_id) {
            Ok(d) => d,
            Err(e) => {
                return Err(e);
            },
        };
        let passing = self.ctx.player.skills.technical.passing;
        proof {
            let players = self.ctx.tick_context.players@;
            let c = idx_of(players, teammate_id);
            crate::geometry::lemma_distance_bound(
                self.ctx.player.position,
                players[c].position,
            );
        }
        Ok(pass_power(d, passing))
    }

    /// Exact distance from the evaluated player to the roster entry with
    /// identity `player_id`, read from the tick cache.
    pub fn distance_to_player(&self, player_id: u32) -> (r: Result<u64, TickError>)
        requires
            self.ctx_spec().valid(),
        ensures
            r is Ok <==> roster_has_id(self.ctx_spec().tick_context.players@, player_id),
            r matches Ok(d) ==> d == distance_spec(
                self.ctx_spec().player.position,
                self.ctx_spec().tick_context.players@[idx_of(
                    self.ctx_spec().tick_context.players@,
                    player_id,
                )].position,
            ),
            r is Err ==> r == Err::<u64, TickError>(TickError::NotFound),
    {
        proof {
            let w = choose|i: int|
                0 <= i < self.ctx.tick_context.players@.len() && self.ctx.tick_context.players@[i]
                    == *self.ctx.player;
            assert(self.ctx.tick_context.players@[w].id == self.ctx.player.id);
        }
        match self.ctx.tick_context.distance(self.ctx.player.id, player_id) {
            Ok(d) => {
                proof {
                    let me = idx_of(self.ctx.tick_context.players@, self.ctx.player.id);
                    let w = choose|i: int|
                        0 <= i < self.ctx.tick_context.players@.len()
                            && self.ctx.tick_context.players@[i] == *self.ctx.player;
                    assert(0 <= me < self.ctx.tick_context.players@.len()
                        && self.ctx.tick_context.players@[me].id == self.ctx.player.id);
                    assert(me == w);
                }
                Ok(d)
            },
            Err(e) => Err(e),
        }
    }
}

/// In a valid processing context the evaluated player is the roster entry
/// found under its own identity.
pub proof fn lemma_self_on_roster(ctx: StateProcessingContext)
    requires
        ctx.valid(),
    ensures
        roster_has_id(ctx.tick_context.players@, ctx.player.id),
        ctx.tick_context.players@[idx_of(ctx.tick_context.players@, ctx.player.id)]
            == *ctx.player,
{
    let players = ctx.tick_context.players@;
    let w = choose|i: int| 0 <= i < players.len() && players[i] == *ctx.player;
    assert(players[w].id == ctx.player.id);
    let c = idx_of(players, ctx.player.id);
    assert(0 <= c < players.len() && players[c].id == ctx.player.id);
    assert(c == w);
}

/// The goal attacked by `player`.
pub open spec fn opponent_goal_spec(player: MatchPlayer, ctx: TickContext) -> Vec2 {
    match player.side {
        Some(PlayerSide::Left) => ctx.goal_positions.right,
        Some(PlayerSide::Right) => ctx.goal_positions.left,
        None => Vec2 { x: 0, y: 0 },
    }
}

/// The banded distance of `player` from its formation position: below 100
/// units is `Small`, below 250 `Medium`, anything further `Big`.
pub open spec fn start_distance_band_spec(player: MatchPlayer) -> PlayerDistanceFromStartPosition {
    let d = distance_spec(player.position, player.start_position);
    if d < 100 {
        PlayerDistanceFromStartPosition::Small
    } else if d < 250 {
        PlayerDistanceFromStartPosition::Medium
    } else {
        PlayerDistanceFromStartPosition::Big
    }
}

/// Exec mirror of [`pass_power_spec`].
pub fn pass_power(dist: u64, passing: u32) -> (p: u32)
    requires
        1 <= passing,
        dist <= 8_000_000_000_000,
    ensures
        p == pass_power_spec(dist as nat, passing),
        p <= 1000,
{
    let raw: u64 = (10 * dist) / (passing as u64);
    if raw <= 3 {
        0
    } else if raw >= 10 {
        1000
    } else {
        (((raw - 3) * 1000) / 7) as u32
    }
}

/// Role-independent helpers over one player.
pub struct MatchPlayerLogic;

impl MatchPlayerLogic {
    /// The banded distance of `player` from its formation position.
    pub fn distance_to_start_position(player: &MatchPlayer) -> (b: PlayerDistanceFromStartPosition)
        requires
            player.valid(),
        ensures
            b == start_distance_band_spec(*player),
    {
        let d = distance(player.position, player.start_position);
        if d < 100 {
            PlayerDistanceFromStartPosition::Small
        } else if d < 250 {
            PlayerDistanceFromStartPosition::Medium
        } else {
            PlayerDistanceFromStartPosition::Big
        }
    }
}

} // verus!


