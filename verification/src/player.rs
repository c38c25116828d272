//! On-pitch players and their behavioural states.
//!
//! Each player carries exactly one behavioural-state tag drawn from the
//! finite set defined by its role; the tagged [`PlayerState`] union makes
//! that invariant structural.

use vstd::prelude::*;

use crate::geometry::{in_play_bounds, vel_bounds, Vec2};
use crate::skills::PlayerSkills;

verus! {

/// Condition (stamina) is held on a 0..=10_000 scale; the familiar percent
/// value is this divided by 100.
pub const CONDITION_MAX: u32 = 10_000;

/// Which half of the pitch a player defends.
#[derive(Clone, Copy, Debug, PartialEq, Eq, Structural)]
pub enum PlayerSide {
    Left,
    Right,
}

/// Tactical position of a player in the formation.
#[derive(Clone, Copy, Debug, PartialEq, Eq, Structural)]
pub enum PlayerPositionType {
    Goalkeeper,
    Defender,
    DefenderLeft,
    DefenderCenter,
    DefenderRight,
    Midfielder,
    MidfielderLeft,
    MidfielderCenter,
    MidfielderRight,
    Forward,
    Striker,
}

/// The four behavioural roles of the engine.
#[derive(Clone, Copy, Debug, PartialEq, Eq, Structural)]
pub enum PlayerRole {
    Goalkeeper,
    Defender,
    Midfielder,
    Forward,
}

impl PlayerPositionType {
    /// The behavioural role that evaluates a player on this tactical
    /// position.
    pub open spec fn role_spec(self) -> PlayerRole {
        match self {
            PlayerPositionType::Goalkeeper => PlayerRole::Goalkeeper,
            PlayerPositionType::Defender => PlayerRole::Defender,
            PlayerPositionType::DefenderLeft => PlayerRole::Defender,
            PlayerPositionType::DefenderCenter => PlayerRole::Defender,
            PlayerPositionType::DefenderRight => PlayerRole::Defender,
            PlayerPositionType::Midfielder => PlayerRole::Midfielder,
            PlayerPositionType::MidfielderLeft => PlayerRole::Midfielder,
            PlayerPositionType::MidfielderCenter => PlayerRole::Midfielder,
            PlayerPositionType::MidfielderRight => PlayerRole::Midfielder,
            PlayerPositionType::Forward => PlayerRole::Forward,
            PlayerPositionType::Striker => PlayerRole::Forward,
        }
    }

    /// Exec mirror of [`Self::role_spec`].
    pub fn role(&self) -> (r: PlayerRole)
        ensures
            r == self.role_spec(),
    {
        match self {
            PlayerPositionType::Goalkeeper => PlayerRole::Goalkeeper,
            PlayerPositionType::Defender => PlayerRole::Defender,
            PlayerPositionType::DefenderLeft => PlayerRole::Defender,
            PlayerPositionType::DefenderCenter => PlayerRole::Defender,
            PlayerPositionType::DefenderRight => PlayerRole::Defender,
            PlayerPositionType::Midfielder => PlayerRole::Midfielder,
            PlayerPositionType::MidfielderLeft => PlayerRole::Midfielder,
            PlayerPositionType::MidfielderCenter => PlayerRole::Midfielder,
            PlayerPositionType::MidfielderRight => PlayerRole::Midfielder,
            PlayerPositionType::Forward => PlayerRole::Forward,
            PlayerPositionType::Striker => PlayerRole::Forward,
        }
    }

    pub fn is_goalkeeper(&self) -> (r: bool)
        ensures
            r == (self.role_spec() == PlayerRole::Goalkeeper),
    {
        matches!(self, PlayerPositionType::Goalkeeper)
    }
}

/// Behavioural states of a goalkeeper.
#[derive(Clone, Copy, Debug, PartialEq, Eq, Structural)]
pub enum GoalkeeperState {
    Standing,
    Walking,
    Diving,
    Catching,
    Holding,
    Distributing,
    Passing,
    ReturningToGoal,
    Resting,
}

/// Behavioural states of a defender.
#[derive(Clone, Copy, Debug, PartialEq, Eq, Structural)]
pub enum DefenderState {
    Standing,
    Marking,
    Tackling,
    SlidingTackle,
    Pressing,
    Intercepting,
    Running,
    Returning,
    Resting,
    HoldingLine,
    Passing,
    Shooting,
}

/// Behavioural states of a midfielder.
#[derive(Clone, Copy, Debug, PartialEq, Eq, Structural)]
pub enum MidfielderState {
    Standing,
    Dribbling,
    Pressing,
    AttackSupporting,
    Tackling,
    Passing,
    HoldingPossession,
    Distributing,
    Running,
    Intercepting,
    Returning,
    DistanceShooting,
    Shooting,
}

/// Behavioural states of a forward.
#[derive(Clone, Copy, Debug, PartialEq, Eq, Structural)]
pub enum ForwardState {
    Standing,
    Dribbling,
    Shooting,
    Passing,
    HoldingUpPlay,
    Running,
    TakeBall,
    Returning,
    Tackling,
}

/// Role-independent states shared by every role's common machine.
#[derive(Clone, Copy, Debug, PartialEq, Eq, Structural)]
pub enum CommonPlayerState {
    Standing,
    Walking,
    Running,
    Tackling,
    Shooting,
    Passing,
    Returning,
    Injured,
}

/// The behavioural-state tag of a player: exactly one state, drawn from
/// the finite set defined by the player's role.
#[derive(Clone, Copy, Debug, PartialEq, Eq, Structural)]
pub enum PlayerState {
    Goalkeeper(GoalkeeperState),
    Defender(DefenderState),
    Midfielder(MidfielderState),
    Forward(ForwardState),
}

impl PlayerState {
    /// The role whose state set this tag is drawn from.
    pub open spec fn role_spec(self) -> PlayerRole {
        match self {
            PlayerState::Goalkeeper(_) => PlayerRole::Goalkeeper,
            PlayerState::Defender(_) => PlayerRole::Defender,
            PlayerState::Midfielder(_) => PlayerRole::Midfielder,
            PlayerState::Forward(_) => PlayerRole::Forward,
        }
    }

    /// Exec mirror of [`Self::role_spec`].
    pub fn role(&self) -> (r: PlayerRole)
        ensures
            r == self.role_spec(),
    {
        match self {
            PlayerState::Goalkeeper(_) => PlayerRole::Goalkeeper,
            PlayerState::Defender(_) => PlayerRole::Defender,
            PlayerState::Midfielder(_) => PlayerRole::Midfielder,
            PlayerState::Forward(_) => PlayerRole::Forward,
        }
    }
}

/// How far a player has strayed from its formation position.
#[derive(Clone, Copy, Debug, PartialEq, Eq, Structural)]
pub enum PlayerDistanceFromStartPosition {
    Small,
    Medium,
    Big,
}

/// Per-player cumulative match statistics.
#[derive(Clone, Copy, Debug, PartialEq, Eq, Structural, Default)]
pub struct MatchPlayerStatistics {
    pub passes: u32,
    pub shots: u32,
    pub tackles: u32,
    pub fouls: u32,
    pub goals: u32,
}

/// One simulated on-pitch player.
#[derive(Clone, Copy, Debug, PartialEq, Eq, Structural)]
pub struct MatchPlayer {
    pub id: u32,
    pub side: Option<PlayerSide>,
    pub tactical_position: PlayerPositionType,
    pub position: Vec2,
    pub start_position: Vec2,
    pub velocity: Vec2,
    pub skills: PlayerSkills,
    /// Condition on the 0..=10_000 scale; non-increasing within a half.
    pub condition: u32,
    pub state: PlayerState,
    pub in_state_time: u64,
    pub statistics: MatchPlayerStatistics,
}

impl MatchPlayer {
    /// Well-formedness of a roster entry: bounded geometry, skills on
    /// scale, condition on scale, and a state tag from the player's own
    /// role.
    pub open spec fn valid(self) -> bool {
        &&& in_play_bounds(self.position)
        &&& in_play_bounds(self.start_position)
        &&& vel_bounds(self.velocity)
        &&& self.skills.valid()
        &&& self.condition <= CONDITION_MAX
        &&& self.state.role_spec() == self.tactical_position.role_spec()
    }

    /// Condition as a whole percentage, 0..=100.
    pub open spec fn condition_percentage_spec(self) -> u32 {
        self.condition / 100
    }

    /// Exec mirror of [`Self::condition_percentage_spec`].
    pub fn condition_percentage(&self) -> (p: u32)
        ensures
            p == self.condition_percentage_spec(),
            self.condition <= CONDITION_MAX ==> p <= 100,
    {
        self.condition / 100
    }
}

/// A light projection of a player: identity and position only.
#[derive(Clone, Copy, Debug, PartialEq, Eq, Structural)]
pub struct MatchPlayerLite {
    pub id: u32,
    pub position: Vec2,
}

} // verus!
