//! The authoritative state of one match.
//!
//! The match state exclusively owns the agent and ball records of its
//! match.  At most one agent owns the ball at any instant, which the
//! `Option` owner field makes structural; ownership changes only through a
//! committed event.  The committed event log is ordered, timestamped and
//! append-only for the whole match.

use vstd::prelude::*;

use crate::events::PlayerEvent;
use crate::geometry::{in_bounds, Vec2};
use crate::player::MatchPlayer;

verus! {

/// Pitch dimensions in field units.
#[derive(Clone, Copy, Debug, PartialEq, Eq, Structural)]
pub struct FieldSize {
    pub width: i64,
    pub height: i64,
}

impl FieldSize {
    pub open spec fn valid(self) -> bool {
        0 < self.width <= 10_000 && 0 < self.height <= 10_000
    }

    /// A standard pitch.
    pub fn standard() -> (f: FieldSize)
        ensures
            f.width == 840,
            f.height == 545,
            f.valid(),
    {
        FieldSize { width: 840, height: 545 }
    }
}

/// The two goal centre points.
#[derive(Clone, Copy, Debug, PartialEq, Eq, Structural)]
pub struct GoalPositions {
    pub left: Vec2,
    pub right: Vec2,
}

impl GoalPositions {
    pub open spec fn valid(self) -> bool {
        in_bounds(self.left) && in_bounds(self.right)
    }

    /// Goals at the midpoint of each short side of the field.
    pub fn of_field(field: FieldSize) -> (g: GoalPositions)
        requires
            field.valid(),
        ensures
            g.left == (Vec2 { x: 0, y: (field.height / 2) as i64 }),
            g.right == (Vec2 { x: field.width, y: (field.height / 2) as i64 }),
            g.valid(),
    {
        GoalPositions {
            left: Vec2 { x: 0, y: field.height / 2 },
            right: Vec2 { x: field.width, y: field.height / 2 },
        }
    }
}

/// The ball: position, velocity, and at most one exclusive owner.
#[derive(Clone, Copy, Debug, PartialEq, Eq, Structural)]
pub struct Ball {
    pub position: Vec2,
    pub velocity: Vec2,
    /// The identity of the owning agent, if any agent owns the ball.  An
    /// `Option` holds at most one identity, so two simultaneous owners
    /// cannot even be represented.
    pub owner: Option<u32>,
}

/// The running score.
#[derive(Clone, Copy, Debug, PartialEq, Eq, Structural, Default)]
pub struct Score {
    pub home: u32,
    pub away: u32,
}

/// The period of the match; transitions run strictly forward.
#[derive(Clone, Copy, Debug, PartialEq, Eq, Structural)]
pub enum MatchPeriod {
    FirstHalf,
    HalfTime,
    SecondHalf,
    FullTime,
}

/// How a proposed event fared at commit time.
#[derive(Clone, Copy, Debug, PartialEq, Eq, Structural)]
pub enum CommitOutcome {
    /// The event was applied to the match state.
    Applied,
    /// The event clashed with an earlier claim in the same tick; it was
    /// dropped and recorded here as a resolved conflict.
    ResolvedConflict,
}

/// One entry of the committed event log.
#[derive(Clone, Copy, Debug, PartialEq, Eq, Structural)]
pub struct CommittedEvent {
    /// Match time (in ticks) at which the event was committed.
    pub time: u64,
    pub event: PlayerEvent,
    pub outcome: CommitOutcome,
}

/// No two roster entries share an identity.
pub open spec fn player_ids_unique(players: Seq<MatchPlayer>) -> bool {
    forall|i: int, j: int|
        0 <= i < players.len() && 0 <= j < players.len() && i != j ==> players[i].id
            != players[j].id
}

/// Some roster entry carries identity `id`.
pub open spec fn roster_has_id(players: Seq<MatchPlayer>, id: u32) -> bool {
    exists|i: int| 0 <= i < players.len() && players[i].id == id
}

/// The authoritative, exclusively owned state of one match.
#[derive(Clone, Debug)]
pub struct MatchState {
    pub players: Vec<MatchPlayer>,
    pub ball: Ball,
    pub field_size: FieldSize,
    pub goal_positions: GoalPositions,
    pub score: Score,
    /// Elapsed match time in ticks.
    pub time: u64,
    pub period: MatchPeriod,
    /// Ordered, timestamped, append-only history of committed events.
    pub event_log: Vec<CommittedEvent>,
}

impl MatchState {
    /// Internal consistency of a match state: a valid roster of distinct
    /// identities, a ball inside the coordinate band whose owner (if any)
    /// is on the roster, and valid field geometry.
    pub open spec fn well_formed(self) -> bool {
        &&& forall|i: int| 0 <= i < self.players@.len() ==> (#[trigger] self.players@[i]).valid()
        &&& player_ids_unique(self.players@)
        &&& in_bounds(self.ball.position)
        &&& in_bounds(self.ball.velocity)
        &&& (self.ball.owner matches Some(id) ==> roster_has_id(self.players@, id))
        &&& self.field_size.valid()
        &&& self.goal_positions.valid()
    }

    /// A fresh match over a roster: ball loose at the centre spot, nil-nil,
    /// first half, empty log.
    pub fn from_roster(players: Vec<MatchPlayer>, field_size: FieldSize) -> (s: MatchState)
        requires
            forall|i: int| 0 <= i < players@.len() ==> (#[trigger] players@[i]).valid(),
            player_ids_unique(players@),
            field_size.valid(),
        ensures
            s.well_formed(),
            s.players == players,
            s.ball.owner is None,
            s.score == (Score { home: 0, away: 0 }),
            s.time == 0,
            s.period == MatchPeriod::FirstHalf,
            s.event_log@ =~= Seq::<CommittedEvent>::empty(),
    {
        let centre = Vec2 { x: field_size.width / 2, y: field_size.height / 2 };
        let goal_positions = GoalPositions::of_field(field_size);
        MatchState {
            players,
            ball: Ball { position: centre, velocity: Vec2 { x: 0, y: 0 }, owner: None },
            field_size,
            goal_positions,
            score: Score { home: 0, away: 0 },
            time: 0,
            period: MatchPeriod::FirstHalf,
            event_log: Vec::new(),
        }
    }

    /// The roster index carrying identity `id`, if any.
    pub fn index_of(&self, id: u32) -> (r: Option<usize>)
        ensures
            match r {
                Some(i) => i < self.players@.len() && self.players@[i as int].id == id,
                None => !roster_has_id(self.players@, id),
            },
    {
        let mut i: usize = 0;
        while i < self.players.len()
            invariant
                i <= self.players@.len(),
                forall|j: int| 0 <= j < i ==> self.players@[j].id != id,
            decreases self.players@.len() - i,
        {
            if self.players[i].id == id {
                return Some(i);
            }
            i += 1;
        }
        None
    }
}

} // verus!
