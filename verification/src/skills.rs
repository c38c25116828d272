//! Player skill attributes.
//!
//! Every skill sits on the bounded 1..=20 scale.  The physical block drives
//! the kinematic limits of the steering model: pace bounds top speed, and
//! acceleration and agility bound how quickly a goalkeeper can dive.

use vstd::prelude::*;

verus! {

/// Top of the 1..=20 skill scale.
pub const SKILL_MAX: u32 = 20;

/// Ball-technique skills.
#[derive(Clone, Copy, Debug, PartialEq, Eq, Structural)]
pub struct Technical {
    pub corners: u32,
    pub crossing: u32,
    pub dribbling: u32,
    pub finishing: u32,
    pub first_touch: u32,
    pub free_kick_taking: u32,
    pub heading: u32,
    pub long_shots: u32,
    pub long_throws: u32,
    pub marking: u32,
    pub passing: u32,
    pub penalty_taking: u32,
    pub tackling: u32,
    pub technique: u32,
}

/// Mental skills.
#[derive(Clone, Copy, Debug, PartialEq, Eq, Structural)]
pub struct Mental {
    pub aggression: u32,
    pub anticipation: u32,
    pub bravery: u32,
    pub composure: u32,
    pub concentration: u32,
    pub decisions: u32,
    pub determination: u32,
    pub flair: u32,
    pub leadership: u32,
    pub off_the_ball: u32,
    pub positioning: u32,
    pub teamwork: u32,
    pub vision: u32,
    pub work_rate: u32,
}

/// Physical skills.
#[derive(Clone, Copy, Debug, PartialEq, Eq, Structural)]
pub struct Physical {
    pub acceleration: u32,
    pub agility: u32,
    pub balance: u32,
    pub jumping_reach: u32,
    pub natural_fitness: u32,
    pub pace: u32,
    pub stamina: u32,
    pub strength: u32,
    pub match_readiness: u32,
}

/// The full skill sheet of one player.
#[derive(Clone, Copy, Debug, PartialEq, Eq, Structural)]
pub struct PlayerSkills {
    pub technical: Technical,
    pub mental: Mental,
    pub physical: Physical,
}

pub open spec fn skill_in_scale(s: u32) -> bool {
    1 <= s <= SKILL_MAX
}

impl Technical {
    pub open spec fn valid(self) -> bool {
        &&& skill_in_scale(self.corners)
        &&& skill_in_scale(self.crossing)
        &&& skill_in_scale(self.dribbling)
        &&& skill_in_scale(self.finishing)
        &&& skill_in_scale(self.first_touch)
        &&& skill_in_scale(self.free_kick_taking)
        &&& skill_in_scale(self.heading)
        &&& skill_in_scale(self.long_shots)
        &&& skill_in_scale(self.long_throws)
        &&& skill_in_scale(self.marking)
        &&& skill_in_scale(self.passing)
        &&& skill_in_scale(self.penalty_taking)
        &&& skill_in_scale(self.tackling)
        &&& skill_in_scale(self.technique)
    }
}

impl Mental {
    pub open spec fn valid(self) -> bool {
        &&& skill_in_scale(self.aggression)
        &&& skill_in_scale(self.anticipation)
        &&& skill_in_scale(self.bravery)
        &&& skill_in_scale(self.composure)
        &&& skill_in_scale(self.concentration)
        &&& skill_in_scale(self.decisions)
        &&& skill_in_scale(self.determination)
        &&& skill_in_scale(self.flair)
        &&& skill_in_scale(self.leadership)
        &&& skill_in_scale(self.off_the_ball)
        &&& skill_in_scale(self.positioning)
        &&& skill_in_scale(self.teamwork)
        &&& skill_in_scale(self.vision)
        &&& skill_in_scale(self.work_rate)
    }
}

impl Physical {
    pub open spec fn valid(self) -> bool {
        &&& skill_in_scale(self.acceleration)
        &&& skill_in_scale(self.agility)
        &&& skill_in_scale(self.balance)
        &&& skill_in_scale(self.jumping_reach)
        &&& skill_in_scale(self.natural_fitness)
        &&& skill_in_scale(self.pace)
        &&& skill_in_scale(self.stamina)
        &&& skill_in_scale(self.strength)
        &&& skill_in_scale(self.match_readiness)
    }
}

impl PlayerSkills {
    pub open spec fn valid(self) -> bool {
        self.technical.valid() && self.mental.valid() && self.physical.valid()
    }

    /// Top speed in milli-units per tick: pace bounds how fast the player
    /// can ever move.
    pub open spec fn max_speed_milli_spec(self) -> u64 {
        (self.physical.pace * 1000) as u64
    }

    /// Exec mirror of [`Self::max_speed_milli_spec`].
    pub fn max_speed_milli(&self) -> (s: u64)
        requires
            self.valid(),
        ensures
            s == self.max_speed_milli_spec(),
    {
        (self.physical.pace as u64) * 1000
    }
}

} // verus!
