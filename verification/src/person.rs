//! People around the club: behaviour and personality attributes.

use vstd::prelude::*;

verus! {

/// Personality attributes on the bounded 1..=20 scale.
#[derive(Clone, Copy, Debug, PartialEq, Eq, Structural)]
pub struct PersonAttributes {
    pub adaptability: u8,
    pub ambition: u8,
    pub controversy: u8,
    pub loyalty: u8,
    pub pressure: u8,
    pub professionalism: u8,
    pub sportsmanship: u8,
    pub temperament: u8,
}

/// The coarse behaviour grade of a person.
#[derive(Clone, Copy, Debug, PartialEq, Eq, Structural)]
pub enum PersonBehaviourState {
    Poor,
    Normal,
    Good,
}

impl PersonBehaviourState {
    /// The display name of the grade.
    pub fn as_str(&self) -> (s: &'static str)
        ensures
            self is Poor ==> s@ == "Poor"@,
            self is Normal ==> s@ == "Normal"@,
            self is Good ==> s@ == "Good"@,
    {
        match self {
            PersonBehaviourState::Poor => "Poor",
            PersonBehaviourState::Normal => "Normal",
            PersonBehaviourState::Good => "Good",
        }
    }
}

/// A person's behaviour, graded poor, normal or good.
#[derive(Clone, Copy, Debug, PartialEq, Eq, Structural)]
pub struct PersonBehaviour {
    pub state: PersonBehaviourState,
}

impl PersonBehaviour {
    /// A fresh person behaves normally.
    pub fn default() -> (b: PersonBehaviour)
        ensures
            b.state == PersonBehaviourState::Normal,
    {
        PersonBehaviour { state: PersonBehaviourState::Normal }
    }

    /// Improve the grade one notch: poor becomes normal, normal becomes
    /// good, good stays good.
    pub fn try_increase(&mut self)
        ensures
            old(self).state == PersonBehaviourState::Poor ==> final(self).state
                == PersonBehaviourState::Normal,
            old(self).state == PersonBehaviourState::Normal ==> final(self).state
                == PersonBehaviourState::Good,
            old(self).state == PersonBehaviourState::Good ==> final(self).state
                == PersonBehaviourState::Good,
    {
        match self.state {
            PersonBehaviourState::Poor => {
                self.state = PersonBehaviourState::Normal;
            },
            PersonBehaviourState::Normal => {
                self.state = PersonBehaviourState::Good;
            },
            _ => {},
        }
    }

    pub fn is_poor(&self) -> (r: bool)
        ensures
            r == (self.state == PersonBehaviourState::Poor),
    {
        matches!(self.state, PersonBehaviourState::Poor)
    }

    /// The display name of the behaviour grade.
    pub fn as_str(&self) -> (s: &'static str)
        ensures
            self.state is Poor ==> s@ == "Poor"@,
            self.state is Normal ==> s@ == "Normal"@,
            self.state is Good ==> s@ == "Good"@,
    {
        self.state.as_str()
    }
}

/// What a staff member focuses training on.
#[derive(Clone, Debug)]
pub struct StaffFocus {
    pub technical_focus: Vec<StaffSkillFocusType>,
    pub mental_focus: Vec<StaffSkillFocusType>,
    pub physical_focus: Vec<StaffSkillFocusType>,
}

/// A trainable skill a staff member may focus on.
#[derive(Clone, Copy, Debug, PartialEq, Eq, Structural)]
pub enum StaffSkillFocusType {
    Corners,
    Crossing,
    Dribbling,
    Finishing,
    FirstTouch,
    FreeKickTaking,
    Heading,
    LongShots,
    LongThrows,
    Marking,
    Passing,
    PenaltyTaking,
    Tackling,
    Technique,
    Aggression,
    Anticipation,
    Bravery,
    Composure,
    Concentration,
    Decisions,
    Determination,
    Flair,
    Leadership,
    OffTheBall,
    Positioning,
    Teamwork,
    Vision,
    WorkRate,
    Acceleration,
    Agility,
    Balance,
    JumpingReach,
    NaturalFitness,
    Pace,
    Stamina,
    Strength,
    MatchReadiness,
}

} // verus!
