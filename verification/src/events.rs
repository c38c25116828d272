//! Proposed match events and state-change results.
//!
//! State-machine evaluation never mutates shared state: it returns a
//! [`StateChangeResult`] holding an optional next state, an optional
//! movement intent, and the events the agent proposes for this tick.  The
//! event pipeline commits them later in a deterministic order.

use vstd::prelude::*;

use crate::geometry::Vec2;
use crate::player::{
    DefenderState, ForwardState, GoalkeeperState, MidfielderState, PlayerState,
};
use crate::steering::SteeringOutput;

verus! {

/// A proposed pass: who plays it, where to, and how hard.
///
/// The force sits on a 0..=1000 per-mille scale of the passer's power.
#[derive(Clone, Copy, Debug, PartialEq, Eq, Structural)]
pub struct PassingEventModel {
    pub from_player_id: u32,
    pub pass_target: Vec2,
    pub pass_force: u32,
}

impl PassingEventModel {
    /// Start building a pass event.
    pub fn build() -> (b: PassingEventBuilder)
        ensures
            b.from_player_id is None,
            b.pass_target is None,
            b.pass_force is None,
    {
        PassingEventBuilder::new()
    }
}

/// Step-by-step construction of a [`PassingEventModel`].
#[derive(Clone, Copy, Debug, PartialEq, Eq, Structural)]
pub struct PassingEventBuilder {
    pub from_player_id: Option<u32>,
    pub pass_target: Option<Vec2>,
    pub pass_force: Option<u32>,
}

impl Default for PassingEventBuilder {
    /// An empty builder, as [`PassingEventBuilder::new`] yields.
    fn default() -> (b: PassingEventBuilder)
        ensures
            b.from_player_id is None,
            b.pass_target is None,
            b.pass_force is None,
    {
        PassingEventBuilder::new()
    }
}

impl PassingEventBuilder {
    pub fn new() -> (b: PassingEventBuilder)
        ensures
            b.from_player_id is None,
            b.pass_target is None,
            b.pass_force is None,
    {
        PassingEventBuilder { from_player_id: None, pass_target: None, pass_force: None }
    }

    pub fn with_player_id(self, from_player_id: u32) -> (b: PassingEventBuilder)
        ensures
            b.from_player_id == Some(from_player_id),
            b.pass_target == self.pass_target,
            b.pass_force == self.pass_force,
    {
        PassingEventBuilder { from_player_id: Some(from_player_id), ..self }
    }

    pub fn with_target(self, pass_target: Vec2) -> (b: PassingEventBuilder)
        ensures
            b.from_player_id == self.from_player_id,
            b.pass_target == Some(pass_target),
            b.pass_force == self.pass_force,
    {
        PassingEventBuilder { pass_target: Some(pass_target), ..self }
    }

    pub fn with_force(self, pass_force: u32) -> (b: PassingEventBuilder)
        ensures
            b.from_player_id == self.from_player_id,
            b.pass_target == self.pass_target,
            b.pass_force == Some(pass_force),
    {
        PassingEventBuilder { pass_force: Some(pass_force), ..self }
    }

    /// Finish the build; every field must have been supplied.
    pub fn build(self) -> (m: PassingEventModel)
        requires
            self.from_player_id is Some,
            self.pass_target is Some,
            self.pass_force is Some,
        ensures
            m.from_player_id == self.from_player_id->0,
            m.pass_target == self.pass_target->0,
            m.pass_force == self.pass_force->0,
    {
        PassingEventModel {
            from_player_id: self.from_player_id.unwrap(),
            pass_target: self.pass_target.unwrap(),
            pass_force: self.pass_force.unwrap(),
        }
    }
}

/// A proposed shot: who shoots, at which point, and how hard.
#[derive(Clone, Copy, Debug, PartialEq, Eq, Structural)]
pub struct ShootingEventModel {
    pub from_player_id: u32,
    pub shot_target: Vec2,
    pub shot_force: u32,
}

impl ShootingEventModel {
    /// Start building a shot event.
    pub fn build() -> (b: ShootingEventBuilder)
        ensures
            b.from_player_id is None,
            b.shot_target is None,
            b.shot_force is None,
    {
        ShootingEventBuilder { from_player_id: None, shot_target: None, shot_force: None }
    }
}

/// Step-by-step construction of a [`ShootingEventModel`].
#[derive(Clone, Copy, Debug, PartialEq, Eq, Structural)]
pub struct ShootingEventBuilder {
    pub from_player_id: Option<u32>,
    pub shot_target: Option<Vec2>,
    pub shot_force: Option<u32>,
}

impl ShootingEventBuilder {
    pub fn with_player_id(self, from_player_id: u32) -> (b: ShootingEventBuilder)
        ensures
            b.from_player_id == Some(from_player_id),
            b.shot_target == self.shot_target,
            b.shot_force == self.shot_force,
    {
        ShootingEventBuilder { from_player_id: Some(from_player_id), ..self }
    }

    pub fn with_target(self, shot_target: Vec2) -> (b: ShootingEventBuilder)
        ensures
            b.from_player_id == self.from_player_id,
            b.shot_target == Some(shot_target),
            b.shot_force == self.shot_force,
    {
        ShootingEventBuilder { shot_target: Some(shot_target), ..self }
    }

    pub fn with_force(self, shot_force: u32) -> (b: ShootingEventBuilder)
        ensures
            b.from_player_id == self.from_player_id,
            b.shot_target == self.shot_target,
            b.shot_force == Some(shot_force),
    {
        ShootingEventBuilder { shot_force: Some(shot_force), ..self }
    }

    /// Finish the build; every field must have been supplied.
    pub fn build(self) -> (m: ShootingEventModel)
        requires
            self.from_player_id is Some,
            self.shot_target is Some,
            self.shot_force is Some,
        ensures
            m.from_player_id == self.from_player_id->0,
            m.shot_target == self.shot_target->0,
            m.shot_force == self.shot_force->0,
    {
        ShootingEventModel {
            from_player_id: self.from_player_id.unwrap(),
            shot_target: self.shot_target.unwrap(),
            shot_force: self.shot_force.unwrap(),
        }
    }
}

/// An action one agent proposes for this tick.
#[derive(Clone, Copy, Debug, PartialEq, Eq, Structural)]
pub enum PlayerEvent {
    /// Play the ball towards a teammate.
    PassTo(PassingEventModel),
    /// Shoot at a point (normally the opponent goal).
    Shoot(ShootingEventModel),
    /// Claim exclusive ball ownership.
    GainBall(u32),
    /// Concede a foul.
    CommitFoul(u32),
    /// Override the proposing player's own position.
    MovePlayer(u32, Vec2),
    /// A goalkeeper catches and holds the ball.
    CaughtBall(u32),
    /// A goalkeeper claims a loose ball nearby.
    ClaimBall(u32),
}

/// A match event; the player events above are the only kind the behavioural
/// layer proposes.
#[derive(Clone, Copy, Debug, PartialEq, Eq, Structural)]
pub enum Event {
    PlayerEvent(PlayerEvent),
}

/// The events one agent proposes in one tick, in proposal order.
#[derive(Clone, Debug)]
pub struct EventCollection {
    pub events: Vec<Event>,
}

impl EventCollection {
    pub fn new() -> (c: EventCollection)
        ensures
            c.events@ =~= Seq::<Event>::empty(),
    {
        EventCollection { events: Vec::new() }
    }

    pub fn with_event(event: Event) -> (c: EventCollection)
        ensures
            c.events@ =~= seq![event],
    {
        let mut events = Vec::new();
        events.push(event);
        EventCollection { events }
    }

    pub fn add(&mut self, event: Event)
        ensures
            final(self).events@ == old(self).events@.push(event),
    {
        self.events.push(event);
    }

    pub fn add_player_event(&mut self, event: PlayerEvent)
        ensures
            final(self).events@ == old(self).events@.push(Event::PlayerEvent(event)),
    {
        self.events.push(Event::PlayerEvent(event));
    }

    pub fn len(&self) -> (n: usize)
        ensures
            n == self.events@.len(),
    {
        self.events.len()
    }
}

/// The state decided by an optional evaluation result.
pub open spec fn decided_state(r: Option<StateChangeResult>) -> Option<PlayerState> {
    match r {
        Some(res) => res.state,
        None => None,
    }
}

/// The events proposed by an optional evaluation result.
pub open spec fn decided_events(r: Option<StateChangeResult>) -> Seq<Event> {
    match r {
        Some(res) => res.events.events@,
        None => Seq::empty(),
    }
}

/// Lift a defender state decision to the tagged player state.
pub open spec fn lift_defender(o: Option<DefenderState>) -> Option<PlayerState> {
    match o {
        Some(s) => Some(PlayerState::Defender(s)),
        None => None,
    }
}

/// Lift a forward state decision to the tagged player state.
pub open spec fn lift_forward(o: Option<ForwardState>) -> Option<PlayerState> {
    match o {
        Some(s) => Some(PlayerState::Forward(s)),
        None => None,
    }
}

/// Lift a midfielder state decision to the tagged player state.
pub open spec fn lift_midfielder(o: Option<MidfielderState>) -> Option<PlayerState> {
    match o {
        Some(s) => Some(PlayerState::Midfielder(s)),
        None => None,
    }
}

/// Lift a goalkeeper state decision to the tagged player state.
pub open spec fn lift_goalkeeper(o: Option<GoalkeeperState>) -> Option<PlayerState> {
    match o {
        Some(s) => Some(PlayerState::Goalkeeper(s)),
        None => None,
    }
}

/// What one agent's evaluation decided this tick: an optional next state,
/// an optional movement intent, and zero or more proposed events.
#[derive(Clone, Debug)]
pub struct StateChangeResult {
    pub state: Option<PlayerState>,
    pub velocity: Option<SteeringOutput>,
    pub events: EventCollection,
}

impl StateChangeResult {
    /// No transition, no movement, no events.
    pub fn new() -> (r: StateChangeResult)
        ensures
            r.state is None,
            r.velocity is None,
            r.events.events@ =~= Seq::<Event>::empty(),
    {
        StateChangeResult { state: None, velocity: None, events: EventCollection::new() }
    }

    pub fn with_defender_state(state: DefenderState) -> (r: StateChangeResult)
        ensures
            r.state == Some(PlayerState::Defender(state)),
            r.velocity is None,
            r.events.events@ =~= Seq::<Event>::empty(),
    {
        StateChangeResult {
            state: Some(PlayerState::Defender(state)),
            velocity: None,
            events: EventCollection::new(),
        }
    }

    pub fn with_defender_state_and_event(state: DefenderState, event: Event) -> (r:
        StateChangeResult)
        ensures
            r.state == Some(PlayerState::Defender(state)),
            r.velocity is None,
            r.events.events@ =~= seq![event],
    {
        StateChangeResult {
            state: Some(PlayerState::Defender(state)),
            velocity: None,
            events: EventCollection::with_event(event),
        }
    }

    pub fn with_forward_state(state: ForwardState) -> (r: StateChangeResult)
        ensures
            r.state == Some(PlayerState::Forward(state)),
            r.velocity is None,
            r.events.events@ =~= Seq::<Event>::empty(),
    {
        StateChangeResult {
            state: Some(PlayerState::Forward(state)),
            velocity: None,
            events: EventCollection::new(),
        }
    }

    pub fn with_forward_state_and_event(state: ForwardState, event: Event) -> (r:
        StateChangeResult)
        ensures
            r.state == Some(PlayerState::Forward(state)),
            r.velocity is None,
            r.events.events@ =~= seq![event],
    {
        StateChangeResult {
            state: Some(PlayerState::Forward(state)),
            velocity: None,
            events: EventCollection::with_event(event),
        }
    }

    pub fn with_midfielder_state(state: MidfielderState) -> (r: StateChangeResult)
        ensures
            r.state == Some(PlayerState::Midfielder(state)),
            r.velocity is None,
            r.events.events@ =~= Seq::<Event>::empty(),
    {
        StateChangeResult {
            state: Some(PlayerState::Midfielder(state)),
            velocity: None,
            events: EventCollection::new(),
        }
    }

    pub fn with_goalkeeper_state(state: GoalkeeperState) -> (r: StateChangeResult)
        ensures
            r.state == Some(PlayerState::Goalkeeper(state)),
            r.velocity is None,
            r.events.events@ =~= Seq::<Event>::empty(),
    {
        StateChangeResult {
            state: Some(PlayerState::Goalkeeper(state)),
            velocity: None,
            events: EventCollection::new(),
        }
    }

    pub fn with_goalkeeper_state_and_event(state: GoalkeeperState, event: Event) -> (r:
        StateChangeResult)
        ensures
            r.state == Some(PlayerState::Goalkeeper(state)),
            r.velocity is None,
            r.events.events@ =~= seq![event],
    {
        StateChangeResult {
            state: Some(PlayerState::Goalkeeper(state)),
            velocity: None,
            events: EventCollection::with_event(event),
        }
    }

    pub fn with_events(events: EventCollection) -> (r: StateChangeResult)
        ensures
            r.state is None,
            r.velocity is None,
            r.events.events@ == events.events@,
    {
        StateChangeResult { state: None, velocity: None, events }
    }

    pub fn with_velocity(velocity: SteeringOutput) -> (r: StateChangeResult)
        ensures
            r.state is None,
            r.velocity == Some(velocity),
            r.events.events@ =~= Seq::<Event>::empty(),
    {
        StateChangeResult { state: None, velocity: Some(velocity), events: EventCollection::new() }
    }
}

} // verus!
