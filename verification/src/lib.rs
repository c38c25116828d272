//! A tick-based association-football match engine.
//!
//! Every player on the pitch is an autonomous agent: each simulated time
//! step it decides a behavioural state, a movement, and zero or more match
//! events.  The engine builds a read-only snapshot per tick, evaluates a
//! finite-state behavioural model per player role, synthesises movement
//! through integer steering primitives, and commits proposed events through
//! a deterministic resolution pipeline.  All geometry is carried in integer
//! field units so that every rule of the engine is stated and proved
//! exactly.
//!
//! The contracts pin the engine's central guarantees: ball ownership is
//! exclusive and changes at most once per tick, with later claims logged
//! as resolved conflicts; distances in a tick snapshot are symmetric and
//! rebuilding a snapshot from the same state yields identical queries;
//! the arrive primitive decelerates strictly inside its slowing band and
//! stops exactly at its target; stamina never rises across a tick; and a
//! match that has reached full time refuses further ticks unchanged.

pub mod calendar;
pub mod context;
pub mod defenders;
pub mod events;
pub mod finance;
pub mod forwards;
pub mod generators;
pub mod geometry;
pub mod goalkeepers;
pub mod league;
pub mod match_loop;
pub mod match_state;
pub mod midfielders;
pub mod net;
pub mod person;
pub mod pipeline;
pub mod player;
pub mod player_ops;
pub mod rng;
pub mod skills;
pub mod states_common;
pub mod steering;
pub mod team;
pub mod transfers;
pub mod ui;
