//! Steering primitives: reusable motion synthesis.
//!
//! A primitive turns a target and the agent's kinematic limits into a
//! movement intent: a heading (the unnormalised offset towards the desired
//! point) and a speed in milli-units per tick.  Pace bounds top speed: no
//! primitive ever returns a speed above the agent's maximum, and `Arrive`
//! decelerates linearly inside its slowing distance, reaching speed zero
//! exactly at the target.

use vstd::prelude::*;

use vstd::arithmetic::div_mod::{
    lemma_div_is_ordered, lemma_div_multiples_vanish, lemma_div_plus_one, lemma_div_pos_is_pos,
};

use crate::geometry::{distance, distance_spec, in_bounds, Vec2};
use crate::player::MatchPlayer;

verus! {

/// Slowing distances, wander radii and distance-ahead parameters never
/// exceed this; it keeps `Arrive` deceleration strictly monotone for every
/// pace on the 1..=20 scale.
pub const STEER_PARAM_LIMIT: u64 = 1000;

/// A movement intent: where to head and how fast, in milli-units per tick.
#[derive(Clone, Copy, Debug, PartialEq, Eq, Structural)]
pub struct SteeringOutput {
    /// Unnormalised offset from the agent's position to the desired point.
    pub heading: Vec2,
    /// Speed along the heading, in milli-units per tick.
    pub speed_milli: u64,
}

/// A steering primitive together with its target data.
#[derive(Clone, Copy, Debug, PartialEq, Eq, Structural)]
pub enum SteeringBehavior {
    /// Head straight for the target at top speed.
    Seek { target: Vec2 },
    /// Head for the target, decelerating inside `slowing_distance`.
    Arrive { target: Vec2, slowing_distance: u64 },
    /// Head for a moving target, leading it by its current velocity.
    Pursue { target: Vec2, target_velocity: Vec2 },
    /// Patrol around a target point: a quasi-random heading derived from an
    /// explicit angle seed, radius, jitter and distance-ahead parameter.
    Wander { target: Vec2, radius: u64, jitter: u64, distance: u64, angle: u32 },
}

/// Arrive speed: zero at the target, top speed outside the slowing band,
/// and a linear ramp in between.
pub open spec fn arrive_speed_spec(max_milli: u64, dist: nat, slowing: u64) -> nat {
    if dist == 0 {
        0
    } else if dist >= slowing {
        max_milli as nat
    } else {
        (max_milli * dist) as nat / slowing as nat
    }
}

/// Coarse milli-cosine of an angle in degrees, by 45-degree sector.
pub open spec fn cos_milli_spec(angle: u32) -> int {
    let sector = (angle % 360) / 45;
    if sector == 0 { 1000 }
    else if sector == 1 { 707 }
    else if sector == 2 { 0 }
    else if sector == 3 { -707 }
    else if sector == 4 { -1000 }
    else if sector == 5 { -707 }
    else if sector == 6 { 0 }
    else { 707 }
}

/// Coarse milli-sine of an angle in degrees, by 45-degree sector.
pub open spec fn sin_milli_spec(angle: u32) -> int {
    cos_milli_spec(((angle + 270) % 360) as u32)
}

/// `radius` scaled by a milli-factor `c`, rounded towards zero.
pub open spec fn scaled_offset_spec(radius: u64, c: int) -> int {
    if c >= 0 {
        radius * c / 1000
    } else {
        -(radius * (-c) / 1000)
    }
}

/// The point a wandering agent heads for: the patrol centre pushed ahead on
/// the x axis and offset around a circle by the jittered angle seed.
pub open spec fn wander_point_spec(
    target: Vec2,
    radius: u64,
    jitter: u64,
    distance: u64,
    angle: u32,
) -> Vec2 {
    let a = ((angle + jitter) % 360) as u32;
    Vec2 {
        x: (target.x + distance + scaled_offset_spec(radius, cos_milli_spec(a))) as i64,
        y: (target.y + scaled_offset_spec(radius, sin_milli_spec(a))) as i64,
    }
}

impl SteeringBehavior {
    /// The target data stays inside the coordinate band and the tuning
    /// parameters inside the steering band.
    pub open spec fn valid(self) -> bool {
        match self {
            SteeringBehavior::Seek { target } => in_bounds(target),
            SteeringBehavior::Arrive { target, slowing_distance } => {
                in_bounds(target) && slowing_distance <= STEER_PARAM_LIMIT
            },
            SteeringBehavior::Pursue { target, target_velocity } => {
                in_bounds(target) && in_bounds(target_velocity) && in_bounds(
                    Vec2 {
                        x: (target.x + target_velocity.x) as i64,
                        y: (target.y + target_velocity.y) as i64,
                    },
                )
            },
            SteeringBehavior::Wander { target, radius, jitter, distance, angle } => {
                in_bounds(target) && radius <= STEER_PARAM_LIMIT && distance <= STEER_PARAM_LIMIT
                    && jitter <= 360 && angle <= 360
            },
        }
    }

    /// The speed this primitive yields for a player at distance `dist` from
    /// the desired point.
    pub open spec fn speed_spec(self, max_milli: u64, dist: nat) -> nat {
        match self {
            SteeringBehavior::Seek { .. } => max_milli as nat,
            SteeringBehavior::Arrive { slowing_distance, .. } => arrive_speed_spec(
                max_milli,
                dist,
                slowing_distance,
            ),
            SteeringBehavior::Pursue { .. } => max_milli as nat,
            SteeringBehavior::Wander { .. } => (max_milli / 2) as nat,
        }
    }

    /// The point this primitive heads for.
    pub open spec fn desired_point_spec(self) -> Vec2 {
        match self {
            SteeringBehavior::Seek { target } => target,
            SteeringBehavior::Arrive { target, .. } => target,
            SteeringBehavior::Pursue { target, target_velocity } => Vec2 {
                x: (target.x + target_velocity.x) as i64,
                y: (target.y + target_velocity.y) as i64,
            },
            SteeringBehavior::Wander { target, radius, jitter, distance, angle } =>
                wander_point_spec(target, radius, jitter, distance, angle),
        }
    }

    /// Convert this primitive into a movement intent for `player`.
    ///
    /// The heading is the exact offset to the desired point and the speed
    /// follows the primitive's law; in particular it never exceeds the
    /// player's top speed.
    pub fn calculate(&self, player: &MatchPlayer) -> (out: SteeringOutput)
        requires
            self.valid(),
            player.valid(),
        ensures
            out.heading.x == self.desired_point_spec().x - player.position.x,
            out.heading.y == self.desired_point_spec().y - player.position.y,
            out.speed_milli == self.speed_spec(
                player.skills.max_speed_milli_spec(),
                distance_spec(player.position, self.desired_point_spec()),
            ),
            out.speed_milli <= player.skills.max_speed_milli_spec(),
    {
        let max_milli = player.skills.max_speed_milli();
        match self {
            SteeringBehavior::Seek { target } => {
                SteeringOutput {
                    heading: target.sub(player.position),
                    speed_milli: max_milli,
                }
            },
            SteeringBehavior::Arrive { target, slowing_distance } => {
                let d = distance(player.position, *target);
                let speed = arrive_speed(max_milli, d, *slowing_distance);
                SteeringOutput { heading: target.sub(player.position), speed_milli: speed }
            },
            SteeringBehavior::Pursue { target, target_velocity } => {
                let lead = target.add(*target_velocity);
                SteeringOutput { heading: lead.sub(player.position), speed_milli: max_milli }
            },
            SteeringBehavior::Wander { target, radius, jitter, distance, angle } => {
                let point = wander_point(*target, *radius, *jitter, *distance, *angle);
                SteeringOutput {
                    heading: Vec2 {
                        x: point.x - player.position.x,
                        y: point.y - player.position.y,
                    },
                    speed_milli: max_milli / 2,
                }
            },
        }
    }
}

/// Exec mirror of [`cos_milli_spec`].
fn cos_milli(angle: u32) -> (c: i64)
    ensures
        c == cos_milli_spec(angle),
{
    let sector = (angle % 360) / 45;
    if sector == 0 { 1000 }
    else if sector == 1 { 707 }
    else if sector == 2 { 0 }
    else if sector == 3 { -707 }
    else if sector == 4 { -1000 }
    else if sector == 5 { -707 }
    else if sector == 6 { 0 }
    else { 707 }
}

/// Exec mirror of [`scaled_offset_spec`].
fn scaled_offset(radius: u64, c: i64) -> (o: i64)
    requires
        radius <= STEER_PARAM_LIMIT,
        -1000 <= c <= 1000,
    ensures
        o == scaled_offset_spec(radius, c as int),
        -1000 <= o <= 1000,
{
    proof {
        assert(radius * 1000u64 <= 1_000_000) by (nonlinear_arith)
            requires
                radius <= 1000,
        ;
        assert(c >= 0 ==> radius * (c as u64) <= radius * 1000u64) by (nonlinear_arith)
            requires
                c <= 1000,
        ;
        assert(c < 0 ==> radius * ((-c) as u64) <= radius * 1000u64) by (nonlinear_arith)
            requires
                -1000 <= c,
        ;
    }
    if c >= 0 {
        let q: u64 = (radius * (c as u64)) / 1000;
        proof {
            lemma_div_is_ordered((radius * (c as u64)) as int, 1_000_000, 1000);
        }
        q as i64
    } else {
        let q: u64 = (radius * ((-c) as u64)) / 1000;
        proof {
            lemma_div_is_ordered((radius * ((-c) as u64)) as int, 1_000_000, 1000);
        }
        -(q as i64)
    }
}

/// Exec mirror of [`wander_point_spec`].
fn wander_point(target: Vec2, radius: u64, jitter: u64, distance: u64, angle: u32) -> (p: Vec2)
    requires
        in_bounds(target),
        radius <= STEER_PARAM_LIMIT,
        distance <= STEER_PARAM_LIMIT,
        jitter <= 360,
        angle <= 360,
    ensures
        p == wander_point_spec(target, radius, jitter, distance, angle),
        -1_002_000 <= p.x <= 1_002_000,
        -1_001_000 <= p.y <= 1_001_000,
{
    let a: u32 = (angle + (jitter as u32)) % 360;
    let cos_off: i64 = scaled_offset(radius, cos_milli(a));
    let sin_off: i64 = scaled_offset(radius, cos_milli((a + 270) % 360));
    Vec2 { x: target.x + (distance as i64) + cos_off, y: target.y + sin_off }
}

/// Exec mirror of [`arrive_speed_spec`].
pub fn arrive_speed(max_milli: u64, dist: u64, slowing: u64) -> (s: u64)
    requires
        max_milli <= 1_000_000,
        slowing <= STEER_PARAM_LIMIT,
    ensures
        s == arrive_speed_spec(max_milli, dist as nat, slowing),
        s <= max_milli,
{
    if dist == 0 {
        0
    } else if dist >= slowing {
        max_milli
    } else {
        proof {
            assert(max_milli * dist <= 1_000_000u64 * 1000u64) by (nonlinear_arith)
                requires
                    max_milli <= 1_000_000,
                    dist <= 1000,
            ;
        }
        let s = (max_milli * dist) / slowing;
        proof {
            lemma_arrive_speed_at_most_max(max_milli, dist as nat, slowing);
        }
        s
    }
}

/// Inside the slowing band the linear ramp never exceeds top speed.
proof fn lemma_arrive_speed_at_most_max(max_milli: u64, dist: nat, slowing: u64)
    requires
        0 < dist < slowing,
    ensures
        (max_milli * dist) as nat / slowing as nat <= max_milli,
{
    let m = max_milli as int;
    let s = slowing as int;
    let d = dist as int;
    assert(m * d <= m * s) by (nonlinear_arith)
        requires
            0 <= m,
            d <= s,
    ;
    lemma_div_is_ordered(m * d, m * s, s);
    lemma_div_multiples_vanish(m, s);
    assert((s * m) / s == m);
    assert(m * s == s * m) by (nonlinear_arith);
}

/// The movement intent of heading for `target` with deceleration over
/// `slowing` units: the exact offset as heading, the arrive law as speed.
pub open spec fn arrive_output_spec(player: MatchPlayer, target: Vec2, slowing: u64)
    -> SteeringOutput {
    SteeringOutput {
        heading: Vec2 {
            x: (target.x - player.position.x) as i64,
            y: (target.y - player.position.y) as i64,
        },
        speed_milli: arrive_speed_spec(
            player.skills.max_speed_milli_spec(),
            distance_spec(player.position, target),
            slowing,
        ) as u64,
    }
}

/// The `Arrive` deceleration law: below the slowing distance, speed is zero
/// exactly at the target and strictly shrinks as the distance to the target
/// shrinks, for every top speed at least as large as the slowing distance
/// (every pace on the skill scale, since slowing distances stay below
/// [`STEER_PARAM_LIMIT`] and top speeds are whole thousands).
pub proof fn lemma_arrive_decelerates(max_milli: u64, slowing: u64, d1: nat, d2: nat)
    requires
        max_milli >= slowing,
        max_milli > 0,
        d1 < d2 < slowing,
    ensures
        arrive_speed_spec(max_milli, 0, slowing) == 0,
        arrive_speed_spec(max_milli, d1, slowing) < arrive_speed_spec(max_milli, d2, slowing),
{
    let m = max_milli as int;
    let s = slowing as int;
    let a1 = m * d1;
    let a2 = m * d2;
    assert(a2 >= a1 + s) by (nonlinear_arith)
        requires
            a1 == m * d1,
            a2 == m * d2,
            d1 < d2,
            m >= s,
            s >= 1,
    ;
    lemma_div_is_ordered(a1 + s, a2, s);
    lemma_div_plus_one(a1, s);
    assert(a1 / s + 1 <= a2 / s);
    if d1 == 0 {
        assert(a1 == 0) by (nonlinear_arith)
            requires
                a1 == m * d1,
                d1 == 0,
        ;
        assert(a2 / s >= 1);
        assert(a2 >= 0) by (nonlinear_arith)
            requires
                a2 == m * d2,
                m >= 0,
                d2 >= 0,
        ;
        lemma_div_pos_is_pos(a2, s);
    } else {
        assert(a1 >= 0) by (nonlinear_arith)
            requires
                a1 == m * d1,
                m >= 0,
                d1 >= 0,
        ;
        lemma_div_pos_is_pos(a1, s);
    }
}

/// One axis of a clamped move: from `v` towards `target` by at most
/// `step`, never overshooting.
pub open spec fn move_axis_spec(v: i64, target: i64, step: i64) -> int {
    if target >= v {
        if v + step <= target {
            v + step
        } else {
            target as int
        }
    } else {
        if v - step >= target {
            v - step
        } else {
            target as int
        }
    }
}

/// Move `v` towards `target` by at most `step` along this axis.
pub fn step_axis(v: i64, target: i64, step: i64) -> (n: i64)
    requires
        -1_000_000 <= v <= 1_000_000,
        -1_000_000 <= target <= 1_000_000,
        0 <= step <= 1_000_000,
    ensures
        n == move_axis_spec(v, target, step),
        target >= v ==> v <= n <= target,
        target < v ==> target <= n <= v,
{
    if target >= v {
        if v + step <= target {
            v + step
        } else {
            target
        }
    } else {
        if v - step >= target {
            v - step
        } else {
            target
        }
    }
}

} // verus!
