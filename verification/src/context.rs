//! The per-tick snapshot and its spatial queries.
//!
//! Once per tick the engine builds a read-only context: every agent's
//! position and velocity, a symmetric pairwise distance cache, the ball
//! state and the field geometry.  All queries are pure functions over the
//! snapshot; querying an unknown agent identity fails with a `NotFound`
//! condition.  The context lives for exactly one tick and is discarded
//! after commit.

use vstd::prelude::*;

use crate::geometry::{aligned_spec, cos_above, distance, distance_spec, in_bounds, Vec2};
use crate::geometry::lemma_distance_symmetric;
use crate::match_state::{
    player_ids_unique, roster_has_id, Ball, FieldSize, GoalPositions, MatchState,
};
use crate::player::{MatchPlayer, MatchPlayerLite};

verus! {

/// Failure of a snapshot query.
#[derive(Clone, Copy, Debug, PartialEq, Eq, Structural)]
pub enum TickError {
    /// The queried agent identity is not on the roster.  Given an
    /// internally consistent roster this indicates a caller bug.
    NotFound,
}

/// The roster index carrying identity `id` (meaningful only when some
/// entry does carry it).
pub open spec fn idx_of(players: Seq<MatchPlayer>, id: u32) -> int {
    choose|i: int| 0 <= i < players.len() && players[i].id == id
}

/// The projection of a roster entry handed out by spatial queries.
pub open spec fn lite_of(p: MatchPlayer) -> MatchPlayerLite {
    MatchPlayerLite { id: p.id, position: p.position }
}

/// `p` plays against `me`: both are assigned a side and the sides differ.
pub open spec fn is_opponent_of(me: MatchPlayer, p: MatchPlayer) -> bool {
    me.side is Some && p.side is Some && me.side != p.side
}

/// `p` is a teammate of `me`: another player assigned to the same side.
pub open spec fn is_teammate_of(me: MatchPlayer, p: MatchPlayer) -> bool {
    me.side is Some && p.side == me.side && p.id != me.id
}

/// The opponents of `me` within `radius`, in roster order, as light
/// projections.
pub open spec fn opponents_within(players: Seq<MatchPlayer>, me: MatchPlayer, radius: u64) -> Seq<
    MatchPlayerLite,
> {
    players.filter(
        |p: MatchPlayer| is_opponent_of(me, p) && distance_spec(me.position, p.position) <= radius,
    ).map_values(|p: MatchPlayer| lite_of(p))
}

/// The teammates of `me` within `radius`, in roster order, as light
/// projections.
pub open spec fn teammates_within(players: Seq<MatchPlayer>, me: MatchPlayer, radius: u64) -> Seq<
    MatchPlayerLite,
> {
    players.filter(
        |p: MatchPlayer| is_teammate_of(me, p) && distance_spec(me.position, p.position) <= radius,
    ).map_values(|p: MatchPlayer| lite_of(p))
}

/// The opponent of `me` currently owning the ball, if any.
pub open spec fn opponent_on_ball_spec(
    players: Seq<MatchPlayer>,
    me: MatchPlayer,
    ball: Ball,
) -> Option<MatchPlayerLite> {
    match ball.owner {
        Some(o) => if roster_has_id(players, o) && is_opponent_of(me, players[idx_of(players, o)]) {
            Some(lite_of(players[idx_of(players, o)]))
        } else {
            None
        },
        None => None,
    }
}

/// The ball moves towards `target` more tightly than the milli-cosine
/// threshold: the angle between the ball's velocity and the offset from
/// ball to target has cosine above `threshold_milli / 1000`.  Stated over
/// squares so that it is exact in integers.
pub open spec fn ball_towards_spec(ball: Ball, target: Vec2, threshold_milli: u32) -> bool {
    aligned_spec(
        ball.velocity,
        Vec2 { x: (target.x - ball.position.x) as i64, y: (target.y - ball.position.y) as i64 },
        threshold_milli,
    )
}

/// The read-only snapshot the behavioural layer evaluates against.
#[derive(Clone, Debug)]
pub struct TickContext {
    pub players: Vec<MatchPlayer>,
    /// `distances[i][j]` is the exact distance between players `i` and `j`.
    pub distances: Vec<Vec<u64>>,
    pub ball: Ball,
    pub field_size: FieldSize,
    pub goal_positions: GoalPositions,
    /// Elapsed match time in ticks at the start of this tick.
    pub time: u64,
}

impl TickContext {
    /// The cache covers exactly the roster, pairwise.
    pub open spec fn distances_ok(self) -> bool {
        &&& self.distances@.len() == self.players@.len()
        &&& forall|i: int|
            0 <= i < self.players@.len() ==> (#[trigger] self.distances@[i])@.len()
                == self.players@.len()
        &&& forall|i: int, j: int|
            0 <= i < self.players@.len() && 0 <= j < self.players@.len()
                ==> (#[trigger] self.distances@[i]@[j]) == distance_spec(
                self.players@[i].position,
                self.players@[j].position,
            )
    }

    /// Well-formedness of a snapshot.
    pub open spec fn wf(self) -> bool {
        &&& forall|i: int| 0 <= i < self.players@.len() ==> (#[trigger] self.players@[i]).valid()
        &&& player_ids_unique(self.players@)
        &&& self.distances_ok()
        &&& in_bounds(self.ball.position)
        &&& in_bounds(self.ball.velocity)
        &&& self.field_size.valid()
        &&& self.goal_positions.valid()
    }

    /// The snapshot mirrors the match state it was built from.
    pub open spec fn snapshot_of(self, state: MatchState) -> bool {
        &&& self.players@ == state.players@
        &&& self.ball == state.ball
        &&& self.field_size == state.field_size
        &&& self.goal_positions == state.goal_positions
        &&& self.time == state.time
    }

    /// Build the snapshot of `state`: copy the world data and fill the
    /// pairwise distance cache.
    pub fn build(state: &MatchState) -> (ctx: TickContext)
        requires
            state.well_formed(),
        ensures
            ctx.wf(),
            ctx.snapshot_of(*state),
    {
        let n = state.players.len();
        let mut players: Vec<MatchPlayer> = Vec::new();
        let mut i: usize = 0;
        while i < n
            invariant
                i <= n,
                n == state.players@.len(),
                players@ =~= state.players@.take(i as int),
            decreases n - i,
        {
            players.push(state.players[i]);
            proof {
                assert(players@ =~= state.players@.take(i + 1));
            }
            i += 1;
        }
        proof {
            assert(players@ =~= state.players@);
        }
        let mut distances: Vec<Vec<u64>> = Vec::new();
        let mut i: usize = 0;
        while i < n
            invariant
                i <= n,
                n == state.players@.len(),
                players@ == state.players@,
                forall|k: int| 0 <= k < state.players@.len() ==> (#[trigger] state.players@[k]).valid(),
                distances@.len() == i,
                forall|k: int|
                    0 <= k < i ==> (#[trigger] distances@[k])@.len() == state.players@.len(),
                forall|k: int, l: int|
                    0 <= k < i && 0 <= l < state.players@.len()
                        ==> (#[trigger] distances@[k]@[l]) == distance_spec(
                        state.players@[k].position,
                        state.players@[l].position,
                    ),
            decreases n - i,
        {
            let mut row: Vec<u64> = Vec::new();
            let mut j: usize = 0;
            while j < n
                invariant
                    j <= n,
                    i < n,
                    n == state.players@.len(),
                    players@ == state.players@,
                    forall|k: int|
                        0 <= k < state.players@.len() ==> (#[trigger] state.players@[k]).valid(),
                    row@.len() == j,
                    forall|l: int|
                        0 <= l < j ==> (#[trigger] row@[l]) == distance_spec(
                            state.players@[i as int].position,
                            state.players@[l].position,
                        ),
                decreases n - j,
            {
                let d = distance(players[i].position, players[j].position);
                row.push(d);
                j += 1;
            }
            distances.push(row);
            i += 1;
        }
        TickContext {
            players,
            distances,
            ball: state.ball,
            field_size: state.field_size,
            goal_positions: state.goal_positions,
            time: state.time,
        }
    }

    /// The roster index carrying identity `id`, if any.
    pub fn index_of(&self, id: u32) -> (r: Option<usize>)
        ensures
            match r {
                Some(i) => i < self.players@.len() && self.players@[i as int].id == id,
                None => !roster_has_id(self.players@, id),
            },
    {
        let mut i: usize = 0;
        while i < self.players.len()
            invariant
                i <= self.players@.len(),
                forall|j: int| 0 <= j < i ==> self.players@[j].id != id,
            decreases self.players@.len() - i,
        {
            if self.players[i].id == id {
                return Some(i);
            }
            i += 1;
        }
        None
    }

    /// The exact distance between agents `a` and `b`, or `NotFound` if
    /// either identity is off the roster.
    pub fn distance(&self, a: u32, b: u32) -> (r: Result<u64, TickError>)
        requires
            self.wf(),
        ensures
            r is Ok <==> roster_has_id(self.players@, a) && roster_has_id(self.players@, b),
            r matches Ok(d) ==> d == distance_spec(
                self.players@[idx_of(self.players@, a)].position,
                self.players@[idx_of(self.players@, b)].position,
            ),
            r is Err ==> r == Err::<u64, TickError>(TickError::NotFound),
    {
        let ia = match self.index_of(a) {
            Some(i) => i,
            None => {
                return Err(TickError::NotFound);
            },
        };
        let ib = match self.index_of(b) {
            Some(i) => i,
            None => {
                return Err(TickError::NotFound);
            },
        };
        proof {
            let ca = idx_of(self.players@, a);
            assert(0 <= ca < self.players@.len() && self.players@[ca].id == a);
            assert(ca == ia as int);
            let cb = idx_of(self.players@, b);
            assert(0 <= cb < self.players@.len() && self.players@[cb].id == b);
            assert(cb == ib as int);
        }
        Ok(self.distances[ia][ib])
    }

    /// Distance from agent `id` to the ball.
    pub fn ball_distance(&self, id: u32) -> (r: Result<u64, TickError>)
        requires
            self.wf(),
        ensures
            r is Ok <==> roster_has_id(self.players@, id),
            r matches Ok(d) ==> d == distance_spec(
                self.players@[idx_of(self.players@, id)].position,
                self.ball.position,
            ),
            r is Err ==> r == Err::<u64, TickError>(TickError::NotFound),
    {
        let i = match self.index_of(id) {
            Some(i) => i,
            None => {
                return Err(TickError::NotFound);
            },
        };
        proof {
            let c = idx_of(self.players@, id);
            assert(0 <= c < self.players@.len() && self.players@[c].id == id);
            assert(c == i as int);
        }
        Ok(distance(self.players[i].position, self.ball.position))
    }

    /// The opponents of agent `id` within `radius`, in roster order.
    pub fn nearby_opponents(&self, id: u32, radius: u64) -> (r: Result<
        Vec<MatchPlayerLite>,
        TickError,
    >)
        requires
            self.wf(),
        ensures
            r is Ok <==> roster_has_id(self.players@, id),
            r matches Ok(v) ==> v@ == opponents_within(
                self.players@,
                self.players@[idx_of(self.players@, id)],
                radius,
            ),
            r is Err ==> r == Err::<Vec<MatchPlayerLite>, TickError>(TickError::NotFound),
    {
        let i = match self.index_of(id) {
            Some(i) => i,
            None => {
                return Err(TickError::NotFound);
            },
        };
        proof {
            let c = idx_of(self.players@, id);
            assert(0 <= c < self.players@.len() && self.players@[c].id == id);
            assert(c == i as int);
        }
        let me = self.players[i];
        let ghost pred = |p: MatchPlayer|
            is_opponent_of(me, p) && distance_spec(me.position, p.position) <= radius;
        let mut v: Vec<MatchPlayerLite> = Vec::new();
        let mut j: usize = 0;
        while j < self.players.len()
            invariant
                j <= self.players@.len(),
                self.wf(),
                i < self.players@.len(),
                me == self.players@[i as int],
                pred == (|p: MatchPlayer|
                    is_opponent_of(me, p) && distance_spec(me.position, p.position) <= radius),
                v@ == self.players@.take(j as int).filter(pred).map_values(
                    |p: MatchPlayer| lite_of(p),
                ),
            decreases self.players@.len() - j,
        {
            let p = self.players[j];
            let opp = match (me.side, p.side) {
                (Some(a), Some(b)) => a != b,
                _ => false,
            };
            let within = if opp {
                distance(me.position, p.position) <= radius
            } else {
                false
            };
            proof {
                assert(within == pred(p));
                lemma_take_filter_map_step(self.players@, pred, j as int, v@);
            }
            if within {
                v.push(MatchPlayerLite { id: p.id, position: p.position });
                proof {
                    assert(v@ == self.players@.take(j + 1).filter(pred).map_values(
                        |q: MatchPlayer| lite_of(q),
                    ));
                }
            }
            j += 1;
        }
        proof {
            assert(self.players@.take(self.players@.len() as int) =~= self.players@);
        }
        Ok(v)
    }

    /// The teammates of agent `id` within `radius`, in roster order.
    pub fn nearby_teammates(&self, id: u32, radius: u64) -> (r: Result<
        Vec<MatchPlayerLite>,
        TickError,
    >)
        requires
            self.wf(),
        ensures
            r is Ok <==> roster_has_id(self.players@, id),
            r matches Ok(v) ==> v@ == teammates_within(
                self.players@,
                self.players@[idx_of(self.players@, id)],
                radius,
            ),
            r is Err ==> r == Err::<Vec<MatchPlayerLite>, TickError>(TickError::NotFound),
    {
        let i = match self.index_of(id) {
            Some(i) => i,
            None => {
                return Err(TickError::NotFound);
            },
        };
        proof {
            let c = idx_of(self.players@, id);
            assert(0 <= c < self.players@.len() && self.players@[c].id == id);
            assert(c == i as int);
        }
        let me = self.players[i];
        let ghost pred = |p: MatchPlayer|
            is_teammate_of(me, p) && distance_spec(me.position, p.position) <= radius;
        let mut v: Vec<MatchPlayerLite> = Vec::new();
        let mut j: usize = 0;
        while j < self.players.len()
            invariant
                j <= self.players@.len(),
                self.wf(),
                i < self.players@.len(),
                me == self.players@[i as int],
                pred == (|p: MatchPlayer|
                    is_teammate_of(me, p) && distance_spec(me.position, p.position) <= radius),
                v@ == self.players@.take(j as int).filter(pred).map_values(
                    |p: MatchPlayer| lite_of(p),
                ),
            decreases self.players@.len() - j,
        {
            let p = self.players[j];
            let same_side = match (me.side, p.side) {
                (Some(a), Some(b)) => a == b,
                _ => false,
            };
            let within = if same_side && p.id != me.id {
                distance(me.position, p.position) <= radius
            } else {
                false
            };
            proof {
                assert(within == pred(p));
                lemma_take_filter_map_step(self.players@, pred, j as int, v@);
            }
            if within {
                v.push(MatchPlayerLite { id: p.id, position: p.position });
                proof {
                    assert(v@ == self.players@.take(j + 1).filter(pred).map_values(
                        |q: MatchPlayer| lite_of(q),
                    ));
                }
            }
            j += 1;
        }
        proof {
            assert(self.players@.take(self.players@.len() as int) =~= self.players@);
        }
        Ok(v)
    }

    /// The opponent of agent `id` currently owning the ball, if any.
    pub fn opponent_with_ball(&self, id: u32) -> (r: Result<Option<MatchPlayerLite>, TickError>)
        requires
            self.wf(),
        ensures
            r is Ok <==> roster_has_id(self.players@, id),
            r matches Ok(o) ==> o == opponent_on_ball_spec(
                self.players@,
                self.players@[idx_of(self.players@, id)],
                self.ball,
            ),
            r is Err ==> r == Err::<Option<MatchPlayerLite>, TickError>(TickError::NotFound),
    {
        let i = match self.index_of(id) {
            Some(i) => i,
            None => {
                return Err(TickError::NotFound);
            },
        };
        proof {
            let c = idx_of(self.players@, id);
            assert(0 <= c < self.players@.len() && self.players@[c].id == id);
            assert(c == i as int);
        }
        let me = self.players[i];
        let owner = match self.ball.owner {
            Some(o) => o,
            None => {
                return Ok(None);
            },
        };
        match self.index_of(owner) {
            Some(j) => {
                proof {
                    let c = idx_of(self.players@, owner);
                    assert(0 <= c < self.players@.len() && self.players@[c].id == owner);
                    assert(c == j as int);
                }
                let p = self.players[j];
                let opp = match (me.side, p.side) {
                    (Some(a), Some(b)) => a != b,
                    _ => false,
                };
                if opp {
                    Ok(Some(MatchPlayerLite { id: p.id, position: p.position }))
                } else {
                    Ok(None)
                }
            },
            None => Ok(None),
        }
    }

    /// Does any agent own the ball?
    pub fn ball_is_owned(&self) -> (r: bool)
        ensures
            r == (self.ball.owner is Some),
    {
        self.ball.owner.is_some()
    }

    /// Does agent `id` own the ball?
    pub fn has_ball(&self, id: u32) -> (r: bool)
        ensures
            r == (self.ball.owner == Some(id)),
    {
        match self.ball.owner {
            Some(o) => o == id,
            None => false,
        }
    }

    /// Is the ball heading towards agent `id`, within the milli-cosine
    /// angle threshold?
    pub fn is_ball_towards_agent(&self, id: u32, threshold_milli: u32) -> (r: Result<
        bool,
        TickError,
    >)
        requires
            self.wf(),
            threshold_milli <= 1000,
        ensures
            r is Ok <==> roster_has_id(self.players@, id),
            r matches Ok(b) ==> b == ball_towards_spec(
                self.ball,
                self.players@[idx_of(self.players@, id)].position,
                threshold_milli,
            ),
            r is Err ==> r == Err::<bool, TickError>(TickError::NotFound),
    {
        let i = match self.index_of(id) {
            Some(i) => i,
            None => {
                return Err(TickError::NotFound);
            },
        };
        proof {
            let c = idx_of(self.players@, id);
            assert(0 <= c < self.players@.len() && self.players@[c].id == id);
            assert(c == i as int);
        }
        let target = self.players[i].position;
        let w = Vec2 {
            x: target.x - self.ball.position.x,
            y: target.y - self.ball.position.y,
        };
        Ok(cos_above(self.ball.velocity, w, threshold_milli))
    }
}

/// Every element of a filtered roster is an element of the roster.
pub proof fn lemma_filtered_element_from(
    s: Seq<MatchPlayer>,
    pred: spec_fn(MatchPlayer) -> bool,
    i: int,
)
    requires
        0 <= i < s.filter(pred).len(),
    ensures
        exists|j: int| 0 <= j < s.len() && s[j] == s.filter(pred)[i],
    decreases s.len(),
{
    reveal(Seq::filter);
    if s.len() > 0 {
        let rest = s.drop_last();
        if pred(s.last()) && i == s.filter(pred).len() - 1 {
            assert(s[s.len() - 1] == s.filter(pred)[i]);
        } else {
            lemma_filtered_element_from(rest, pred, i);
            let j = choose|j: int| 0 <= j < rest.len() && rest[j] == rest.filter(pred)[i];
            assert(s[j] == s.filter(pred)[i]);
        }
    }
}

/// One step of building a filtered, projected prefix: extending the prefix
/// by element `j` extends the filtered image exactly when the predicate
/// holds of that element.
proof fn lemma_take_filter_map_step(
    s: Seq<MatchPlayer>,
    pred: spec_fn(MatchPlayer) -> bool,
    j: int,
    v: Seq<MatchPlayerLite>,
)
    requires
        0 <= j < s.len(),
        v == s.take(j).filter(pred).map_values(|p: MatchPlayer| lite_of(p)),
    ensures
        s.take(j + 1).filter(pred).map_values(|p: MatchPlayer| lite_of(p)) == if pred(s[j]) {
            v.push(lite_of(s[j]))
        } else {
            v
        },
{
    let prefix = s.take(j);
    let extended = s.take(j + 1);
    assert(extended =~= prefix.push(s[j]));
    reveal(Seq::filter);
    assert(extended.drop_last() =~= prefix);
    assert(extended.last() == s[j]);
    if pred(s[j]) {
        assert(extended.filter(pred) == prefix.filter(pred).push(s[j]));
        assert(extended.filter(pred).map_values(|p: MatchPlayer| lite_of(p)) =~= v.push(
            lite_of(s[j]),
        ));
    } else {
        assert(extended.filter(pred) == prefix.filter(pred));
    }
}

/// Distances in a well-formed snapshot are symmetric: `distance(a, b)`
/// equals `distance(b, a)` for every agent pair in the cache.
pub proof fn lemma_context_distance_symmetric(ctx: TickContext, i: int, j: int)
    requires
        ctx.wf(),
        0 <= i < ctx.players@.len(),
        0 <= j < ctx.players@.len(),
    ensures
        ctx.distances@[i]@[j] == ctx.distances@[j]@[i],
{
    lemma_distance_symmetric(ctx.players@[i].position, ctx.players@[j].position);
}

/// Rebuilding a tick context from the same match state gives identical
/// query results: the snapshot determines every field, so two builds from
/// one state are equal.
pub proof fn lemma_rebuild_identical(state: MatchState, c1: TickContext, c2: TickContext)
    requires
        c1.wf(),
        c2.wf(),
        c1.snapshot_of(state),
        c2.snapshot_of(state),
    ensures
        c1.players@ == c2.players@,
        c1.ball == c2.ball,
        c1.field_size == c2.field_size,
        c1.goal_positions == c2.goal_positions,
        c1.time == c2.time,
        c1.distances@.len() == c2.distances@.len(),
        forall|i: int|
            0 <= i < c1.distances@.len() ==> (#[trigger] c1.distances@[i])@ == c2.distances@[i]@,
{
    assert forall|i: int|
        0 <= i < c1.distances@.len() implies (#[trigger] c1.distances@[i])@ == c2.distances@[i]@ by {
        assert(c1.distances@[i]@ =~= c2.distances@[i]@);
    }
}

} // verus!
