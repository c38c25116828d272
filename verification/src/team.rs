//! Teams, squad selection and the per-team simulation result.

use vstd::prelude::*;

use crate::player::PlayerPositionType;

verus! {

/// The currency of a money value.
#[derive(Clone, Copy, Debug, PartialEq, Eq, Structural)]
pub enum Currency {
    Usd,
}

/// A money value in whole currency units.
#[derive(Clone, Copy, Debug, PartialEq, Eq, Structural)]
pub struct CurrencyValue {
    pub amount: u64,
    pub currency: Currency,
}

/// A club player as the selection pipeline sees it: identity, playable
/// positions, and current condition.
#[derive(Clone, Debug)]
pub struct ClubPlayer {
    pub id: u32,
    pub positions: Vec<PlayerPositionType>,
    pub condition: u32,
}

/// The players of one club.
#[derive(Clone, Debug)]
pub struct PlayerCollection {
    pub players: Vec<ClubPlayer>,
}

/// The tactical formation: one entry per position to fill.
#[derive(Clone, Debug)]
pub struct Tactics {
    pub positions: Vec<PlayerPositionType>,
}

impl Tactics {
    /// The positions of the formation.
    pub fn positions(&self) -> (p: &Vec<PlayerPositionType>)
        ensures
            p@ == self.positions@,
    {
        &self.positions
    }
}

/// A player put on the team sheet for a position.
#[derive(Clone, Copy, Debug, PartialEq, Eq, Structural)]
pub struct SquadPlayer {
    pub player_id: u32,
    pub position: PlayerPositionType,
}

/// A staff member's personal ties.
#[derive(Clone, Debug)]
pub struct StaffRelations {
    pub favorite_players: Vec<u32>,
}

impl StaffRelations {
    /// Whether `player_id` is one of the staff member's favourites.
    pub fn is_favorite_player(&self, player_id: u32) -> (r: bool)
        ensures
            r == self.favorite_players@.contains(player_id),
    {
        let mut i: usize = 0;
        while i < self.favorite_players.len()
            invariant
                i <= self.favorite_players@.len(),
                forall|j: int| 0 <= j < i ==> self.favorite_players@[j] != player_id,
            decreases self.favorite_players@.len() - i,
        {
            if self.favorite_players[i] == player_id {
                proof {
                    assert(self.favorite_players@[i as int] == player_id);
                }
                return true;
            }
            i += 1;
        }
        return false;
    }
}

/// A staff member (the slice of it selection reads).
#[derive(Clone, Debug)]
pub struct Staff {
    pub relations: StaffRelations,
}

/// An entry of a club's transfer list.
#[derive(Clone, Copy, Debug, PartialEq, Eq, Structural)]
pub struct TransferListItem {
    pub player_id: u32,
    pub value: CurrencyValue,
}

/// One club team.
#[derive(Clone, Debug)]
pub struct Team {
    pub id: u32,
    pub players: PlayerCollection,
    pub tactics: Option<Tactics>,
    pub transfer_list: Vec<TransferListItem>,
}

impl Team {
    /// Put a player on the transfer list at a value.
    pub fn add_player_to_transfer_list(&mut self, player_id: u32, value: CurrencyValue)
        ensures
            final(self).transfer_list@ == old(self).transfer_list@.push(
                TransferListItem { player_id, value },
            ),
            final(self).id == old(self).id,
            final(self).players == old(self).players,
            final(self).tactics == old(self).tactics,
    {
        self.transfer_list.push(TransferListItem { player_id, value });
    }
}

/// `p` can play `position`.
pub open spec fn plays_position(p: ClubPlayer, position: PlayerPositionType) -> bool {
    p.positions@.contains(position)
}

/// The team-sheet candidates for a position, paired with their current
/// condition, in roster order.
pub open spec fn candidate_pairs(team: Team, position: PlayerPositionType) -> Seq<
    (u32, SquadPlayer),
> {
    team.players.players@.filter(|p: ClubPlayer| plays_position(p, position)).map_values(
        |p: ClubPlayer| (p.condition, SquadPlayer { player_id: p.id, position }),
    )
}

/// Insert a conditioned candidate into a condition-sorted sheet: it goes
/// in front of every strictly fitter candidate and behind candidates of
/// its own condition or less, keeping the sort stable.
pub open spec fn insort_by_condition(s: Seq<(u32, SquadPlayer)>, x: (u32, SquadPlayer)) -> Seq<
    (u32, SquadPlayer),
>
    decreases s.len(),
{
    if s.len() == 0 {
        seq![x]
    } else if x.0 < s.last().0 {
        insort_by_condition(s.drop_last(), x).push(s.last())
    } else {
        s.push(x)
    }
}

/// The candidates sorted by condition, ascending and stable.
pub open spec fn sort_by_condition(s: Seq<(u32, SquadPlayer)>) -> Seq<(u32, SquadPlayer)>
    decreases s.len(),
{
    if s.len() == 0 {
        Seq::empty()
    } else {
        insort_by_condition(sort_by_condition(s.drop_last()), s.last())
    }
}

/// The players of `team` able to play `position`, ordered by current
/// condition (the least-rested first, stable over the roster order), as
/// team-sheet entries for that position.
pub open spec fn candidates_for(team: Team, position: PlayerPositionType) -> Seq<SquadPlayer> {
    sort_by_condition(candidate_pairs(team, position)).map_values(
        |pr: (u32, SquadPlayer)| pr.1,
    )
}

/// The whole team sheet: the candidates of every formation position, in
/// formation order.
pub open spec fn squad_for(team: Team, positions: Seq<PlayerPositionType>, n: int) -> Seq<
    SquadPlayer,
>
    decreases n,
{
    if n <= 0 {
        Seq::empty()
    } else {
        squad_for(team, positions, n - 1) + candidates_for(team, positions[n - 1])
    }
}

/// The outcome of a squad selection: the main squad and the bench.
#[derive(Clone, Debug)]
pub struct PlayerSelectionResult {
    pub main_squad: Vec<SquadPlayer>,
    pub substitutes: Vec<SquadPlayer>,
}

/// Picks the squad for a match from the team's formation.
pub struct PlayerSelector;

impl PlayerSelector {
    /// Fill the team sheet: for every position of the current formation,
    /// the players able to play it, in roster order.  The bench is left
    /// to the match-day staff.
    pub fn select(team: &Team, staff: &Staff) -> (r: PlayerSelectionResult)
        requires
            team.tactics is Some,
        ensures
            r.main_squad@ == squad_for(
                *team,
                team.tactics->0.positions@,
                team.tactics->0.positions@.len() as int,
            ),
            r.substitutes@.len() == 0,
    {
        let _ = staff;
        let tactics = match &team.tactics {
            Some(t) => t,
            None => {
                return PlayerSelectionResult { main_squad: Vec::new(), substitutes: Vec::new() };
            },
        };
        let mut main_squad: Vec<SquadPlayer> = Vec::new();
        let positions = tactics.positions();
        let mut i: usize = 0;
        while i < positions.len()
            invariant
                i <= positions@.len(),
                positions@ == team.tactics->0.positions@,
                main_squad@ == squad_for(*team, positions@, i as int),
            decreases positions@.len() - i,
        {
            let position_players = Self::select_by_type(team, &positions[i]);
            let mut k: usize = 0;
            while k < position_players.len()
                invariant
                    k <= position_players@.len(),
                    position_players@ == candidates_for(*team, positions@[i as int]),
                    i < positions@.len(),
                    positions@ == team.tactics->0.positions@,
                    main_squad@ == squad_for(*team, positions@, i as int) + position_players@.take(
                        k as int,
                    ),
                decreases position_players@.len() - k,
            {
                main_squad.push(position_players[k]);
                proof {
                    assert(position_players@.take(k + 1) =~= position_players@.take(
                        k as int,
                    ).push(position_players@[k as int]));
                    assert(main_squad@ =~= squad_for(*team, positions@, i as int)
                        + position_players@.take(k + 1));
                }
                k += 1;
            }
            proof {
                assert(position_players@.take(position_players@.len() as int)
                    =~= position_players@);
            }
            i += 1;
        }
        let substitutes: Vec<SquadPlayer> = Vec::new();
        PlayerSelectionResult { main_squad, substitutes }
    }

    /// The players able to play `position`, ordered by condition, as
    /// team-sheet entries.
    fn select_by_type(team: &Team, position: &PlayerPositionType) -> (r: Vec<SquadPlayer>)
        ensures
            r@ == candidates_for(*team, *position),
    {
        let ghost pred = |p: ClubPlayer| plays_position(p, *position);
        let ghost pair_of = |p: ClubPlayer| (p.condition, SquadPlayer {
            player_id: p.id,
            position: *position,
        });
        let mut players_on_position: Vec<(u32, SquadPlayer)> = Vec::new();
        let mut i: usize = 0;
        while i < team.players.players.len()
            invariant
                i <= team.players.players@.len(),
                pred == (|p: ClubPlayer| plays_position(p, *position)),
                pair_of == (|p: ClubPlayer| (p.condition, SquadPlayer {
                    player_id: p.id,
                    position: *position,
                })),
                players_on_position@ == team.players.players@.take(i as int).filter(
                    pred,
                ).map_values(pair_of),
            decreases team.players.players@.len() - i,
        {
            let p = &team.players.players[i];
            let mut on_position = false;
            let mut j: usize = 0;
            while j < p.positions.len()
                invariant
                    j <= p.positions@.len(),
                    p == team.players.players@[i as int],
                    i < team.players.players@.len(),
                    on_position == exists|l: int|
                        0 <= l < j && p.positions@[l] == *position,
                decreases p.positions@.len() - j,
            {
                if position_tags_equal(&p.positions[j], position) {
                    proof {
                        assert(p.positions@[j as int] == *position);
                    }
                    on_position = true;
                }
                j += 1;
            }
            proof {
                assert(on_position == pred(*p)) by {
                    if on_position {
                        let l = choose|l: int| 0 <= l < p.positions@.len() && p.positions@[l]
                            == *position;
                        assert(p.positions@.contains(*position));
                    }
                    if pred(*p) {
                        let l = choose|l: int|
                            0 <= l < p.positions@.len() && p.positions@[l] == *position;
                        assert(0 <= l < p.positions@.len() && p.positions@[l] == *position);
                    }
                }
                lemma_take_filter_map_pairs(
                    team.players.players@,
                    pred,
                    pair_of,
                    i as int,
                    players_on_position@,
                );
            }
            if on_position {
                players_on_position.push(
                    (p.condition, SquadPlayer { player_id: p.id, position: *position }),
                );
            }
            i += 1;
        }
        proof {
            assert(team.players.players@.take(team.players.players@.len() as int)
                =~= team.players.players@);
        }
        let mut sorted: Vec<(u32, SquadPlayer)> = Vec::new();
        let mut i: usize = 0;
        while i < players_on_position.len()
            invariant
                i <= players_on_position@.len(),
                sorted@ == sort_by_condition(players_on_position@.take(i as int)),
            decreases players_on_position@.len() - i,
        {
            let x = players_on_position[i];
            let mut k: usize = sorted.len();
            while k > 0 && x.0 < sorted[k - 1].0
                invariant
                    k <= sorted@.len(),
                    forall|l: int| k <= l < sorted@.len() ==> x.0 < (#[trigger] sorted@[l]).0,
                decreases k,
            {
                k -= 1;
            }
            proof {
                lemma_insort_insertion_point(sorted@, x, k as int);
                assert(players_on_position@.take(i + 1) =~= players_on_position@.take(
                    i as int,
                ).push(players_on_position@[i as int]));
                assert(players_on_position@.take(i + 1).drop_last() =~= players_on_position@.take(
                    i as int,
                ));
            }
            sorted.insert(k, x);
            proof {
                assert(sorted@ =~= sort_by_condition(players_on_position@.take(i + 1)));
            }
            i += 1;
        }
        proof {
            assert(players_on_position@.take(players_on_position@.len() as int)
                =~= players_on_position@);
        }
        let mut result: Vec<SquadPlayer> = Vec::new();
        let mut i: usize = 0;
        while i < sorted.len()
            invariant
                i <= sorted@.len(),
                result@ =~= sorted@.take(i as int).map_values(
                    |pr: (u32, SquadPlayer)| pr.1,
                ),
            decreases sorted@.len() - i,
        {
            result.push(sorted[i].1);
            proof {
                assert(sorted@.take(i + 1) =~= sorted@.take(i as int).push(
                    sorted@[i as int],
                ));
                assert(result@ =~= sorted@.take(i + 1).map_values(
                    |pr: (u32, SquadPlayer)| pr.1,
                ));
            }
            i += 1;
        }
        proof {
            assert(sorted@.take(sorted@.len() as int) =~= sorted@);
            assert(result@ =~= candidates_for(*team, *position));
        }
        result
    }
}

/// Inserting at the scan's stopping point is exactly the sorted insert:
/// every element at or beyond `k` is strictly fitter than `x`, and the
/// element before `k` (if any) is not.
proof fn lemma_insort_insertion_point(s: Seq<(u32, SquadPlayer)>, x: (u32, SquadPlayer), k: int)
    requires
        0 <= k <= s.len(),
        forall|l: int| k <= l < s.len() ==> x.0 < (#[trigger] s[l]).0,
        k > 0 ==> !(x.0 < s[k - 1].0),
    ensures
        insort_by_condition(s, x) == s.take(k) + seq![x] + s.skip(k),
    decreases s.len(),
{
    if s.len() == 0 {
        assert(insort_by_condition(s, x) =~= s.take(k) + seq![x] + s.skip(k));
    } else if x.0 < s.last().0 {
        assert(k < s.len());
        lemma_insort_insertion_point(s.drop_last(), x, k);
        assert(s.drop_last().take(k) =~= s.take(k));
        assert(insort_by_condition(s, x) =~= s.take(k) + seq![x] + s.skip(k)) by {
            assert(insort_by_condition(s.drop_last(), x) == s.drop_last().take(k) + seq![x]
                + s.drop_last().skip(k));
        }
    } else {
        assert(k == s.len());
        assert(insort_by_condition(s, x) =~= s.take(k) + seq![x] + s.skip(k));
    }
}

/// One step of building the filtered, conditioned candidate list.
proof fn lemma_take_filter_map_pairs(
    s: Seq<ClubPlayer>,
    pred: spec_fn(ClubPlayer) -> bool,
    pair_of: spec_fn(ClubPlayer) -> (u32, SquadPlayer),
    i: int,
    v: Seq<(u32, SquadPlayer)>,
)
    requires
        0 <= i < s.len(),
        v == s.take(i).filter(pred).map_values(pair_of),
    ensures
        s.take(i + 1).filter(pred).map_values(pair_of) == if pred(s[i]) {
            v.push(pair_of(s[i]))
        } else {
            v
        },
{
    let prefix = s.take(i);
    let extended = s.take(i + 1);
    assert(extended =~= prefix.push(s[i]));
    reveal(Seq::filter);
    assert(extended.drop_last() =~= prefix);
    assert(extended.last() == s[i]);
    if pred(s[i]) {
        assert(extended.filter(pred) == prefix.filter(pred).push(s[i]));
        assert(extended.filter(pred).map_values(pair_of) =~= v.push(pair_of(s[i])));
    } else {
        assert(extended.filter(pred) == prefix.filter(pred));
    }
}

/// Two position tags are the same position.
fn position_tags_equal(a: &PlayerPositionType, b: &PlayerPositionType) -> (r: bool)
    ensures
        r == (a == b),
{
    a == b
}

/// The empty reports of the collaborators of a team simulation step.
#[derive(Clone, Copy, Debug, PartialEq, Eq, Structural, Default)]
pub struct StaffCollectionResult {}

#[derive(Clone, Copy, Debug, PartialEq, Eq, Structural, Default)]
pub struct TeamBehaviourResult {}

#[derive(Clone, Copy, Debug, PartialEq, Eq, Structural, Default)]
pub struct TeamTrainingResult {}

/// The report of one player-collection simulation step: the players put
/// up for transfer.
#[derive(Clone, Debug, Default)]
pub struct PlayerCollectionResult {
    pub players: Vec<PlayerResultItem>,
}

/// One player singled out by a collection step.
#[derive(Clone, Copy, Debug, PartialEq, Eq, Structural)]
pub struct PlayerResultItem {
    pub player_id: u32,
}

/// The world data a team result is folded into.
#[derive(Clone, Debug)]
pub struct SimulatorData {
    pub teams: Vec<Team>,
}

impl SimulatorData {
    /// The index of the team with identity `id`, if any.
    pub fn index_of_team(&self, id: u32) -> (r: Option<usize>)
        ensures
            match r {
                Some(i) => i < self.teams@.len() && self.teams@[i as int].id == id,
                None => forall|j: int| 0 <= j < self.teams@.len() ==> self.teams@[j].id != id,
            },
    {
        let mut i: usize = 0;
        while i < self.teams.len()
            invariant
                i <= self.teams@.len(),
                forall|j: int| 0 <= j < i ==> self.teams@[j].id != id,
            decreases self.teams@.len() - i,
        {
            if self.teams[i].id == id {
                return Some(i);
            }
            i += 1;
        }
        None
    }
}

/// The report of one team simulation step.
#[derive(Clone, Debug)]
pub struct TeamResult {
    pub team_id: u32,
    pub players: PlayerCollectionResult,
    pub staffs: StaffCollectionResult,
    pub behaviour: TeamBehaviourResult,
    pub training: TeamTrainingResult,
}

impl TeamResult {
    pub fn new(
        team_id: u32,
        players: PlayerCollectionResult,
        staffs: StaffCollectionResult,
        behaviour: TeamBehaviourResult,
        training: TeamTrainingResult,
    ) -> (r: TeamResult)
        ensures
            r.team_id == team_id,
            r.players == players,
            r.staffs == staffs,
            r.behaviour == behaviour,
            r.training == training,
    {
        TeamResult { team_id, players, staffs, behaviour, training }
    }

    /// Fold this report into the world: every singled-out player goes on
    /// the team's transfer list at the standard asking value.
    pub fn process(&self, data: &mut SimulatorData)
        requires
            exists|j: int|
                0 <= j < old(data).teams@.len() && (#[trigger] old(data).teams@[j]).id
                    == self.team_id,
        ensures
            final(data).teams@.len() == old(data).teams@.len(),
            exists|j: int|
                {
                    &&& 0 <= j < old(data).teams@.len()
                    &&& (#[trigger] old(data).teams@[j]).id == self.team_id
                    &&& final(data).teams@[j].id == self.team_id
                    &&& final(data).teams@[j].transfer_list@ == old(
                        data,
                    ).teams@[j].transfer_list@ + self.players.players@.map_values(
                        |p: PlayerResultItem| TransferListItem {
                            player_id: p.player_id,
                            value: CurrencyValue { amount: 100_000u64, currency: Currency::Usd },
                        },
                    )
                    &&& forall|k: int|
                        0 <= k < old(data).teams@.len() && k != j ==> final(data).teams@[k]
                            == old(data).teams@[k]
                },
    {
        let i = match data.index_of_team(self.team_id) {
            Some(i) => i,
            None => {
                return ;
            },
        };
        let mut team = copy_team(&data.teams[i]);
        let ghost list0 = team.transfer_list@;
        let mut k: usize = 0;
        while k < self.players.players.len()
            invariant
                k <= self.players.players@.len(),
                team.id == old(data).teams@[i as int].id,
                list0 == old(data).teams@[i as int].transfer_list@,
                team.transfer_list@ == list0 + self.players.players@.take(k as int).map_values(
                    |p: PlayerResultItem| TransferListItem {
                        player_id: p.player_id,
                        value: CurrencyValue { amount: 100_000u64, currency: Currency::Usd },
                    },
                ),
            decreases self.players.players@.len() - k,
        {
            let player_result = self.players.players[k];
            team.add_player_to_transfer_list(
                player_result.player_id,
                CurrencyValue { amount: 100_000, currency: Currency::Usd },
            );
            proof {
                assert(self.players.players@.take(k + 1) =~= self.players.players@.take(
                    k as int,
                ).push(self.players.players@[k as int]));
                assert(team.transfer_list@ =~= list0 + self.players.players@.take(
                    k + 1,
                ).map_values(
                    |p: PlayerResultItem| TransferListItem {
                        player_id: p.player_id,
                        value: CurrencyValue { amount: 100_000u64, currency: Currency::Usd },
                    },
                ));
            }
            k += 1;
        }
        proof {
            assert(self.players.players@.take(self.players.players@.len() as int)
                =~= self.players.players@);
        }
        data.teams.set(i, team);
    }
}

/// A value copy of a formation-position list.
fn copy_positions(v: &Vec<PlayerPositionType>) -> (out: Vec<PlayerPositionType>)
    ensures
        out@ == v@,
{
    let mut out: Vec<PlayerPositionType> = Vec::new();
    let mut i: usize = 0;
    while i < v.len()
        invariant
            i <= v@.len(),
            out@ =~= v@.take(i as int),
        decreases v@.len() - i,
    {
        out.push(v[i]);
        proof {
            assert(out@ =~= v@.take(i + 1));
        }
        i += 1;
    }
    proof {
        assert(out@ =~= v@);
    }
    out
}

/// A value copy of a transfer list.
fn copy_transfer_list(v: &Vec<TransferListItem>) -> (out: Vec<TransferListItem>)
    ensures
        out@ == v@,
{
    let mut out: Vec<TransferListItem> = Vec::new();
    let mut i: usize = 0;
    while i < v.len()
        invariant
            i <= v@.len(),
            out@ =~= v@.take(i as int),
        decreases v@.len() - i,
    {
        out.push(v[i]);
        proof {
            assert(out@ =~= v@.take(i + 1));
        }
        i += 1;
    }
    proof {
        assert(out@ =~= v@);
    }
    out
}

/// A value copy of a team, pinning identity and transfer list.
fn copy_team(t: &Team) -> (r: Team)
    ensures
        r.id == t.id,
        r.transfer_list@ == t.transfer_list@,
{
    let mut players: Vec<ClubPlayer> = Vec::new();
    let mut i: usize = 0;
    while i < t.players.players.len()
        decreases t.players.players@.len() - i,
    {
        let p = &t.players.players[i];
        players.push(
            ClubPlayer { id: p.id, positions: copy_positions(&p.positions), condition: p.condition },
        );
        i += 1;
    }
    let tactics = match &t.tactics {
        Some(tc) => Some(Tactics { positions: copy_positions(&tc.positions) }),
        None => None,
    };
    Team {
        id: t.id,
        players: PlayerCollection { players },
        tactics,
        transfer_list: copy_transfer_list(&t.transfer_list),
    }
}

} // verus!
