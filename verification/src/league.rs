//! Leagues: settings, schedule data and the simulation step.

use vstd::prelude::*;

use crate::calendar::{GlobalContext, SimDateTime, SimulationContext};

verus! {

/// A span of the calendar given by day and month endpoints.
#[derive(Clone, Copy, Debug, PartialEq, Eq, Structural)]
pub struct DayMonthPeriod {
    pub from_day: u8,
    pub from_month: u8,
    pub to_day: u8,
    pub to_month: u8,
}

impl DayMonthPeriod {
    pub fn new(from_day: u8, from_month: u8, to_day: u8, to_month: u8) -> (p: DayMonthPeriod)
        ensures
            p.from_day == from_day,
            p.from_month == from_month,
            p.to_day == to_day,
            p.to_month == to_month,
    {
        DayMonthPeriod { from_day, from_month, to_day, to_month }
    }
}

/// When a league's season starts and ends.
#[derive(Clone, Copy, Debug, PartialEq, Eq, Structural)]
pub struct LeagueSettings {
    pub season_starting_half: DayMonthPeriod,
    pub season_ending_half: DayMonthPeriod,
}

impl LeagueSettings {
    /// A new schedule is due exactly on the season's starting day.
    pub fn is_time_for_new_schedule(&self, context: &SimulationContext) -> (r: bool)
        ensures
            r == (context.date.date.day == self.season_starting_half.from_day
                && context.date.date.month == self.season_starting_half.from_month),
    {
        let date = context.date.date();
        date.day == self.season_starting_half.from_day && date.month
            == self.season_starting_half.from_month
    }
}

/// The recorded result of a scheduled match.
#[derive(Clone, Copy, Debug, PartialEq, Eq, Structural)]
pub struct ScheduleItemResult {
    pub home_goals: u8,
    pub away_goals: u8,
}

/// One fixture of a tour.
#[derive(Clone, Debug)]
pub struct ScheduleItem {
    pub date: SimDateTime,
    pub home_team_id: u32,
    pub away_team_id: u32,
    pub result: Option<ScheduleItemResult>,
}

/// One round of fixtures.
#[derive(Clone, Debug)]
pub struct ScheduleTour {
    pub played: bool,
    pub items: Vec<ScheduleItem>,
}

/// A league's full schedule.
#[derive(Clone, Debug)]
pub struct Schedule {
    pub tours: Vec<ScheduleTour>,
}

/// One standing of the league table.
#[derive(Clone, Copy, Debug, PartialEq, Eq, Structural)]
pub struct LeagueTableEntry {
    pub team_id: u32,
    pub played: u8,
    pub win: u8,
    pub draft: u8,
    pub lost: u8,
    pub goal_scored: u8,
    pub goal_concerned: u8,
    pub points: u8,
}

/// The league table.
#[derive(Clone, Debug)]
pub struct LeagueTable {
    pub rows: Vec<LeagueTableEntry>,
}

impl LeagueTable {
    /// The current standings.
    pub fn get(&self) -> (rows: &Vec<LeagueTableEntry>)
        ensures
            rows@ == self.rows@,
    {
        &self.rows
    }
}

/// One scheduled match reported by a league simulation step.
#[derive(Clone, Copy, Debug, PartialEq, Eq, Structural)]
pub struct LeagueMatch {
    pub home_team_id: u32,
    pub away_team_id: u32,
}

/// The report of one league simulation step.
#[derive(Clone, Debug)]
pub struct LeagueResult {
    pub league_id: u32,
    pub matches: Vec<LeagueMatch>,
}

impl LeagueResult {
    pub fn new(league_id: u32, matches: Vec<LeagueMatch>) -> (r: LeagueResult)
        ensures
            r.league_id == league_id,
            r.matches@ == matches@,
    {
        LeagueResult { league_id, matches }
    }
}

/// One league of a country.
#[derive(Clone, Debug)]
pub struct League {
    pub id: u32,
    pub name: String,
    pub country_id: u32,
    pub schedule: Option<Schedule>,
    pub table: Option<LeagueTable>,
    pub settings: LeagueSettings,
    pub reputation: u16,
}

impl League {
    /// A fresh league: no schedule, no table yet.
    pub fn new(id: u32, name: String, country_id: u32, reputation: u16, settings: LeagueSettings)
        -> (l: League)
        ensures
            l.id == id,
            l.name == name,
            l.country_id == country_id,
            l.schedule is None,
            l.table is None,
            l.settings == settings,
            l.reputation == reputation,
    {
        League { id, name, country_id, schedule: None, table: None, settings, reputation }
    }

    /// One league simulation step: the matches scheduled for the step's
    /// date.  Schedule generation itself is an external collaborator of
    /// the engine; this step reports the due fixtures of the first
    /// unplayed tour.
    pub fn simulate(&mut self, ctx: GlobalContext) -> (r: LeagueResult)
        ensures
            r.league_id == old(self).id,
            *final(self) == *old(self),
            r.matches@ == scheduled_today(*old(self), ctx.simulation.date),
    {
        let mut matches: Vec<LeagueMatch> = Vec::new();
        let league_id = self.id;
        match &self.schedule {
            Some(schedule) => {
                let ghost tours = schedule.tours@;
                let ghost date = ctx.simulation.date;
                let mut t: usize = 0;
                let mut found = false;
                while t < schedule.tours.len() && !found
                    invariant
                        t <= tours.len(),
                        tours == schedule.tours@,
                        self.schedule == Some(*schedule),
                        date == ctx.simulation.date,
                        forall|j: int| 0 <= j < t ==> (#[trigger] tours[j]).played,
                        !found ==> matches@ =~= Seq::<LeagueMatch>::empty(),
                        found ==> t < tours.len() && !tours[t as int].played && matches@
                            == due_in_tour(tours[t as int], date) && first_unplayed(tours, 0)
                            == Some(t as int),
                    decreases tours.len() - t + (if found { 0int } else { 1int }),
                {
                    if !schedule.tours[t].played {
                        let tour = &schedule.tours[t];
                        let ghost pred = |it: ScheduleItem| it.date.date == date.date;
                        let mut k: usize = 0;
                        while k < tour.items.len()
                            invariant
                                k <= tour.items@.len(),
                                *tour == tours[t as int],
                                t < tours.len(),
                                date == ctx.simulation.date,
                                pred == (|it: ScheduleItem| it.date.date == date.date),
                                matches@ == tour.items@.take(k as int).filter(pred).map_values(
                                    |it: ScheduleItem| LeagueMatch {
                                        home_team_id: it.home_team_id,
                                        away_team_id: it.away_team_id,
                                    },
                                ),
                            decreases tour.items@.len() - k,
                        {
                            let item = &tour.items[k];
                            proof {
                                lemma_take_filter_map_fixture(tour.items@, pred, k as int, matches@);
                            }
                            if same_day(&item.date, &ctx.simulation.date) {
                                matches.push(
                                    LeagueMatch {
                                        home_team_id: item.home_team_id,
                                        away_team_id: item.away_team_id,
                                    },
                                );
                            }
                            k += 1;
                        }
                        proof {
                            assert(tour.items@.take(tour.items@.len() as int) =~= tour.items@);
                            lemma_first_unplayed_prefix(tours, t as int);
                        }
                        found = true;
                    } else {
                        t += 1;
                    }
                }
                proof {
                    if !found {
                        assert(first_unplayed(tours, 0) is None) by {
                            lemma_first_unplayed_exhausted(tours, 0);
                        }
                    }
                }
            },
            None => {},
        }
        LeagueResult::new(league_id, matches)
    }
}

/// A prefix of all-played tours puts the first unplayed tour at `t`.
pub proof fn lemma_first_unplayed_prefix(tours: Seq<ScheduleTour>, t: int)
    requires
        0 <= t < tours.len(),
        forall|j: int| 0 <= j < t ==> (#[trigger] tours[j]).played,
        !tours[t].played,
    ensures
        first_unplayed(tours, 0) == Some(t),
{
    lemma_first_unplayed_from(tours, 0, t);
}

/// Helper induction for [`lemma_first_unplayed_at`].
proof fn lemma_first_unplayed_from(tours: Seq<ScheduleTour>, i: int, t: int)
    requires
        0 <= i <= t < tours.len(),
        forall|j: int| i <= j < t ==> (#[trigger] tours[j]).played,
        !tours[t].played,
    ensures
        first_unplayed(tours, i) == Some(t),
    decreases t - i,
{
    if i < t {
        lemma_first_unplayed_from(tours, i + 1, t);
    }
}

/// With every tour played there is no unplayed tour.
pub proof fn lemma_first_unplayed_exhausted(tours: Seq<ScheduleTour>, i: int)
    requires
        0 <= i,
        forall|j: int| i <= j < tours.len() ==> (#[trigger] tours[j]).played,
    ensures
        first_unplayed(tours, i) is None,
    decreases tours.len() - i,
{
    if i < tours.len() {
        lemma_first_unplayed_exhausted(tours, i + 1);
    }
}

/// One step of building the filtered fixture list of a tour.
proof fn lemma_take_filter_map_fixture(
    items: Seq<ScheduleItem>,
    pred: spec_fn(ScheduleItem) -> bool,
    k: int,
    v: Seq<LeagueMatch>,
)
    requires
        0 <= k < items.len(),
        v == items.take(k).filter(pred).map_values(
            |it: ScheduleItem| LeagueMatch {
                home_team_id: it.home_team_id,
                away_team_id: it.away_team_id,
            },
        ),
    ensures
        items.take(k + 1).filter(pred).map_values(
            |it: ScheduleItem| LeagueMatch {
                home_team_id: it.home_team_id,
                away_team_id: it.away_team_id,
            },
        ) == if pred(items[k]) {
            v.push(
                LeagueMatch {
                    home_team_id: items[k].home_team_id,
                    away_team_id: items[k].away_team_id,
                },
            )
        } else {
            v
        },
{
    let conv = |it: ScheduleItem| LeagueMatch {
        home_team_id: it.home_team_id,
        away_team_id: it.away_team_id,
    };
    let prefix = items.take(k);
    let extended = items.take(k + 1);
    assert(extended =~= prefix.push(items[k]));
    reveal(Seq::filter);
    assert(extended.drop_last() =~= prefix);
    assert(extended.last() == items[k]);
    if pred(items[k]) {
        assert(extended.filter(pred) == prefix.filter(pred).push(items[k]));
        assert(extended.filter(pred).map_values(conv) =~= v.push(conv(items[k])));
    } else {
        assert(extended.filter(pred) == prefix.filter(pred));
    }
}

/// The two timestamps name the same calendar day.
fn same_day(a: &SimDateTime, b: &SimDateTime) -> (r: bool)
    ensures
        r == (a.date == b.date),
{
    a.date.year == b.date.year && a.date.month == b.date.month && a.date.day == b.date.day
}

/// The fixtures of `tour` falling due on `date`, as scheduled matches.
pub open spec fn due_in_tour(tour: ScheduleTour, date: SimDateTime) -> Seq<LeagueMatch> {
    tour.items@.filter(|it: ScheduleItem| it.date.date == date.date).map_values(
        |it: ScheduleItem| LeagueMatch {
            home_team_id: it.home_team_id,
            away_team_id: it.away_team_id,
        },
    )
}

/// The matches a league step reports for `date`: the due fixtures of the
/// first unplayed tour, or none without a schedule or unplayed tour.
pub open spec fn scheduled_today(league: League, date: SimDateTime) -> Seq<LeagueMatch>
{
    match league.schedule {
        Some(schedule) => match first_unplayed(schedule.tours@, 0) {
            Some(t) => due_in_tour(schedule.tours@[t], date),
            None => Seq::empty(),
        },
        None => Seq::empty(),
    }
}

/// The index of the first unplayed tour at or after `i`.
pub open spec fn first_unplayed(tours: Seq<ScheduleTour>, i: int) -> Option<int>
    decreases tours.len() - i,
{
    if i < 0 || i >= tours.len() {
        None
    } else if !tours[i].played {
        Some(i)
    } else {
        first_unplayed(tours, i + 1)
    }
}

} // verus!
