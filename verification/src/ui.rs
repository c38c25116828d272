//! Presentation view models and the pure builders that fill them.
//!
//! The web layer is an external collaborator: it parses requests and
//! renders templates.  What it shows is computed here, as pure functions
//! from world data to view models, so the mapping itself is verified.

use vstd::prelude::*;

use crate::calendar::SimDateTime;
use crate::generators::Country;
use crate::league::{first_unplayed, League, LeagueTableEntry, ScheduleItem};

verus! {

/// A request for one match's stored data.
#[derive(Clone, Debug)]
pub struct MatchDataRequest {
    pub league_slug: String,
    pub match_id: String,
}

/// A request for one country page.
#[derive(Clone, Copy, Debug, PartialEq, Eq, Structural)]
pub struct CountryGetRequest {
    pub country_id: u32,
}

/// A league as listed on a country page.
#[derive(Clone, Debug)]
pub struct LeagueDto {
    pub id: u32,
    pub name: String,
}

/// The country page.
#[derive(Clone, Debug)]
pub struct CountryGetViewModel {
    pub id: u32,
    pub name: String,
    pub code: String,
    pub continent_name: String,
    pub leagues: Vec<LeagueDto>,
}

/// A request for one league page.
#[derive(Clone, Copy, Debug, PartialEq, Eq, Structural)]
pub struct LeagueGetRequest {
    pub league_id: u32,
}

/// The result shown for a played fixture.
#[derive(Clone, Copy, Debug, PartialEq, Eq, Structural)]
pub struct LeagueScheduleItemResult {
    pub home_goals: u8,
    pub away_goals: u8,
}

/// One fixture line of the league page.
#[derive(Clone, Debug)]
pub struct LeagueScheduleItem {
    pub date: SimDateTime,
    pub home_team_id: u32,
    pub home_team_name: String,
    pub away_team_id: u32,
    pub away_team_name: String,
    pub result: Option<LeagueScheduleItemResult>,
}

/// The fixture list of the league page.
#[derive(Clone, Debug)]
pub struct LeagueSchedule {
    pub items: Vec<LeagueScheduleItem>,
}

/// One standing line of the league page.
#[derive(Clone, Debug)]
pub struct LeagueTableRow {
    pub team_id: u32,
    pub team_name: String,
    pub played: u8,
    pub win: u8,
    pub draft: u8,
    pub lost: u8,
    pub goal_scored: u8,
    pub goal_concerned: u8,
    pub points: u8,
}

/// The table of the league page.
#[derive(Clone, Debug)]
pub struct LeagueTableDto {
    pub rows: Vec<LeagueTableRow>,
}

/// The league page.
#[derive(Clone, Debug)]
pub struct LeagueGetViewModel {
    pub id: u32,
    pub name: String,
    pub country_id: u32,
    pub country_name: String,
    pub table: LeagueTableDto,
    pub week_schedule: LeagueSchedule,
}

/// A directory resolving team identities to display names.
#[derive(Clone, Debug)]
pub struct TeamNameIndex {
    pub entries: Vec<(u32, String)>,
}

impl TeamNameIndex {
    /// The display name filed under `team_id`, if any.
    pub fn team_name(&self, team_id: u32) -> (r: Option<&String>)
        ensures
            match r {
                Some(name) => exists|i: int|
                    0 <= i < self.entries@.len() && (#[trigger] self.entries@[i]).0 == team_id
                        && self.entries@[i].1 == name,
                None => forall|i: int|
                    0 <= i < self.entries@.len() ==> (#[trigger] self.entries@[i]).0 != team_id,
            },
    {
        let mut i: usize = 0;
        while i < self.entries.len()
            invariant
                i <= self.entries@.len(),
                forall|j: int| 0 <= j < i ==> (#[trigger] self.entries@[j]).0 != team_id,
            decreases self.entries@.len() - i,
    {
            if self.entries[i].0 == team_id {
                proof {
                    assert(self.entries@[i as int].0 == team_id);
                }
                return Some(&self.entries[i].1);
            }
            i += 1;
        }
        None
    }
}

/// Fill the country page from a country and its continent's name: the
/// identity, name and code are copied, and the leagues are listed in
/// order.
pub fn build_country_view(country: &Country, continent_name: &str) -> (vm: CountryGetViewModel)
    ensures
        vm.id == country.id,
        vm.name@ == country.name@,
        vm.code@ == country.code@,
        vm.continent_name@ == continent_name@,
        vm.leagues@.len() == country.leagues@.len(),
        forall|i: int|
            0 <= i < country.leagues@.len() ==> (#[trigger] vm.leagues@[i]).id
                == country.leagues@[i].id && vm.leagues@[i].name@ == country.leagues@[i].name@,
{
    let mut leagues: Vec<LeagueDto> = Vec::new();
    let mut i: usize = 0;
    while i < country.leagues.len()
        invariant
            i <= country.leagues@.len(),
            leagues@.len() == i,
            forall|j: int|
                0 <= j < i ==> (#[trigger] leagues@[j]).id == country.leagues@[j].id
                    && leagues@[j].name@ == country.leagues@[j].name@,
        decreases country.leagues@.len() - i,
    {
        let l = &country.leagues[i];
        leagues.push(LeagueDto { id: l.id, name: l.name.as_str().to_owned() });
        i += 1;
    }
    CountryGetViewModel {
        id: country.id,
        name: country.name.as_str().to_owned(),
        code: country.code.as_str().to_owned(),
        continent_name: continent_name.to_owned(),
        leagues,
    }
}

/// Every team named by the table rows and fixtures is in the directory.
pub open spec fn names_cover_league(league: League, names: TeamNameIndex) -> bool {
    &&& league.table matches Some(table) ==> forall|i: int|
        0 <= i < table.rows@.len() ==> index_has(names, (#[trigger] table.rows@[i]).team_id)
    &&& league.schedule matches Some(schedule) ==> forall|t: int, k: int|
        0 <= t < schedule.tours@.len() && 0 <= k < schedule.tours@[t].items@.len() ==> index_has(
            names,
            (#[trigger] schedule.tours@[t].items@[k]).home_team_id,
        ) && index_has(names, schedule.tours@[t].items@[k].away_team_id)
}

/// The directory has a name for `team_id`.
pub open spec fn index_has(names: TeamNameIndex, team_id: u32) -> bool {
    exists|i: int| 0 <= i < names.entries@.len() && (#[trigger] names.entries@[i]).0 == team_id
}

/// Fill the league page: identity and country data, the table rows with
/// names resolved in order, and the fixtures of the first unplayed tour.
pub fn build_league_view(
    league: &League,
    country_id: u32,
    country_name: &str,
    names: &TeamNameIndex,
) -> (vm: LeagueGetViewModel)
    requires
        league.table is Some,
        names_cover_league(*league, *names),
    ensures
        vm.id == league.id,
        vm.name@ == league.name@,
        vm.country_id == country_id,
        vm.country_name@ == country_name@,
        vm.table.rows@.len() == league.table->0.rows@.len(),
        forall|i: int|
            0 <= i < vm.table.rows@.len() ==> row_matches(
                #[trigger] vm.table.rows@[i],
                league.table->0.rows@[i],
            ),
        shown_schedule_matches(*league, vm.week_schedule.items@),
{
    let table_rows = match &league.table {
        Some(t) => &t.rows,
        None => {
            return LeagueGetViewModel {
                id: league.id,
                name: league.name.as_str().to_owned(),
                country_id,
                country_name: country_name.to_owned(),
                table: LeagueTableDto { rows: Vec::new() },
                week_schedule: LeagueSchedule { items: Vec::new() },
            };
        },
    };
    let mut rows: Vec<LeagueTableRow> = Vec::new();
    let mut i: usize = 0;
    while i < table_rows.len()
        invariant
            i <= table_rows@.len(),
            table_rows@ == league.table->0.rows@,
            names_cover_league(*league, *names),
            rows@.len() == i,
            forall|j: int|
                0 <= j < i ==> row_matches(#[trigger] rows@[j], table_rows@[j]),
        decreases table_rows@.len() - i,
    {
        let entry = &table_rows[i];
        let team_name = match names.team_name(entry.team_id) {
            Some(name) => name.as_str().to_owned(),
            None => String::new(),
        };
        rows.push(
            LeagueTableRow {
                team_id: entry.team_id,
                team_name,
                played: entry.played,
                win: entry.win,
                draft: entry.draft,
                lost: entry.lost,
                goal_scored: entry.goal_scored,
                goal_concerned: entry.goal_concerned,
                points: entry.points,
            },
        );
        i += 1;
    }
    let mut items: Vec<LeagueScheduleItem> = Vec::new();
    match &league.schedule {
        Some(schedule) => {
            let ghost tours = schedule.tours@;
            let mut t: usize = 0;
            let mut found = false;
            while t < schedule.tours.len() && !found
                invariant
                    t <= tours.len(),
                    tours == schedule.tours@,
                    league.schedule == Some(*schedule),
                    forall|j: int| 0 <= j < t ==> (#[trigger] tours[j]).played,
                    !found ==> items@.len() == 0,
                    found ==> t < tours.len() && first_unplayed(tours, 0) == Some(t as int)
                        && items@.len() == tours[t as int].items@.len() && forall|k: int|
                        0 <= k < items@.len() ==> line_matches(
                            #[trigger] items@[k],
                            tours[t as int].items@[k],
                        ),
                decreases tours.len() - t + (if found { 0int } else { 1int }),
            {
                if !schedule.tours[t].played {
                    let tour = &schedule.tours[t];
                    let mut k: usize = 0;
                    while k < tour.items.len()
                        invariant
                            k <= tour.items@.len(),
                            *tour == tours[t as int],
                            t < tours.len(),
                            items@.len() == k,
                            forall|j: int|
                                0 <= j < k ==> line_matches(
                                    #[trigger] items@[j],
                                    tour.items@[j],
                                ),
                        decreases tour.items@.len() - k,
                    {
                        let item = &tour.items[k];
                        items.push(schedule_line(item, names));
                        k += 1;
                    }
                    proof {
                        crate::league::lemma_first_unplayed_prefix(tours, t as int);
                    }
                    found = true;
                } else {
                    t += 1;
                }
            }
            proof {
                if !found {
                    crate::league::lemma_first_unplayed_exhausted(tours, 0);
                }
            }
        },
        None => {},
    }
    LeagueGetViewModel {
        id: league.id,
        name: league.name.as_str().to_owned(),
        country_id,
        country_name: country_name.to_owned(),
        table: LeagueTableDto { rows },
        week_schedule: LeagueSchedule { items },
    }
}

/// A rendered fixture line mirrors its source fixture.
pub open spec fn line_matches(line: LeagueScheduleItem, item: ScheduleItem) -> bool {
    &&& line.date == item.date
    &&& line.home_team_id == item.home_team_id
    &&& line.away_team_id == item.away_team_id
    &&& line.result == match item.result {
        Some(res) => Some(
            LeagueScheduleItemResult { home_goals: res.home_goals, away_goals: res.away_goals },
        ),
        None => None::<LeagueScheduleItemResult>,
    }
}

/// The fixtures shown on the league page: those of the first unplayed
/// tour, in order.
pub open spec fn shown_schedule_matches(league: League, items: Seq<LeagueScheduleItem>) -> bool {
    match league.schedule {
        Some(schedule) => match first_unplayed(schedule.tours@, 0) {
            Some(t) => items.len() == schedule.tours@[t].items@.len() && forall|k: int|
                0 <= k < items.len() ==> line_matches(
                    #[trigger] items[k],
                    schedule.tours@[t].items@[k],
                ),
            None => items.len() == 0,
        },
        None => items.len() == 0,
    }
}

/// A rendered table row mirrors its source standing.
pub open spec fn row_matches(row: LeagueTableRow, entry: LeagueTableEntry) -> bool {
    &&& row.team_id == entry.team_id
    &&& row.played == entry.played
    &&& row.win == entry.win
    &&& row.draft == entry.draft
    &&& row.lost == entry.lost
    &&& row.goal_scored == entry.goal_scored
    &&& row.goal_concerned == entry.goal_concerned
    &&& row.points == entry.points
}

/// One fixture line, with both team names resolved.
fn schedule_line(item: &ScheduleItem, names: &TeamNameIndex) -> (line: LeagueScheduleItem)
    ensures
        line_matches(line, *item),
{
    let home_team_name = match names.team_name(item.home_team_id) {
        Some(name) => name.as_str().to_owned(),
        None => String::new(),
    };
    let away_team_name = match names.team_name(item.away_team_id) {
        Some(name) => name.as_str().to_owned(),
        None => String::new(),
    };
    LeagueScheduleItem {
        date: item.date,
        home_team_id: item.home_team_id,
        home_team_name,
        away_team_id: item.away_team_id,
        away_team_name,
        result: match item.result {
            Some(res) => Some(
                LeagueScheduleItemResult {
                    home_goals: res.home_goals,
                    away_goals: res.away_goals,
                },
            ),
            None => None,
        },
    }
}

} // verus!
