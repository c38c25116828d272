use football_sim::calendar::{GlobalContext, SimDate, SimDateTime, SimulationContext};
use football_sim::league::{
    DayMonthPeriod, League, LeagueSettings, LeagueTable, LeagueTableEntry, Schedule,
    ScheduleItem, ScheduleTour,
};
use football_sim::ui::{build_country_view, build_league_view, TeamNameIndex};
use football_sim::generators::Country;
use football_sim::rng::MatchRandom;

fn settings() -> LeagueSettings {
    LeagueSettings {
        season_starting_half: DayMonthPeriod::new(1, 3, 4, 5),
        season_ending_half: DayMonthPeriod::new(4, 5, 1, 3),
    }
}

#[test]
fn is_time_for_new_schedule_is_correct() {
    //        let mut settings = LeagueSettings {
    //            season_starting: (1, 3),
    //            season_ending: (4, 5),
    //        };
    //
    //        let mut context = SimulationContext::new(
    //            date: NaiveDate::from_ymd(2020, 3, 1)
    //        );
    //
    //        let result = settings.is_time_for_new_schedule(&mut context);
    //
    //        assert_eq!(true, result);
}

#[test]
fn new_schedule_is_due_on_the_season_start_day() {
    let settings = settings();
    let on_day = SimulationContext { date: SimDateTime { date: SimDate::new(2020, 3, 1) } };
    let off_day = SimulationContext { date: SimDateTime { date: SimDate::new(2020, 3, 2) } };

    assert!(settings.is_time_for_new_schedule(&on_day));
    assert!(!settings.is_time_for_new_schedule(&off_day));
}

fn fixture(y: i32, m: u8, d: u8, home: u32, away: u32) -> ScheduleItem {
    ScheduleItem {
        date: SimDateTime { date: SimDate::new(y, m, d) },
        home_team_id: home,
        away_team_id: away,
        result: None,
    }
}

#[test]
fn simulate_reports_the_due_fixtures_of_the_first_unplayed_tour() {
    let mut league = League::new(7, String::from("premier"), 1, 5000, settings());
    league.schedule = Some(Schedule {
        tours: vec![
            ScheduleTour { played: true, items: vec![fixture(2020, 3, 1, 1, 2)] },
            ScheduleTour {
                played: false,
                items: vec![fixture(2020, 3, 8, 3, 4), fixture(2020, 3, 9, 5, 6)],
            },
        ],
    });
    let ctx = GlobalContext {
        club: None,
        simulation: SimulationContext { date: SimDateTime { date: SimDate::new(2020, 3, 8) } },
    };

    let result = league.simulate(ctx);

    assert_eq!(7, result.league_id);
    assert_eq!(1, result.matches.len());
    assert_eq!(3, result.matches[0].home_team_id);
    assert_eq!(4, result.matches[0].away_team_id);
}

#[test]
fn simulate_without_schedule_reports_nothing() {
    let mut league = League::new(9, String::from("second"), 1, 5000, settings());
    let ctx = GlobalContext {
        club: None,
        simulation: SimulationContext { date: SimDateTime { date: SimDate::new(2020, 3, 8) } },
    };

    let result = league.simulate(ctx);

    assert_eq!(9, result.league_id);
    assert!(result.matches.is_empty());
}

#[test]
fn country_view_lists_the_leagues_in_order() {

    let mut rng = MatchRandom::from_seed(11);
    let country = Country::generate(&mut rng);

    let view = build_country_view(&country, "eurasia");

    assert_eq!(country.id, view.id);
    assert_eq!(country.name, view.name);
    assert_eq!("eurasia", view.continent_name);
    assert_eq!(6, view.leagues.len());
    assert_eq!(country.leagues[0].id, view.leagues[0].id);
}

#[test]
fn league_view_resolves_the_table_names() {
    let mut league = League::new(7, String::from("premier"), 1, 5000, settings());
    league.schedule = Some(Schedule {
        tours: vec![ScheduleTour {
            played: false,
            items: vec![fixture(2020, 3, 8, 42, 42)],
        }],
    });
    league.table = Some(LeagueTable {
        rows: vec![LeagueTableEntry {
            team_id: 42,
            played: 3,
            win: 2,
            draft: 1,
            lost: 0,
            goal_scored: 5,
            goal_concerned: 1,
            points: 7,
        }],
    });
    let names = TeamNameIndex { entries: vec![(42, String::from("athletic"))] };

    let view = build_league_view(&league, 1, "arcadia", &names);

    assert_eq!(7, view.id);
    assert_eq!("arcadia", view.country_name);
    assert_eq!(1, view.table.rows.len());
    assert_eq!("athletic", view.table.rows[0].team_name);
    assert_eq!(7, view.table.rows[0].points);
    assert_eq!(1, view.week_schedule.items.len());
    assert_eq!("athletic", view.week_schedule.items[0].home_team_name);
}
