use football_sim::calendar::{
    ClubContext, GlobalContext, SimDate, SimDateTime, SimulationContext,
};
use football_sim::finance::{ClubFinancialBalance, ClubFinances, ClubSponsorshipContract};

#[test]
fn start_new_month_is_correct() {
    let mut finances = ClubFinances::new(123, Vec::new());

    finances.balance.income = 1;
    finances.balance.outcome = 2;

    let date = SimDate::new(2020, 2, 1);

    finances.start_new_month("club_name", date);

    let history_result = finances.history.get(date);

    assert!(history_result.is_some());

    assert_eq!(123, finances.balance.balance);
    assert_eq!(0, finances.balance.income);
    assert_eq!(0, finances.balance.outcome);

    assert_eq!(123, history_result.unwrap().balance);
    assert_eq!(1, history_result.unwrap().income);
    assert_eq!(2, history_result.unwrap().outcome);
}

#[test]
fn balance_push_income_is_correct() {
    let mut finances = ClubFinancialBalance::new(-1);

    finances.balance = 1;
    finances.income = 2;
    finances.outcome = 3;

    finances.push_income(20);

    assert_eq!(21, finances.balance);
    assert_eq!(22, finances.income);
    assert_eq!(3, finances.outcome);
}

#[test]
fn balance_push_outcome_is_correct() {
    let mut finances = ClubFinancialBalance::new(-1);

    finances.balance = 10;
    finances.income = 20;
    finances.outcome = 30;

    finances.push_outcome(5);

    assert_eq!(5, finances.balance);
    assert_eq!(20, finances.income);
    assert_eq!(35, finances.outcome);
}

#[test]
fn balance_clear_is_correct() {
    let mut finances = ClubFinancialBalance::new(-1);

    finances.balance = 1;
    finances.income = 2;
    finances.outcome = 3;

    finances.clear();

    assert_eq!(1, finances.balance);
    assert_eq!(0, finances.income);
    assert_eq!(0, finances.outcome);
}

#[test]
fn push_salary_books_an_outcome() {
    let mut finances = ClubFinances::new(1000, Vec::new());

    finances.push_salary("club_name", 300);

    assert_eq!(700, finances.balance.balance);
    assert_eq!(300, finances.balance.outcome);
    assert_eq!(0, finances.balance.income);
}

#[test]
fn simulate_collects_sponsorship_wages_at_year_start() {
    let contracts = vec![
        ClubSponsorshipContract::new(String::from("alpha"), 100, SimDate::new(2025, 1, 1)),
        ClubSponsorshipContract::new(String::from("beta"), 50, SimDate::new(2019, 1, 1)),
    ];
    let mut finances = ClubFinances::new(10, contracts);
    let ctx = GlobalContext {
        club: Some(ClubContext { name: String::from("club_name") }),
        simulation: SimulationContext { date: SimDateTime { date: SimDate::new(2020, 1, 1) } },
    };

    finances.simulate(ctx);

    // The expired deal pays nothing; the active one pays its wage.
    assert_eq!(110, finances.balance.balance);
    assert_eq!(100, finances.balance.income);
    assert_eq!(1, finances.history.entries.len());
}
