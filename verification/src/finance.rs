//! Club financial bookkeeping.
//!
//! The balance tracks running income and outcome; at every month start
//! the period is archived to the history and the counters reset, and at
//! every year start the active sponsorship wages are collected.

use vstd::prelude::*;

use crate::calendar::{GlobalContext, SimDate};

verus! {

/// The running money counters of one club.
#[derive(Clone, Copy, Debug, PartialEq, Eq, Structural)]
pub struct ClubFinancialBalance {
    pub balance: i32,
    pub income: i32,
    pub outcome: i32,
    pub highest_wage_paid: i32,
    pub latest_season_tickets: i32,
    pub remaining_budget: i32,
    pub season_transfer_funds: i32,
    pub transfer_income_percentage: i32,
    pub weekly_wage_budget: i32,
    pub highest_wage: i32,
    pub youth_grant_income: i32,
}

impl ClubFinancialBalance {
    /// A fresh balance: the opening amount, everything else zero.
    pub fn new(balance: i32) -> (b: ClubFinancialBalance)
        ensures
            b.balance == balance,
            b.income == 0,
            b.outcome == 0,
            b.highest_wage_paid == 0,
            b.latest_season_tickets == 0,
            b.remaining_budget == 0,
            b.season_transfer_funds == 0,
            b.transfer_income_percentage == 0,
            b.weekly_wage_budget == 0,
            b.highest_wage == 0,
            b.youth_grant_income == 0,
    {
        ClubFinancialBalance {
            balance,
            income: 0,
            outcome: 0,
            highest_wage_paid: 0,
            latest_season_tickets: 0,
            remaining_budget: 0,
            season_transfer_funds: 0,
            transfer_income_percentage: 0,
            weekly_wage_budget: 0,
            highest_wage: 0,
            youth_grant_income: 0,
        }
    }

    /// Book an income: it raises the balance and the income counter.
    pub fn push_income(&mut self, wage: i32)
        requires
            i32::MIN <= old(self).balance + wage <= i32::MAX,
            i32::MIN <= old(self).income + wage <= i32::MAX,
        ensures
            final(self).balance == old(self).balance + wage,
            final(self).income == old(self).income + wage,
            final(self).outcome == old(self).outcome,
            unchanged_off_ledger(*old(self), *final(self)),
    {
        self.balance = self.balance + wage;
        self.income = self.income + wage;
    }

    /// Book an outcome: it lowers the balance and raises the outcome
    /// counter.
    pub fn push_outcome(&mut self, wage: i32)
        requires
            i32::MIN <= old(self).balance - wage <= i32::MAX,
            i32::MIN <= old(self).outcome + wage <= i32::MAX,
        ensures
            final(self).balance == old(self).balance - wage,
            final(self).outcome == old(self).outcome + wage,
            final(self).income == old(self).income,
            unchanged_off_ledger(*old(self), *final(self)),
    {
        self.balance = self.balance - wage;
        self.outcome = self.outcome + wage;
    }

    /// Open a new period: reset the income and outcome counters, keeping
    /// the balance.
    pub fn clear(&mut self)
        ensures
            final(self).income == 0,
            final(self).outcome == 0,
            final(self).balance == old(self).balance,
            unchanged_off_ledger(*old(self), *final(self)),
    {
        self.income = 0;
        self.outcome = 0;
    }
}

/// The fields outside the running ledger are untouched.
pub open spec fn unchanged_off_ledger(a: ClubFinancialBalance, b: ClubFinancialBalance) -> bool {
    &&& b.highest_wage_paid == a.highest_wage_paid
    &&& b.latest_season_tickets == a.latest_season_tickets
    &&& b.remaining_budget == a.remaining_budget
    &&& b.season_transfer_funds == a.season_transfer_funds
    &&& b.transfer_income_percentage == a.transfer_income_percentage
    &&& b.weekly_wage_budget == a.weekly_wage_budget
    &&& b.highest_wage == a.highest_wage
    &&& b.youth_grant_income == a.youth_grant_income
}

/// The archived balances, one per closed month.
#[derive(Clone, Debug)]
pub struct ClubFinancialBalanceHistory {
    pub entries: Vec<(SimDate, ClubFinancialBalance)>,
}

impl ClubFinancialBalanceHistory {
    pub fn new() -> (h: ClubFinancialBalanceHistory)
        ensures
            h.entries@.len() == 0,
    {
        ClubFinancialBalanceHistory { entries: Vec::new() }
    }

    /// Archive a period under its closing date.
    pub fn add(&mut self, date: SimDate, balance: ClubFinancialBalance)
        ensures
            final(self).entries@ == old(self).entries@.push((date, balance)),
    {
        self.entries.push((date, balance));
    }

    /// The first balance archived under `date`, if any.
    pub fn get(&self, date: SimDate) -> (r: Option<ClubFinancialBalance>)
        ensures
            match r {
                Some(b) => exists|i: int|
                    0 <= i < self.entries@.len() && (#[trigger] self.entries@[i]) == (date, b),
                None => forall|i: int|
                    0 <= i < self.entries@.len() ==> (#[trigger] self.entries@[i]).0 != date,
            },
    {
        let mut i: usize = 0;
        while i < self.entries.len()
            invariant
                i <= self.entries@.len(),
                forall|j: int| 0 <= j < i ==> (#[trigger] self.entries@[j]).0 != date,
            decreases self.entries@.len() - i,
        {
            let (d, b) = self.entries[i];
            if d == date {
                proof {
                    assert(self.entries@[i as int] == (date, b));
                }
                return Some(b);
            }
            i += 1;
        }
        None
    }
}

/// One sponsorship deal: a yearly wage until it expires.
#[derive(Clone, Debug)]
pub struct ClubSponsorshipContract {
    pub sponsor_name: String,
    pub wage: i32,
    pub expiration: SimDate,
}

impl ClubSponsorshipContract {
    pub fn new(sponsor_name: String, wage: i32, expiration: SimDate) -> (c:
        ClubSponsorshipContract)
        ensures
            c.sponsor_name == sponsor_name,
            c.wage == wage,
            c.expiration == expiration,
    {
        ClubSponsorshipContract { sponsor_name, wage, expiration }
    }
}

/// `date` falls strictly before the expiration year of a contract.
pub open spec fn contract_active(c: ClubSponsorshipContract, date: SimDate) -> bool {
    date.year < c.expiration.year
}

/// The sponsorship deals of one club.
#[derive(Clone, Debug)]
pub struct ClubSponsorship {
    pub contracts: Vec<ClubSponsorshipContract>,
}

/// Every wage in the book is a non-negative yearly payment.
pub open spec fn wages_nonneg(contracts: Seq<ClubSponsorshipContract>) -> bool {
    forall|i: int| 0 <= i < contracts.len() ==> (#[trigger] contracts[i]).wage >= 0
}

/// The sum of the active wages of the first `n` contracts at `date`.
pub open spec fn active_wages_sum(
    contracts: Seq<ClubSponsorshipContract>,
    date: SimDate,
    n: int,
) -> int
    decreases n,
{
    if n <= 0 {
        0
    } else {
        active_wages_sum(contracts, date, n - 1) + if contract_active(contracts[n - 1], date) {
            contracts[n - 1].wage as int
        } else {
            0
        }
    }
}

/// Active wage sums over non-negative wages grow monotonically.
pub proof fn lemma_active_wages_sum_bounds(
    contracts: Seq<ClubSponsorshipContract>,
    date: SimDate,
    n: int,
)
    requires
        wages_nonneg(contracts),
        0 <= n <= contracts.len(),
    ensures
        0 <= active_wages_sum(contracts, date, n) <= active_wages_sum(
            contracts,
            date,
            contracts.len() as int,
        ),
    decreases contracts.len() - n,
{
    if n < contracts.len() {
        lemma_active_wages_sum_bounds(contracts, date, n + 1);
        lemma_active_wages_prefix_nonneg(contracts, date, n);
    } else {
        lemma_active_wages_prefix_nonneg(contracts, date, n);
    }
}

/// An active wage sum over non-negative wages is non-negative.
pub proof fn lemma_active_wages_prefix_nonneg(
    contracts: Seq<ClubSponsorshipContract>,
    date: SimDate,
    n: int,
)
    requires
        wages_nonneg(contracts),
        n <= contracts.len(),
    ensures
        active_wages_sum(contracts, date, n) >= 0,
    decreases n,
{
    if n > 0 {
        lemma_active_wages_prefix_nonneg(contracts, date, n - 1);
    }
}

impl ClubSponsorship {
    pub fn new(contracts: Vec<ClubSponsorshipContract>) -> (s: ClubSponsorship)
        ensures
            s.contracts@ == contracts@,
    {
        ClubSponsorship { contracts }
    }
}

/// The outcome report of one financial simulation step.
#[derive(Clone, Copy, Debug, PartialEq, Eq, Structural)]
pub struct ClubFinanceResult {}

impl ClubFinanceResult {
    pub fn new() -> (r: ClubFinanceResult) {
        ClubFinanceResult {  }
    }
}

/// The money affairs of one club: balance, archive and sponsorships.
#[derive(Clone, Debug)]
pub struct ClubFinances {
    pub balance: ClubFinancialBalance,
    pub history: ClubFinancialBalanceHistory,
    pub sponsorship: ClubSponsorship,
}

impl ClubFinances {
    /// Open the books with a starting amount and the signed sponsorship
    /// contracts.
    pub fn new(amount: i32, sponsorship_contract: Vec<ClubSponsorshipContract>) -> (f:
        ClubFinances)
        ensures
            f.balance.balance == amount,
            f.balance.income == 0,
            f.balance.outcome == 0,
            f.history.entries@.len() == 0,
            f.sponsorship.contracts@ == sponsorship_contract@,
    {
        ClubFinances {
            balance: ClubFinancialBalance::new(amount),
            history: ClubFinancialBalanceHistory::new(),
            sponsorship: ClubSponsorship::new(sponsorship_contract),
        }
    }

    /// One bookkeeping step: at a month start the period is archived and
    /// the counters reset; at a year start every active sponsorship wage
    /// is collected, in contract order.
    pub fn simulate(&mut self, ctx: GlobalContext) -> (r: ClubFinanceResult)
        requires
            ctx.club is Some,
            wages_nonneg(old(self).sponsorship.contracts@),
            old(self).balance.balance + active_wages_sum(
                old(self).sponsorship.contracts@,
                ctx.simulation.date.date,
                old(self).sponsorship.contracts@.len() as int,
            ) <= i32::MAX,
            active_wages_sum(
                old(self).sponsorship.contracts@,
                ctx.simulation.date.date,
                old(self).sponsorship.contracts@.len() as int,
            ) <= i32::MAX,
        ensures
            final(self).sponsorship == old(self).sponsorship,
            ctx.simulation.date.date.day == 1 && ctx.simulation.date.date.month == 1 ==> {
                &&& final(self).balance.balance == old(self).balance.balance + active_wages_sum(
                    old(self).sponsorship.contracts@,
                    ctx.simulation.date.date,
                    old(self).sponsorship.contracts@.len() as int,
                )
                &&& final(self).balance.income == active_wages_sum(
                    old(self).sponsorship.contracts@,
                    ctx.simulation.date.date,
                    old(self).sponsorship.contracts@.len() as int,
                )
                &&& final(self).history.entries@ == old(self).history.entries@.push(
                    (ctx.simulation.date.date, old(self).balance),
                )
            },
            ctx.simulation.date.date.day == 1 && ctx.simulation.date.date.month != 1 ==> {
                &&& final(self).balance.balance == old(self).balance.balance
                &&& final(self).balance.income == 0
                &&& final(self).balance.outcome == 0
                &&& final(self).history.entries@ == old(self).history.entries@.push(
                    (ctx.simulation.date.date, old(self).balance),
                )
            },
            ctx.simulation.date.date.day != 1 ==> final(self).balance == old(self).balance
                && final(self).history.entries@ == old(self).history.entries@,
    {
        let result = ClubFinanceResult::new();
        let club_name = match &ctx.club {
            Some(club) => &club.name,
            None => {
                return result;
            },
        };
        let date = ctx.simulation.date.date();
        if ctx.simulation.is_month_beginning() {
            self.start_new_month(club_name, date);
        }
        if ctx.simulation.is_year_beginning() {
            let ghost contracts = self.sponsorship.contracts@;
            let ghost balance0 = self.balance.balance as int;
            let n = self.sponsorship.contracts.len();
            let mut i: usize = 0;
            while i < n
                invariant
                    i <= n,
                    n == self.sponsorship.contracts@.len(),
                    contracts == self.sponsorship.contracts@,
                    wages_nonneg(contracts),
                    balance0 + active_wages_sum(contracts, date, n as int) <= i32::MAX,
                    active_wages_sum(contracts, date, n as int) <= i32::MAX,
                    self.balance.balance == balance0 + active_wages_sum(
                        contracts,
                        date,
                        i as int,
                    ),
                    self.balance.income == active_wages_sum(contracts, date, i as int),
                    self.balance.outcome == 0,
                    self.sponsorship == old(self).sponsorship,
                    self.history.entries@ == old(self).history.entries@.push(
                        (date, old(self).balance),
                    ),
                decreases n - i,
            {
                proof {
                    lemma_active_wages_sum_bounds(contracts, date, i + 1);
                    lemma_active_wages_prefix_nonneg(contracts, date, i as int);
                }
                let active = self.sponsorship.contracts[i].expiration.year > date.year;
                if active {
                    let wage = self.sponsorship.contracts[i].wage;
                    self.balance.push_income(wage);
                }
                i += 1;
            }
        }
        result
    }

    /// Book a salary payment as an outcome.
    pub fn push_salary(&mut self, club_name: &str, amount: i32)
        requires
            i32::MIN <= old(self).balance.balance - amount <= i32::MAX,
            i32::MIN <= old(self).balance.outcome + amount <= i32::MAX,
        ensures
            final(self).balance.balance == old(self).balance.balance - amount,
            final(self).balance.outcome == old(self).balance.outcome + amount,
            final(self).balance.income == old(self).balance.income,
            final(self).history == old(self).history,
            final(self).sponsorship == old(self).sponsorship,
    {
        let _ = club_name;
        self.balance.push_outcome(amount);
    }

    /// Close the month: archive the running balance under `date` and
    /// reset the period counters.
    pub fn start_new_month(&mut self, club_name: &str, date: SimDate)
        ensures
            final(self).history.entries@ == old(self).history.entries@.push(
                (date, old(self).balance),
            ),
            final(self).balance.balance == old(self).balance.balance,
            final(self).balance.income == 0,
            final(self).balance.outcome == 0,
            final(self).sponsorship == old(self).sponsorship,
    {
        let _ = club_name;
        let archived = self.balance;
        self.history.add(date, archived);
        self.balance.clear();
    }
}

} // verus!
