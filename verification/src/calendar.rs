//! Plain calendar values and the simulation contexts built on them.
//!
//! Dates are held as plain year, month and day numbers, so every rule
//! that reads them is stated exactly.

use vstd::prelude::*;

verus! {

/// A calendar date as plain numbers.
#[derive(Clone, Copy, Debug, PartialEq, Eq, Structural)]
pub struct SimDate {
    pub year: i32,
    pub month: u8,
    pub day: u8,
}

impl SimDate {
    pub open spec fn valid(self) -> bool {
        1 <= self.month <= 12 && 1 <= self.day <= 31
    }

    pub fn new(year: i32, month: u8, day: u8) -> (d: SimDate)
        ensures
            d.year == year,
            d.month == month,
            d.day == day,
    {
        SimDate { year, month, day }
    }
}

/// A timestamp: a date (finer resolution is not needed by the rules).
#[derive(Clone, Copy, Debug, PartialEq, Eq, Structural)]
pub struct SimDateTime {
    pub date: SimDate,
}

impl SimDateTime {
    /// The calendar date of this timestamp.
    pub fn date(&self) -> (d: SimDate)
        ensures
            d == self.date,
    {
        self.date
    }
}

/// The running clock of a world simulation.
#[derive(Clone, Copy, Debug, PartialEq, Eq, Structural)]
pub struct SimulationContext {
    pub date: SimDateTime,
}

impl SimulationContext {
    /// The first day of a month opens a bookkeeping month.
    pub fn is_month_beginning(&self) -> (r: bool)
        ensures
            r == (self.date.date.day == 1),
    {
        self.date.date.day == 1
    }

    /// The first day of January opens a bookkeeping year.
    pub fn is_year_beginning(&self) -> (r: bool)
        ensures
            r == (self.date.date.day == 1 && self.date.date.month == 1),
    {
        self.date.date.day == 1 && self.date.date.month == 1
    }
}

/// The club a world-simulation step currently works on.
#[derive(Clone, Debug)]
pub struct ClubContext {
    pub name: String,
}

/// Everything a world-simulation step may consult.
#[derive(Clone, Debug)]
pub struct GlobalContext {
    pub club: Option<ClubContext>,
    pub simulation: SimulationContext,
}

} // verus!
