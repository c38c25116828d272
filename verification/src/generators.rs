//! Procedural world generation: countries, leagues and player positions.
//!
//! All randomness is drawn from the explicitly seeded match source, so a
//! generated world is reproducible from its seed.

use vstd::prelude::*;

use crate::league::{DayMonthPeriod, League, LeagueSettings};
use crate::player::PlayerPositionType;
use crate::rng::MatchRandom;

verus! {

/// A country record as the static world data stores it.
#[derive(Clone, Debug, PartialEq, Eq)]
pub struct CountryEntity {
    pub id: u32,
    pub code: String,
    pub slug: String,
    pub name: String,
    pub continent_id: u32,
    pub reputation: u16,
}

/// One country of the generated world.
#[derive(Clone, Debug)]
pub struct Country {
    pub id: u32,
    pub name: String,
    pub code: String,
    pub continent_id: u32,
    pub leagues: Vec<League>,
    pub reputation: u16,
}

/// One of the letters of the generation alphabet, by index.
fn letter(d: u32) -> (s: &'static str)
    requires
        d < 26,
    ensures
        s@.len() == 1,
{
    let s = match d {
        0 => "a",
        1 => "b",
        2 => "c",
        3 => "d",
        4 => "e",
        5 => "f",
        6 => "g",
        7 => "h",
        8 => "i",
        9 => "j",
        10 => "k",
        11 => "l",
        12 => "m",
        13 => "n",
        14 => "o",
        15 => "p",
        16 => "q",
        17 => "r",
        18 => "s",
        19 => "t",
        20 => "u",
        21 => "v",
        22 => "w",
        23 => "x",
        24 => "y",
        _ => "z",
    };
    proof {
        reveal_strlit("a");
        reveal_strlit("b");
        reveal_strlit("c");
        reveal_strlit("d");
        reveal_strlit("e");
        reveal_strlit("f");
        reveal_strlit("g");
        reveal_strlit("h");
        reveal_strlit("i");
        reveal_strlit("j");
        reveal_strlit("k");
        reveal_strlit("l");
        reveal_strlit("m");
        reveal_strlit("n");
        reveal_strlit("o");
        reveal_strlit("p");
        reveal_strlit("q");
        reveal_strlit("r");
        reveal_strlit("s");
        reveal_strlit("t");
        reveal_strlit("u");
        reveal_strlit("v");
        reveal_strlit("w");
        reveal_strlit("x");
        reveal_strlit("y");
        reveal_strlit("z");
    }
    s
}

/// A random lowercase name of exactly `n` letters.
pub fn random_string(rng: &mut MatchRandom, n: usize) -> (r: String)
    ensures
        r@.len() == n,
{
    let mut r = String::new();
    let mut i: usize = 0;
    while i < n
        invariant
            i <= n,
            r@.len() == i,
        decreases n - i,
    {
        let d = rng.draw(26);
        let piece = letter(d);
        r.append(piece);
        i += 1;
    }
    r
}

/// A random number in `min..=max`.
pub fn random_in(rng: &mut MatchRandom, min: u32, max: u32) -> (r: u32)
    requires
        min <= max,
        max - min < 0xFFFF_FFFF,
    ensures
        min <= r <= max,
{
    min + rng.draw(max - min + 1)
}

impl Country {
    /// A random country: a random identity and name, six generated
    /// leagues, and the standard reputation.
    pub fn generate(rng: &mut MatchRandom) -> (c: Country)
        ensures
            1 <= c.id <= 10_000_000,
            c.name@.len() == 10,
            c.code@.len() == 3,
            c.leagues@.len() == 6,
            c.reputation == 5000,
    {
        let id = random_in(rng, 1, 10_000_000);
        let name = random_string(rng, 10);
        let code = random_string(rng, 3);
        let mut leagues: Vec<League> = Vec::new();
        let mut i: usize = 0;
        while i < 6
            invariant
                i <= 6,
                leagues@.len() == i,
            decreases 6 - i,
        {
            let league = League::generate(rng);
            leagues.push(league);
            i += 1;
        }
        Country { id, name, code, continent_id: 0, leagues, reputation: 5000 }
    }
}

impl League {
    /// A random league: a random identity and name, the standard season
    /// span, and the standard reputation.
    pub fn generate(rng: &mut MatchRandom) -> (l: League)
        ensures
            1 <= l.id <= 10_000_000,
            l.name@.len() == 30,
            l.schedule is None,
            l.table is None,
            l.reputation == 5000,
            l.settings.season_starting_half.from_day == 1,
            l.settings.season_starting_half.from_month == 1,
            l.settings.season_ending_half.from_day == 1,
            l.settings.season_ending_half.from_month == 12,
    {
        let id = random_in(rng, 1, 10_000_000);
        let name = random_string(rng, 30);
        let settings = LeagueSettings {
            season_starting_half: DayMonthPeriod::new(1, 1, 1, 1),
            season_ending_half: DayMonthPeriod::new(1, 12, 1, 12),
        };
        League::new(id, name, 0, 5000, settings)
    }
}

/// Draws a random behavioural role position.
pub struct PlayerPositionGenerator;

impl PlayerPositionGenerator {
    /// One of the four role positions, uniformly drawn.
    pub fn generate(rng: &mut MatchRandom) -> (p: PlayerPositionType)
        ensures
            p == PlayerPositionType::Goalkeeper || p == PlayerPositionType::Defender || p
                == PlayerPositionType::Midfielder || p == PlayerPositionType::Forward,
    {
        match rng.draw(4) {
            0 => PlayerPositionType::Goalkeeper,
            1 => PlayerPositionType::Defender,
            2 => PlayerPositionType::Midfielder,
            3 => PlayerPositionType::Forward,
            _ => PlayerPositionType::Goalkeeper,
        }
    }
}

} // verus!
