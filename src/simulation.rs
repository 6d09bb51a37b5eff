use vstd::prelude::*;

use crate::hex::{is_cell, Coord};
use crate::roll::{direction_for_dice, is_die, roll_direction};
use crate::season::Season;
use crate::weather::{get_weather_string, weather_text};
use crate::wrap::{get_new_coord, next_coord, step};

verus! {

/// The cell at the centre of the grid, where every walk starts.
pub open spec fn origin() -> Coord {
    (0i32, 0i32, 0i32)
}

/// The running state of the weather walk: the current cell and season.
pub struct Simulation {
    pub coord: Coord,
    pub season: Season,
}

/// The state after switching to season `s`: the walk restarts at the centre.
pub open spec fn season_changed(st: Simulation, s: Season) -> Simulation {
    Simulation { coord: origin(), season: s }
}

impl Simulation {
    /// The walker stands on one of the nineteen cells of the grid.
    pub open spec fn wf(&self) -> bool {
        is_cell(self.coord)
    }

    /// Whether `r` reports this state: its cell, its season and their weather.
    pub open spec fn reported_by(&self, r: (Coord, Season, String)) -> bool {
        &&& r.0 == self.coord
        &&& r.1 == self.season
        &&& r.2@ == weather_text(self.coord, self.season)
    }

    /// Starts a walk at the centre in `season`, with the weather there.
    pub fn initialize(season: Season) -> (r: (Simulation, String))
        ensures
            r.0.wf(),
            r.0.coord == origin(),
            r.0.season == season,
            r.1@ == weather_text(origin(), season),
    {
        let sim = Simulation { coord: (0, 0, 0), season };
        let weather = get_weather_string(sim.coord, season);
        (sim, weather)
    }

    /// The weather at the current cell in the current season.
    pub fn weather(&self) -> (r: String)
        requires
            self.wf(),
        ensures
            r@ == weather_text(self.coord, self.season),
    {
        get_weather_string(self.coord, self.season)
    }

    /// Takes the step that two dice select, and reports the new state.
    pub fn advance_with_dice(&mut self, first: u8, second: u8) -> (r: (Coord, Season, String))
        requires
            old(self).wf(),
            is_die(first as int),
            is_die(second as int),
        ensures
            final(self).wf(),
            final(self).season == old(self).season,
            final(self).coord == step(old(self).coord, old(self).season, roll_direction(first + second)),
            final(self).reported_by(r),
    {
        let dir = direction_for_dice(first, second);
        self.coord = next_coord(self.coord, self.season, dir);
        (self.coord, self.season, get_weather_string(self.coord, self.season))
    }

    /// Rolls two dice, takes the step they select, and reports the new state.
    pub fn advance(&mut self) -> (r: (Coord, Season, String))
        requires
            old(self).wf(),
        ensures
            final(self).wf(),
            final(self).season == old(self).season,
            exists|a: int, b: int|
                is_die(a) && is_die(b) && final(self).coord == step(
                    old(self).coord,
                    old(self).season,
                    roll_direction(a + b),
                ),
            final(self).reported_by(r),
    {
        let (coord, season) = get_new_coord(self.coord, self.season);
        self.coord = coord;
        self.season = season;
        (self.coord, self.season, get_weather_string(self.coord, self.season))
    }

    /// Switches to `new_season` and restarts the walk at the centre,
    /// whatever the cell before.
    pub fn change_season(&mut self, new_season: Season) -> (r: (Coord, Season, String))
        ensures
            *final(self) == season_changed(*old(self), new_season),
            final(self).wf(),
            final(self).coord == origin(),
            final(self).season == new_season,
            final(self).reported_by(r),
    {
        self.season = new_season;
        self.coord = (0, 0, 0);
        (self.coord, self.season, get_weather_string(self.coord, self.season))
    }
}

/// Changing to the same season again gives the same state, and so the same
/// cell and weather, as changing to it once; and the result does not depend
/// on the state it started from.
pub proof fn lemma_change_season_idempotent(a: Simulation, b: Simulation, s: Season)
    ensures
        season_changed(season_changed(a, s), s) == season_changed(a, s),
        season_changed(a, s) == season_changed(b, s),
        season_changed(a, s).coord == origin(),
        weather_text(season_changed(season_changed(a, s), s).coord, s) == weather_text(
            season_changed(a, s).coord,
            s,
        ),
{
}

} // verus!
