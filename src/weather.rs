use vstd::prelude::*;

use crate::hex::{is_cell, Coord};
use crate::season::Season;

verus! {

/// The weather of each cell in spring; empty off the grid.
pub open spec fn spring_weather(c: Coord) -> Seq<char> {
    if c == (0i32, 0i32, 0i32) {
        "Clear & Nippy"@
    } else if c == (1i32, 0i32, -1i32) {
        "Sleet"@
    } else if c == (1i32, -1i32, 0i32) {
        "Hail"@
    } else if c == (0i32, -1i32, 1i32) {
        "Cold Wafts of Mist"@
    } else if c == (-1i32, 0i32, 1i32) {
        "Sunny & Clear"@
    } else if c == (-1i32, 1i32, 0i32) {
        "Cloudy & Warm"@
    } else if c == (0i32, 1i32, -1i32) {
        "Nippy & Humid"@
    } else if c == (2i32, 0i32, -2i32) {
        "Heavy Rainfall"@
    } else if c == (2i32, -1i32, -1i32) {
        "Snowy Rain"@
    } else if c == (2i32, -2i32, 0i32) {
        "Windy & Snowy"@
    } else if c == (1i32, -2i32, 1i32) {
        "Heavy Snowfall"@
    } else if c == (0i32, -2i32, 2i32) {
        "Light Snowfall"@
    } else if c == (-1i32, -1i32, 2i32) {
        "Cloudy & Dry"@
    } else if c == (-2i32, 0i32, 2i32) {
        "Pleasantly Warm"@
    } else if c == (-2i32, 1i32, 1i32) {
        "Strong Pollen Drift"@
    } else if c == (-2i32, 2i32, 0i32) {
        "Hot & Dry"@
    } else if c == (-1i32, 2i32, -1i32) {
        "Warm & Humid"@
    } else if c == (0i32, 2i32, -2i32) {
        "Warm Drizzle"@
    } else if c == (1i32, 1i32, -2i32) {
        "Short Showers"@
    } else {
        Seq::empty()
    }
}

/// The weather of each cell in summer; empty off the grid.
pub open spec fn summer_weather(c: Coord) -> Seq<char> {
    if c == (0i32, 0i32, 0i32) {
        "Pleasantly Warm"@
    } else if c == (1i32, 0i32, -1i32) {
        "Cloudy & Humid"@
    } else if c == (1i32, -1i32, 0i32) {
        "Cloudy & Windy"@
    } else if c == (0i32, -1i32, 1i32) {
        "Warm Breeze"@
    } else if c == (-1i32, 0i32, 1i32) {
        "Hot & Dry"@
    } else if c == (-1i32, 1i32, 0i32) {
        "Warm & Cloudy"@
    } else if c == (0i32, 1i32, -1i32) {
        "Short, Warm Showers"@
    } else if c == (2i32, 0i32, -2i32) {
        "Torrential Rain"@
    } else if c == (2i32, -1i32, -1i32) {
        "Warm Storm"@
    } else if c == (2i32, -2i32, 0i32) {
        "Fierce Wind"@
    } else if c == (1i32, -2i32, 1i32) {
        "Partly Cloudy & Nippy"@
    } else if c == (0i32, -2i32, 2i32) {
        "Clear & Nippy"@
    } else if c == (-1i32, -1i32, 2i32) {
        "Sunny & Clear"@
    } else if c == (-2i32, 0i32, 2i32) {
        "Dry Heat Surges"@
    } else if c == (-2i32, 1i32, 1i32) {
        "Hot & Windy"@
    } else if c == (-2i32, 2i32, 0i32) {
        "Hot & Muggy"@
    } else if c == (-1i32, 2i32, -1i32) {
        "Warm Drizzle"@
    } else if c == (0i32, 2i32, -2i32) {
        "Warm Rain"@
    } else if c == (1i32, 1i32, -2i32) {
        "Downpour"@
    } else {
        Seq::empty()
    }
}

/// The weather of each cell in autumn; empty off the grid.
pub open spec fn autumn_weather(c: Coord) -> Seq<char> {
    if c == (0i32, 0i32, 0i32) {
        "Humid & Cloudy"@
    } else if c == (1i32, 0i32, -1i32) {
        "Sunny & Clear"@
    } else if c == (1i32, -1i32, 0i32) {
        "Cold Wafts of Msit"@
    } else if c == (0i32, -1i32, 1i32) {
        "Thick Fog Soup"@
    } else if c == (-1i32, 0i32, 1i32) {
        "Rain & Fog"@
    } else if c == (-1i32, 1i32, 0i32) {
        "Rain & Gusts"@
    } else if c == (0i32, 1i32, -1i32) {
        "Sunny & Cloudy"@
    } else if c == (2i32, 0i32, -2i32) {
        "Indian Summer"@
    } else if c == (2i32, -1i32, -1i32) {
        "Sporadic Gusts"@
    } else if c == (2i32, -2i32, 0i32) {
        "Cold Winds"@
    } else if c == (1i32, -2i32, 1i32) {
        "Frosty & Cloudy"@
    } else if c == (0i32, -2i32, 2i32) {
        "Cloudy & Nippy"@
    } else if c == (-1i32, -1i32, 2i32) {
        "Windy & Clear"@
    } else if c == (-2i32, 0i32, 2i32) {
        "Short, Light Showers"@
    } else if c == (-2i32, 1i32, 1i32) {
        "Heavy Downpour"@
    } else if c == (-2i32, 2i32, 0i32) {
        "Rainy Windstorm"@
    } else if c == (-1i32, 2i32, -1i32) {
        "Drizzle"@
    } else if c == (0i32, 2i32, -2i32) {
        "Sunny & Nippy"@
    } else if c == (1i32, 1i32, -2i32) {
        "Pleasantly Warm"@
    } else {
        Seq::empty()
    }
}

/// The weather of each cell in winter; empty off the grid.
pub open spec fn winter_weather(c: Coord) -> Seq<char> {
    if c == (0i32, 0i32, 0i32) {
        "Cold & Humid"@
    } else if c == (1i32, 0i32, -1i32) {
        "Cold Fog Wafts"@
    } else if c == (1i32, -1i32, 0i32) {
        "Cold Rain Showers"@
    } else if c == (0i32, -1i32, 1i32) {
        "Cold & Cloudy"@
    } else if c == (-1i32, 0i32, 1i32) {
        "Wet Snowfall"@
    } else if c == (-1i32, 1i32, 0i32) {
        "Snowy Rain"@
    } else if c == (0i32, 1i32, -1i32) {
        "Clear & Windy"@
    } else if c == (2i32, 0i32, -2i32) {
        "Sunny & Nippy"@
    } else if c == (2i32, -1i32, -1i32) {
        "Light Drizzle"@
    } else if c == (2i32, -2i32, 0i32) {
        "Heavy Rain"@
    } else if c == (1i32, -2i32, 1i32) {
        "Cold Winds"@
    } else if c == (0i32, -2i32, 2i32) {
        "Icy & Cloudy"@
    } else if c == (-1i32, -1i32, 2i32) {
        "Sleet"@
    } else if c == (-2i32, 0i32, 2i32) {
        "Light Snowfall"@
    } else if c == (-2i32, 1i32, 1i32) {
        "Windy & Snowy"@
    } else if c == (-2i32, 2i32, 0i32) {
        "Blizzard"@
    } else if c == (-1i32, 2i32, -1i32) {
        "Hail"@
    } else if c == (0i32, 2i32, -2i32) {
        "Cold & Clear"@
    } else if c == (1i32, 1i32, -2i32) {
        "Cloudy & Nippy"@
    } else {
        Seq::empty()
    }
}

/// The weather description of a cell in a season.
pub open spec fn weather_text(c: Coord, s: Season) -> Seq<char> {
    match s {
        Season::Spring => spring_weather(c),
        Season::Summer => summer_weather(c),
        Season::Autumn => autumn_weather(c),
        Season::Winter => winter_weather(c),
    }
}

fn spring_weather_name(hex: Coord) -> (r: &'static str)
    requires
        is_cell(hex),
    ensures
        r@ == spring_weather(hex),
{
    match hex {
        (0, 0, 0) => "Clear & Nippy",
        (1, 0, -1) => "Sleet",
        (1, -1, 0) => "Hail",
        (0, -1, 1) => "Cold Wafts of Mist",
        (-1, 0, 1) => "Sunny & Clear",
        (-1, 1, 0) => "Cloudy & Warm",
        (0, 1, -1) => "Nippy & Humid",
        (2, 0, -2) => "Heavy Rainfall",
        (2, -1, -1) => "Snowy Rain",
        (2, -2, 0) => "Windy & Snowy",
        (1, -2, 1) => "Heavy Snowfall",
        (0, -2, 2) => "Light Snowfall",
        (-1, -1, 2) => "Cloudy & Dry",
        (-2, 0, 2) => "Pleasantly Warm",
        (-2, 1, 1) => "Strong Pollen Drift",
        (-2, 2, 0) => "Hot & Dry",
        (-1, 2, -1) => "Warm & Humid",
        (0, 2, -2) => "Warm Drizzle",
        (1, 1, -2) => "Short Showers",
        _ => {
            // off the grid: ruled out by `requires`
            assert(false);
            ""
        }
    }
}

fn summer_weather_name(hex: Coord) -> (r: &'static str)
    requires
        is_cell(hex),
    ensures
        r@ == summer_weather(hex),
{
    match hex {
        (0, 0, 0) => "Pleasantly Warm",
        (1, 0, -1) => "Cloudy & Humid",
        (1, -1, 0) => "Cloudy & Windy",
        (0, -1, 1) => "Warm Breeze",
        (-1, 0, 1) => "Hot & Dry",
        (-1, 1, 0) => "Warm & Cloudy",
        (0, 1, -1) => "Short, Warm Showers",
        (2, 0, -2) => "Torrential Rain",
        (2, -1, -1) => "Warm Storm",
        (2, -2, 0) => "Fierce Wind",
        (1, -2, 1) => "Partly Cloudy & Nippy",
        (0, -2, 2) => "Clear & Nippy",
        (-1, -1, 2) => "Sunny & Clear",
        (-2, 0, 2) => "Dry Heat Surges",
        (-2, 1, 1) => "Hot & Windy",
        (-2, 2, 0) => "Hot & Muggy",
        (-1, 2, -1) => "Warm Drizzle",
        (0, 2, -2) => "Warm Rain",
        (1, 1, -2) => "Downpour",
        _ => {
            // off the grid: ruled out by `requires`
            assert(false);
            ""
        }
    }
}

fn autumn_weather_name(hex: Coord) -> (r: &'static str)
    requires
        is_cell(hex),
    ensures
        r@ == autumn_weather(hex),
{
    match hex {
        (0, 0, 0) => "Humid & Cloudy",
        (1, 0, -1) => "Sunny & Clear",
        (1, -1, 0) => "Cold Wafts of Msit",
        (0, -1, 1) => "Thick Fog Soup",
        (-1, 0, 1) => "Rain & Fog",
        (-1, 1, 0) => "Rain & Gusts",
        (0, 1, -1) => "Sunny & Cloudy",
        (2, 0, -2) => "Indian Summer",
        (2, -1, -1) => "Sporadic Gusts",
        (2, -2, 0) => "Cold Winds",
        (1, -2, 1) => "Frosty & Cloudy",
        (0, -2, 2) => "Cloudy & Nippy",
        (-1, -1, 2) => "Windy & Clear",
        (-2, 0, 2) => "Short, Light Showers",
        (-2, 1, 1) => "Heavy Downpour",
        (-2, 2, 0) => "Rainy Windstorm",
        (-1, 2, -1) => "Drizzle",
        (0, 2, -2) => "Sunny & Nippy",
        (1, 1, -2) => "Pleasantly Warm",
        _ => {
            // off the grid: ruled out by `requires`
            assert(false);
            ""
        }
    }
}

fn winter_weather_name(hex: Coord) -> (r: &'static str)
    requires
        is_cell(hex),
    ensures
        r@ == winter_weather(hex),
{
    match hex {
        (0, 0, 0) => "Cold & Humid",
        (1, 0, -1) => "Cold Fog Wafts",
        (1, -1, 0) => "Cold Rain Showers",
        (0, -1, 1) => "Cold & Cloudy",
        (-1, 0, 1) => "Wet Snowfall",
        (-1, 1, 0) => "Snowy Rain",
        (0, 1, -1) => "Clear & Windy",
        (2, 0, -2) => "Sunny & Nippy",
        (2, -1, -1) => "Light Drizzle",
        (2, -2, 0) => "Heavy Rain",
        (1, -2, 1) => "Cold Winds",
        (0, -2, 2) => "Icy & Cloudy",
        (-1, -1, 2) => "Sleet",
        (-2, 0, 2) => "Light Snowfall",
        (-2, 1, 1) => "Windy & Snowy",
        (-2, 2, 0) => "Blizzard",
        (-1, 2, -1) => "Hail",
        (0, 2, -2) => "Cold & Clear",
        (1, 1, -2) => "Cloudy & Nippy",
        _ => {
            // off the grid: ruled out by `requires`
            assert(false);
            ""
        }
    }
}

/// The weather description of `hex` in `season`.
///
/// Every cell of the grid has an entry in every season's table; a cell off
/// the grid is an internal inconsistency that `requires` rules out.
pub fn get_weather_string(hex: Coord, season: Season) -> (r: String)
    requires
        is_cell(hex),
    ensures
        r@ == weather_text(hex, season),
        r@.len() > 0,
{
    proof {
        lemma_weather_defined(hex, season);
    }
    let name = match season {
        Season::Spring => spring_weather_name(hex),
        Season::Summer => summer_weather_name(hex),
        Season::Autumn => autumn_weather_name(hex),
        Season::Winter => winter_weather_name(hex),
    };
    String::from_str(name)
}

/// Every one of the nineteen cells has a non-empty weather description in
/// every season.
pub proof fn lemma_weather_defined(c: Coord, s: Season)
    requires
        is_cell(c),
    ensures
        weather_text(c, s).len() > 0,
{
    reveal_strlit("Blizzard");
    reveal_strlit("Clear & Nippy");
    reveal_strlit("Clear & Windy");
    reveal_strlit("Cloudy & Dry");
    reveal_strlit("Cloudy & Humid");
    reveal_strlit("Cloudy & Nippy");
    reveal_strlit("Cloudy & Warm");
    reveal_strlit("Cloudy & Windy");
    reveal_strlit("Cold & Clear");
    reveal_strlit("Cold & Cloudy");
    reveal_strlit("Cold & Humid");
    reveal_strlit("Cold Fog Wafts");
    reveal_strlit("Cold Rain Showers");
    reveal_strlit("Cold Wafts of Mist");
    reveal_strlit("Cold Wafts of Msit");
    reveal_strlit("Cold Winds");
    reveal_strlit("Downpour");
    reveal_strlit("Drizzle");
    reveal_strlit("Dry Heat Surges");
    reveal_strlit("Fierce Wind");
    reveal_strlit("Frosty & Cloudy");
    reveal_strlit("Hail");
    reveal_strlit("Heavy Downpour");
    reveal_strlit("Heavy Rain");
    reveal_strlit("Heavy Rainfall");
    reveal_strlit("Heavy Snowfall");
    reveal_strlit("Hot & Dry");
    reveal_strlit("Hot & Muggy");
    reveal_strlit("Hot & Windy");
    reveal_strlit("Humid & Cloudy");
    reveal_strlit("Icy & Cloudy");
    reveal_strlit("Indian Summer");
    reveal_strlit("Light Drizzle");
    reveal_strlit("Light Snowfall");
    reveal_strlit("Nippy & Humid");
    reveal_strlit("Partly Cloudy & Nippy");
    reveal_strlit("Pleasantly Warm");
    reveal_strlit("Rain & Fog");
    reveal_strlit("Rain & Gusts");
    reveal_strlit("Rainy Windstorm");
    reveal_strlit("Short Showers");
    reveal_strlit("Short, Light Showers");
    reveal_strlit("Short, Warm Showers");
    reveal_strlit("Sleet");
    reveal_strlit("Snowy Rain");
    reveal_strlit("Sporadic Gusts");
    reveal_strlit("Strong Pollen Drift");
    reveal_strlit("Sunny & Clear");
    reveal_strlit("Sunny & Cloudy");
    reveal_strlit("Sunny & Nippy");
    reveal_strlit("Thick Fog Soup");
    reveal_strlit("Torrential Rain");
    reveal_strlit("Warm & Cloudy");
    reveal_strlit("Warm & Humid");
    reveal_strlit("Warm Breeze");
    reveal_strlit("Warm Drizzle");
    reveal_strlit("Warm Rain");
    reveal_strlit("Warm Storm");
    reveal_strlit("Wet Snowfall");
    reveal_strlit("Windy & Clear");
    reveal_strlit("Windy & Snowy");
}

} // verus!
