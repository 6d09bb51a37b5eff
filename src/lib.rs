//! A bounded random walk over a radius-two hexagonal grid in cube
//! coordinates, whose position selects the weather of the current season.
pub mod hex;
pub mod roll;
pub mod season;
pub mod simulation;
pub mod weather;
pub mod wrap;

pub use hex::{coord_addition, Coord, Direction};
pub use roll::{direction_for_dice, get_move_direction};
pub use season::Season;
pub use simulation::Simulation;
pub use weather::get_weather_string;
pub use wrap::{
    autumn_hex_wrapping, get_new_coord, hex_wraparound, next_coord, spring_hex_wrapping,
    summer_hex_wrapping, winter_hex_wrapping,
};
