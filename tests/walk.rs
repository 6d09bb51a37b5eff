use hex_weather::hex::abs_sum_of;
use hex_weather::{
    autumn_hex_wrapping, coord_addition, direction_for_dice, get_move_direction, get_new_coord,
    get_weather_string, hex_wraparound, next_coord, spring_hex_wrapping, summer_hex_wrapping,
    winter_hex_wrapping, Coord, Direction, Season, Simulation,
};

const CELLS: [Coord; 19] = [
    (0, 0, 0),
    (1, 0, -1),
    (1, -1, 0),
    (0, -1, 1),
    (-1, 0, 1),
    (-1, 1, 0),
    (0, 1, -1),
    (2, 0, -2),
    (2, -1, -1),
    (2, -2, 0),
    (1, -2, 1),
    (0, -2, 2),
    (-1, -1, 2),
    (-2, 0, 2),
    (-2, 1, 1),
    (-2, 2, 0),
    (-1, 2, -1),
    (0, 2, -2),
    (1, 1, -2),
];

const DIRECTIONS: [Direction; 7] = [
    Direction::TopLeft,
    Direction::Top,
    Direction::TopRight,
    Direction::BottomRight,
    Direction::Bottom,
    Direction::BottomLeft,
    Direction::Stay,
];

const SEASONS: [Season; 4] = [Season::Spring, Season::Summer, Season::Autumn, Season::Winter];

fn on_grid(c: Coord) -> bool {
    CELLS.contains(&c)
}

#[test]
fn advance_stays_on_grid() {
    for season in SEASONS {
        let (mut sim, _) = Simulation::initialize(season);
        for _ in 0..500 {
            let (c, s, w) = sim.advance();
            assert_eq!(c.0 + c.1 + c.2, 0);
            let m = abs_sum_of(c);
            assert!(m == 0 || m == 2 || m == 4);
            assert!(on_grid(c));
            assert_eq!(s, season);
            assert!(!w.is_empty());
        }
    }
}

#[test]
fn every_step_from_every_cell_stays_on_grid() {
    for season in SEASONS {
        for c in CELLS {
            for d in DIRECTIONS {
                let r = next_coord(c, season, d);
                assert!(on_grid(r), "{:?} {:?} {:?} -> {:?}", c, season, d, r);
            }
        }
    }
}

#[test]
fn get_new_coord_keeps_season_and_grid() {
    for _ in 0..200 {
        let (c, s) = get_new_coord((2, 0, -2), Season::Autumn);
        assert!(on_grid(c));
        assert_eq!(s, Season::Autumn);
    }
}

#[test]
fn every_cell_has_weather_in_every_season() {
    for season in SEASONS {
        for c in CELLS {
            assert!(!get_weather_string(c, season).is_empty());
        }
    }
}

#[test]
fn weather_table_values() {
    assert_eq!(get_weather_string((0, 0, 0), Season::Spring), "Clear & Nippy");
    assert_eq!(get_weather_string((0, 0, 0), Season::Summer), "Pleasantly Warm");
    assert_eq!(get_weather_string((0, 0, 0), Season::Autumn), "Humid & Cloudy");
    assert_eq!(get_weather_string((0, 0, 0), Season::Winter), "Cold & Humid");
    assert_eq!(get_weather_string((1, -1, 0), Season::Autumn), "Cold Wafts of Msit");
    assert_eq!(get_weather_string((-2, 2, 0), Season::Winter), "Blizzard");
    assert_eq!(get_weather_string((1, 1, -2), Season::Summer), "Downpour");
}

#[test]
fn change_season_resets_coordinate() {
    let (mut sim, _) = Simulation::initialize(Season::Spring);
    sim.advance_with_dice(5, 6);
    sim.advance_with_dice(5, 6);
    assert_eq!(sim.coord, (2, 0, -2));
    let (c, s, w) = sim.change_season(Season::Winter);
    assert_eq!(c, (0, 0, 0));
    assert_eq!(sim.coord, (0, 0, 0));
    assert_eq!(s, Season::Winter);
    assert_eq!(w, "Cold & Humid");
}

#[test]
fn change_season_twice_is_the_same() {
    let (mut sim, _) = Simulation::initialize(Season::Summer);
    sim.advance_with_dice(3, 4);
    let first = sim.change_season(Season::Autumn);
    let second = sim.change_season(Season::Autumn);
    assert_eq!(first, second);
    assert_eq!(first.0, (0, 0, 0));
    assert_eq!(first.2, "Humid & Cloudy");
}

#[test]
fn roll_table() {
    for a in 1u8..=6 {
        for b in 1u8..=6 {
            let d = direction_for_dice(a, b);
            match a + b {
                9 | 10 => assert_eq!(d, Direction::Stay),
                3 | 4 => assert_eq!(d, Direction::BottomLeft),
                2 | 12 => assert_eq!(d, Direction::TopLeft),
                5 | 6 => assert_eq!(d, Direction::Bottom),
                7 => assert_eq!(d, Direction::BottomRight),
                8 => assert_eq!(d, Direction::TopRight),
                11 => assert_eq!(d, Direction::Top),
                _ => unreachable!(),
            }
        }
    }
}

#[test]
fn rolled_directions_vary() {
    let mut seen: Vec<Direction> = Vec::new();
    for _ in 0..500 {
        let d = get_move_direction();
        if !seen.contains(&d) {
            seen.push(d);
        }
    }
    assert!(seen.len() > 1);
}

#[test]
fn center_moves_to_neighbours() {
    for season in SEASONS {
        for d in DIRECTIONS {
            let r = next_coord((0, 0, 0), season, d);
            assert_eq!(r, Direction::get_coord_modifier(d));
            if d != Direction::Stay {
                assert_eq!(abs_sum_of(r), 2);
            } else {
                assert_eq!(r, (0, 0, 0));
            }
        }
    }
}

#[test]
fn outer_cell_clamp_and_wrap() {
    assert_eq!(next_coord((2, 0, -2), Season::Spring, Direction::Top), (2, 0, -2));
    assert_eq!(next_coord((2, 0, -2), Season::Winter, Direction::Top), (2, 0, -2));
    assert_eq!(next_coord((2, 0, -2), Season::Spring, Direction::TopLeft), (2, -2, 0));
    assert_eq!(next_coord((2, 0, -2), Season::Autumn, Direction::Top), (-2, 0, 2));
    assert_eq!(next_coord((2, 0, -2), Season::Autumn, Direction::TopLeft), (2, 0, -2));
    assert_eq!(next_coord((2, 0, -2), Season::Spring, Direction::BottomRight), (2, -1, -1));
}

#[test]
fn spring_walk_scenario() {
    let (mut sim, w) = Simulation::initialize(Season::Spring);
    assert_eq!(sim.coord, (0, 0, 0));
    assert_eq!(w, "Clear & Nippy");
    let (c, s, w) = sim.advance_with_dice(5, 6);
    assert_eq!(c, (1, 0, -1));
    assert_eq!(s, Season::Spring);
    assert_eq!(w, "Sleet");
    let (c, _, w) = sim.advance_with_dice(6, 5);
    assert_eq!(c, (2, 0, -2));
    assert_eq!(w, "Heavy Rainfall");
    assert_eq!(sim.weather(), "Heavy Rainfall");
}

#[test]
fn season_clamps() {
    assert_eq!(spring_hex_wrapping((-2, 1, 1), Direction::BottomLeft), Direction::Stay);
    assert_eq!(spring_hex_wrapping((-2, 1, 1), Direction::Bottom), Direction::Stay);
    assert_eq!(spring_hex_wrapping((-2, 1, 1), Direction::Top), Direction::Top);
    assert_eq!(summer_hex_wrapping((2, -1, -1), Direction::Top), Direction::Stay);
    assert_eq!(summer_hex_wrapping((1, -2, 1), Direction::TopRight), Direction::TopRight);
    assert_eq!(autumn_hex_wrapping((1, 1, -2), Direction::TopLeft), Direction::Stay);
    assert_eq!(autumn_hex_wrapping((0, 2, -2), Direction::Top), Direction::Stay);
    assert_eq!(winter_hex_wrapping((-2, 2, 0), Direction::BottomLeft), Direction::Stay);
    assert_eq!(winter_hex_wrapping((-1, 2, -1), Direction::TopLeft), Direction::TopLeft);
}

#[test]
fn ring_wraps() {
    assert_eq!(hex_wraparound((2, 0, -2), Direction::Top), (-2, 0, 2));
    assert_eq!(hex_wraparound((2, -2, 0), Direction::BottomRight), (2, 0, -2));
    assert_eq!(hex_wraparound((-1, -1, 2), Direction::Bottom), (2, -1, -1));
    assert_eq!(hex_wraparound((1, 1, -2), Direction::Top), (-2, 1, 1));
    assert_eq!(hex_wraparound((1, 1, -2), Direction::Bottom), (0, 1, -1));
    assert_eq!(hex_wraparound((1, 1, -2), Direction::Stay), (1, 1, -2));
}

#[test]
fn coordinate_algebra() {
    assert_eq!(coord_addition((1, -2, 1), (0, 1, -1)), (1, -1, 0));
    assert_eq!(Direction::get_coord_modifier(Direction::BottomLeft), (-1, 1, 0));
    assert_eq!(abs_sum_of((-2, 1, 1)), 4);
    assert_eq!(abs_sum_of((i32::MIN, 0, 0)), 2147483648);
}

#[test]
fn season_list_and_names() {
    assert_eq!(Season::iterator(), vec![Season::Spring, Season::Summer, Season::Autumn, Season::Winter]);
    assert_eq!(Season::Autumn.name(), "Autumn");
    assert_eq!(Direction::BottomRight.label(), "Bottom Right");
}
