use vstd::prelude::*;

verus! {

/// The four seasons, each with its own weather table and edge policy.
#[derive(Clone, Copy, Debug, PartialEq, Eq, Structural)]
pub enum Season {
    Spring,
    Summer,
    Autumn,
    Winter,
}

/// The seasons in the order in which they are offered.
pub open spec fn all_seasons() -> Seq<Season> {
    seq![Season::Spring, Season::Summer, Season::Autumn, Season::Winter]
}

pub open spec fn season_name(s: Season) -> Seq<char> {
    match s {
        Season::Spring => "Spring"@,
        Season::Summer => "Summer"@,
        Season::Autumn => "Autumn"@,
        Season::Winter => "Winter"@,
    }
}

impl Season {
    /// Every season, from spring to winter.
    pub fn iterator() -> (r: Vec<Season>)
        ensures
            r@ == all_seasons(),
    {
        let r = vec![Season::Spring, Season::Summer, Season::Autumn, Season::Winter];
        assert(r@ =~= all_seasons());
        r
    }

    /// The name under which the season is shown.
    pub fn name(&self) -> (r: &'static str)
        ensures
            r@ == season_name(*self),
    {
        match self {
            Season::Spring => "Spring",
            Season::Summer => "Summer",
            Season::Autumn => "Autumn",
            Season::Winter => "Winter",
        }
    }
}

} // verus!
