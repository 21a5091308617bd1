use vstd::prelude::*;

verus! {

/// How many times the search halves the stretch of ray before it stops.
pub const RECURSION_COUNT: u32 = 200;

/// The ray crosses the terrain between two of its points exactly when the
/// first lies above ground and the second under it.
pub fn intersection_in_range(start_under_ground: bool, end_under_ground: bool) -> (r: bool)
    ensures
        r == (!start_under_ground && end_under_ground),
{
    !start_under_ground && end_under_ground
}

/// Where the search for the terrain point under the cursor stands.
#[derive(Debug, Clone, Copy, PartialEq, Eq, Structural)]
pub enum SearchState {
    /// Halving the stretch of ray that holds the crossing; `count` halvings
    /// are done.
    Bisecting { count: u32 },
    /// The ray does not cross the terrain within range.
    NotFound,
}

/// What the caller does next with the current stretch [start, finish].
#[derive(Debug, Clone, Copy, PartialEq, Eq, Structural)]
pub enum SearchAction {
    /// Test whether the crossing lies in the lower half [start, half] and
    /// hand the answer to `step`.
    TestLowerHalf,
    /// Take the point at the middle of the stretch as the terrain point.
    ReportMidpoint,
    /// Report that there is no terrain point.
    ReportNone,
}

/// The half of the stretch that the search keeps.
#[derive(Debug, Clone, Copy, PartialEq, Eq, Structural)]
pub enum Half {
    Lower,
    Upper,
}

pub open spec fn spec_action(s: SearchState) -> SearchAction {
    match s {
        SearchState::Bisecting { count } => if count >= RECURSION_COUNT {
            SearchAction::ReportMidpoint
        } else {
            SearchAction::TestLowerHalf
        },
        SearchState::NotFound => SearchAction::ReportNone,
    }
}

pub open spec fn spec_start(in_range: bool) -> SearchState {
    if in_range {
        SearchState::Bisecting { count: 0 }
    } else {
        SearchState::NotFound
    }
}

/// The state after the lower-half tests whose answers are `answers`, from a
/// search begun with the whole range crossing the terrain.
pub open spec fn state_after(answers: Seq<bool>) -> SearchState
    decreases answers.len(),
{
    if answers.len() == 0 {
        spec_start(true)
    } else {
        match state_after(answers.drop_last()) {
            SearchState::Bisecting { count } => SearchState::Bisecting { count: (count + 1) as u32 },
            SearchState::NotFound => SearchState::NotFound,
        }
    }
}

impl SearchState {
    /// Begins a search: bisection where the whole range crosses the terrain,
    /// otherwise no terrain point.
    pub fn start(in_range: bool) -> (r: SearchState)
        ensures
            r == spec_start(in_range),
    {
        if in_range {
            SearchState::Bisecting { count: 0 }
        } else {
            SearchState::NotFound
        }
    }

    pub fn action(&self) -> (r: SearchAction)
        ensures
            r == spec_action(*self),
    {
        match self {
            SearchState::Bisecting { count } => if *count >= RECURSION_COUNT {
                SearchAction::ReportMidpoint
            } else {
                SearchAction::TestLowerHalf
            },
            SearchState::NotFound => SearchAction::ReportNone,
        }
    }

    /// One halving: keeps the lower half where the crossing lies in it, the
    /// upper half otherwise.
    pub fn step(&self, crossing_in_lower_half: bool) -> (r: (SearchState, Half))
        requires
            spec_action(*self) == SearchAction::TestLowerHalf,
        ensures
            r.0 == (match *self {
                SearchState::Bisecting { count } => SearchState::Bisecting { count: (count + 1) as u32 },
                SearchState::NotFound => SearchState::NotFound,
            }),
            r.1 == (if crossing_in_lower_half {
                Half::Lower
            } else {
                Half::Upper
            }),
    {
        let half = if crossing_in_lower_half {
            Half::Lower
        } else {
            Half::Upper
        };
        match self {
            SearchState::Bisecting { count } => (SearchState::Bisecting { count: *count + 1 }, half),
            SearchState::NotFound => (SearchState::NotFound, half),
        }
    }
}

/// A search that starts in range always runs to the fixed depth: after any
/// `k` answers with `k` below `RECURSION_COUNT` it asks for another test,
/// and after exactly `RECURSION_COUNT` answers it reports the midpoint,
/// whatever the answers were.
pub proof fn lemma_search_runs_to_fixed_depth(answers: Seq<bool>)
    requires
        answers.len() <= RECURSION_COUNT,
    ensures
        state_after(answers) == (SearchState::Bisecting { count: answers.len() as u32 }),
        answers.len() < RECURSION_COUNT ==> spec_action(state_after(answers))
            == SearchAction::TestLowerHalf,
        answers.len() == RECURSION_COUNT ==> spec_action(state_after(answers))
            == SearchAction::ReportMidpoint,
    decreases answers.len(),
{
    if answers.len() > 0 {
        lemma_search_runs_to_fixed_depth(answers.drop_last());
    }
}

} // verus!
