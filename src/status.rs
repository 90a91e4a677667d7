use vstd::prelude::*;

verus! {

/// The watch status a user assigns to a show.
#[derive(Debug, Clone, Copy, PartialEq, Eq, Structural)]
pub enum UserStatusShow {
    Todo,
    Watched,
    Unwatched,
}

/// The watch status a user assigns to a season.
#[derive(Debug, Clone, Copy, PartialEq, Eq, Structural)]
pub enum UserStatusSeason {
    Unfilled,
    OnRelease,
    OtherDate,
}

/// The status that follows `s` in the cycle `Todo -> Watched -> Unwatched -> Todo`.
pub open spec fn show_status_after(s: UserStatusShow) -> UserStatusShow {
    match s {
        UserStatusShow::Todo => UserStatusShow::Watched,
        UserStatusShow::Watched => UserStatusShow::Unwatched,
        UserStatusShow::Unwatched => UserStatusShow::Todo,
    }
}

/// The status that follows `s` in the cycle `Unfilled -> OnRelease -> OtherDate -> Unfilled`.
pub open spec fn season_status_after(s: UserStatusSeason) -> UserStatusSeason {
    match s {
        UserStatusSeason::Unfilled => UserStatusSeason::OnRelease,
        UserStatusSeason::OnRelease => UserStatusSeason::OtherDate,
        UserStatusSeason::OtherDate => UserStatusSeason::Unfilled,
    }
}

impl UserStatusShow {
    /// The next status in the show cycle.
    pub fn cycled(self) -> (r: UserStatusShow)
        ensures
            r == show_status_after(self),
    {
        match self {
            UserStatusShow::Todo => UserStatusShow::Watched,
            UserStatusShow::Watched => UserStatusShow::Unwatched,
            UserStatusShow::Unwatched => UserStatusShow::Todo,
        }
    }
}

impl UserStatusSeason {
    /// The next status in the season cycle.
    pub fn cycled(self) -> (r: UserStatusSeason)
        ensures
            r == season_status_after(self),
    {
        match self {
            UserStatusSeason::Unfilled => UserStatusSeason::OnRelease,
            UserStatusSeason::OnRelease => UserStatusSeason::OtherDate,
            UserStatusSeason::OtherDate => UserStatusSeason::Unfilled,
        }
    }
}

/// Cycling a show's status three times gives back the status it started from.
pub proof fn lemma_show_cycle_returns(s: UserStatusShow)
    ensures
        show_status_after(show_status_after(show_status_after(s))) == s,
{
}

/// Cycling a season's status three times gives back the status it started from.
pub proof fn lemma_season_cycle_returns(s: UserStatusSeason)
    ensures
        season_status_after(season_status_after(season_status_after(s))) == s,
{
}

} // verus!
