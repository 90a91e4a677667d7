use vstd::prelude::*;

use crate::status::{UserStatusSeason, UserStatusShow};

verus! {

/// A tracked show: its external metadata id, its title, the extended fields that a
/// detail lookup fills in, and the status the user gave it.
#[derive(Debug, Clone)]
pub struct TraktShow {
    pub imdb_id: String,
    pub title: String,
    pub overview: Option<String>,
    pub network: Option<String>,
    pub no_episodes: Option<i32>,
    pub trakt_id: Option<i32>,
    pub user_status: UserStatusShow,
}

/// A numbered season of one show, with the status the user gave it.
#[derive(Debug, Clone)]
pub struct TraktSeason {
    pub show_imdb_id: String,
    pub season_number: i32,
    pub user_status: UserStatusSeason,
}

/// The extended fields of a show as a detail lookup reports them.
#[derive(Debug, Clone)]
pub struct ShowDetails {
    pub overview: String,
    pub network: String,
    pub aired_episodes: i32,
    pub trakt_id: i32,
}

impl TraktShow {
    /// A show as the initial listing knows it: no extended fields, status `Todo`.
    pub fn new(imdb_id: String, title: String) -> (r: TraktShow)
        ensures
            r.imdb_id == imdb_id,
            r.title == title,
            r.overview is None,
            r.network is None,
            r.no_episodes is None,
            r.trakt_id is None,
            r.user_status == UserStatusShow::Todo,
    {
        TraktShow {
            imdb_id,
            title,
            overview: None,
            network: None,
            no_episodes: None,
            trakt_id: None,
            user_status: UserStatusShow::Todo,
        }
    }
}

impl TraktSeason {
    /// A season of the show `show_imdb_id`, status `Unfilled`.
    pub fn new(show_imdb_id: String, season_number: i32) -> (r: TraktSeason)
        ensures
            r.show_imdb_id == show_imdb_id,
            r.season_number == season_number,
            r.user_status == UserStatusSeason::Unfilled,
    {
        TraktSeason { show_imdb_id, season_number, user_status: UserStatusSeason::Unfilled }
    }
}

} // verus!
