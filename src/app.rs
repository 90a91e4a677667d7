use vstd::prelude::*;

use crate::models::{ShowDetails, TraktSeason, TraktShow};
use crate::selection::{backward_of, forward_of, move_backward, move_forward, selection_valid};
use crate::status::{season_status_after, show_status_after};

verus! {

/// The top-level view of the app; exactly one is active at a time.
#[derive(Debug, Clone, Copy, PartialEq, Eq, Structural)]
pub enum AppMode {
    /// Loading the initial listing.
    Initializing,
    /// The list of all tracked shows.
    MainView,
    /// Free-text entry.
    Querying,
    /// Key bindings.
    HelpWindow,
    /// The seasons of one show.
    SeasonView,
}

impl Default for AppMode {
    fn default() -> (r: AppMode)
        ensures
            r == AppMode::Initializing,
    {
        AppMode::Initializing
    }
}

/// Why a step of the app could not be carried out.
#[derive(Debug, Clone, Copy, PartialEq, Eq, Structural)]
pub enum AppError {
    /// The background query worker stopped without answering.
    DataManagerUnavailable,
}

/// The detail view of one show: its seasons and the selected one.
#[derive(Debug, Clone)]
pub struct AppShowView {
    pub seasons: Vec<TraktSeason>,
    pub selected_season: Option<usize>,
}

impl AppShowView {
    /// An empty detail view.
    pub fn new() -> (r: AppShowView)
        ensures
            r.seasons@.len() == 0,
            r.selected_season is None,
    {
        AppShowView { seasons: Vec::new(), selected_season: None }
    }
}

/// The state of the app that the renderer and the input layer read.
#[derive(Debug, Clone)]
pub struct App {
    /// Whether the app is still running.
    pub running: bool,
    /// The active view.
    pub mode: AppMode,
    /// The free-text input buffer.
    pub input: String,
    /// The selected show, an index into `shows`.
    pub selected_show: Option<usize>,
    /// The scroll indicator's position over `shows`.
    pub scroll_position: usize,
    /// The scroll indicator's extent.
    pub scroll_length: usize,
    /// Every tracked show, in the order the store listed them.
    pub shows: Vec<TraktShow>,
    /// The seasons of the show whose details are open.
    pub show_view: AppShowView,
}

/// `s` with its status set to `st`.
pub open spec fn show_with_status(s: TraktShow, st: crate::status::UserStatusShow) -> TraktShow {
    TraktShow { user_status: st, ..s }
}

/// `s` with its status set to `st`.
pub open spec fn season_with_status(
    s: TraktSeason,
    st: crate::status::UserStatusSeason,
) -> TraktSeason {
    TraktSeason { user_status: st, ..s }
}

/// `s` with the extended fields of `d` merged in: overview, network and episode
/// count always, the catalog id only where `s` had none.
pub open spec fn show_with_details(s: TraktShow, d: ShowDetails) -> TraktShow {
    TraktShow {
        overview: Some(d.overview),
        network: Some(d.network),
        no_episodes: Some(d.aired_episodes),
        trakt_id: if s.trakt_id is None {
            Some(d.trakt_id)
        } else {
            s.trakt_id
        },
        ..s
    }
}

/// Where the scroll indicator stands after a move that left the selection at `sel`.
pub open spec fn scroll_after(sel: Option<usize>, before: usize) -> usize {
    match sel {
        Some(i) => i,
        None => before,
    }
}

impl App {
    /// Every selection names an item of its list, or is absent.
    pub open spec fn wf(&self) -> bool {
        &&& selection_valid(self.selected_show, self.shows@.len())
        &&& selection_valid(self.show_view.selected_season, self.show_view.seasons@.len())
    }

    /// `self` and `o` agree on everything but the two selections and the scroll position.
    pub open spec fn same_data(&self, o: &App) -> bool {
        &&& self.running == o.running
        &&& self.mode == o.mode
        &&& self.input == o.input
        &&& self.scroll_length == o.scroll_length
        &&& self.shows == o.shows
        &&& self.show_view.seasons == o.show_view.seasons
    }

    /// A running app, initializing, with nothing loaded and nothing selected.
    pub fn new() -> (r: App)
        ensures
            r.wf(),
            r.running,
            r.mode == AppMode::Initializing,
            r.input@.len() == 0,
            r.selected_show is None,
            r.scroll_position == 0,
            r.scroll_length == 0,
            r.shows@.len() == 0,
            r.show_view.seasons@.len() == 0,
            r.show_view.selected_season is None,
    {
        App {
            running: true,
            mode: AppMode::Initializing,
            input: String::new(),
            selected_show: None,
            scroll_position: 0,
            scroll_length: 0,
            shows: Vec::new(),
            show_view: AppShowView::new(),
        }
    }

    /// Whether the next tick needs the listing of the store: no show is loaded yet.
    pub fn needs_listing(&self) -> (r: bool)
        ensures
            r == (self.shows@.len() == 0),
    {
        self.shows.len() == 0
    }

    /// Handles a tick. While no show is loaded, `listing` is the answer of the
    /// background query worker (`None` when it stopped without answering): the
    /// shows are loaded from it and an initializing app moves to the main view.
    /// Once shows are loaded, `listing` is not looked at.
    pub fn tick(&mut self, listing: Option<Vec<TraktShow>>) -> (r: Result<(), AppError>)
        requires
            old(self).wf(),
        ensures
            final(self).wf(),
            old(self).shows@.len() > 0 ==> r is Ok && *final(self) == *old(self),
            old(self).shows@.len() == 0 && listing is None ==> r == Err::<(), AppError>(
                AppError::DataManagerUnavailable,
            ) && *final(self) == *old(self),
            old(self).shows@.len() == 0 && listing is Some ==> {
                &&& r is Ok
                &&& final(self).shows == listing.unwrap()
                &&& final(self).scroll_length == listing.unwrap()@.len()
                &&& final(self).mode == if old(self).mode == AppMode::Initializing {
                    AppMode::MainView
                } else {
                    old(self).mode
                }
                &&& final(self).running == old(self).running
                &&& final(self).input == old(self).input
                &&& final(self).selected_show == old(self).selected_show
                &&& final(self).scroll_position == old(self).scroll_position
                &&& final(self).show_view == old(self).show_view
            },
    {
        if self.shows.len() == 0 {
            match listing {
                Some(items) => {
                    self.scroll_length = items.len();
                    self.shows = items;
                    if let AppMode::Initializing = self.mode {
                        self.mode = AppMode::MainView;
                    }
                    Ok(())
                },
                None => Err(AppError::DataManagerUnavailable),
            }
        } else {
            Ok(())
        }
    }

    /// Stops the app.
    pub fn quit(&mut self)
        ensures
            !final(self).running,
            final(self).mode == old(self).mode,
            final(self).input == old(self).input,
            final(self).selected_show == old(self).selected_show,
            final(self).scroll_position == old(self).scroll_position,
            final(self).scroll_length == old(self).scroll_length,
            final(self).shows == old(self).shows,
            final(self).show_view == old(self).show_view,
    {
        self.running = false;
    }

    /// Moves the show selection `step` shows forward (the first show when none is
    /// selected), held at the last; the scroll indicator follows it.
    pub fn next(&mut self, step: usize)
        requires
            old(self).wf(),
        ensures
            final(self).wf(),
            final(self).same_data(old(self)),
            final(self).selected_show == forward_of(
                old(self).selected_show,
                step as nat,
                old(self).shows@.len(),
            ),
            final(self).scroll_position == scroll_after(
                final(self).selected_show,
                old(self).scroll_position,
            ),
            final(self).show_view.selected_season == old(self).show_view.selected_season,
    {
        let r = move_forward(self.selected_show, step, self.shows.len());
        self.selected_show = r;
        if let Some(i) = r {
            self.scroll_position = i;
        }
    }

    /// Moves the show selection `step` shows back (the last show when none is
    /// selected), held at the first; the scroll indicator follows it.
    pub fn prev(&mut self, step: usize)
        requires
            old(self).wf(),
        ensures
            final(self).wf(),
            final(self).same_data(old(self)),
            final(self).selected_show == backward_of(
                old(self).selected_show,
                step as nat,
                old(self).shows@.len(),
                (old(self).shows@.len() - 1) as usize,
            ),
            final(self).scroll_position == scroll_after(
                final(self).selected_show,
                old(self).scroll_position,
            ),
            final(self).show_view.selected_season == old(self).show_view.selected_season,
    {
        let len = self.shows.len();
        let last: usize = if len > 0 {
            len - 1
        } else {
            0
        };
        let r = move_backward(self.selected_show, step, len, last);
        self.selected_show = r;
        if let Some(i) = r {
            self.scroll_position = i;
        }
    }

    /// Moves the season selection `step` seasons forward (the first season when
    /// none is selected), held at the last.
    pub fn season_next(&mut self, step: usize)
        requires
            old(self).wf(),
        ensures
            final(self).wf(),
            final(self).same_data(old(self)),
            final(self).show_view.selected_season == forward_of(
                old(self).show_view.selected_season,
                step as nat,
                old(self).show_view.seasons@.len(),
            ),
            final(self).selected_show == old(self).selected_show,
            final(self).scroll_position == old(self).scroll_position,
    {
        let r = move_forward(self.show_view.selected_season, step, self.show_view.seasons.len());
        self.show_view.selected_season = r;
    }

    /// Moves the season selection `step` seasons back (the first season when none
    /// is selected), held at the first.
    pub fn season_prev(&mut self, step: usize)
        requires
            old(self).wf(),
        ensures
            final(self).wf(),
            final(self).same_data(old(self)),
            final(self).show_view.selected_season == backward_of(
                old(self).show_view.selected_season,
                step as nat,
                old(self).show_view.seasons@.len(),
                0,
            ),
            final(self).selected_show == old(self).selected_show,
            final(self).scroll_position == old(self).scroll_position,
    {
        let r = move_backward(self.show_view.selected_season, step, self.show_view.seasons.len(), 0);
        self.show_view.selected_season = r;
    }
    /// Cycles the status of the selected show and returns its index, so that the
    /// caller can write that show to the store. With no show selected nothing
    /// changes and `None` comes back.
    pub fn toggle_watch_status(&mut self) -> (r: Option<usize>)
        requires
            old(self).wf(),
        ensures
            final(self).wf(),
            r == old(self).selected_show,
            final(self).selected_show == old(self).selected_show,
            final(self).scroll_position == old(self).scroll_position,
            final(self).show_view == old(self).show_view,
            final(self).running == old(self).running,
            final(self).mode == old(self).mode,
            final(self).input == old(self).input,
            final(self).scroll_length == old(self).scroll_length,
            match r {
                Some(i) => final(self).shows@ == old(self).shows@.update(
                    i as int,
                    show_with_status(
                        old(self).shows@[i as int],
                        show_status_after(old(self).shows@[i as int].user_status),
                    ),
                ),
                None => final(self).shows == old(self).shows,
            },
    {
        match self.selected_show {
            Some(i) => {
                let show = &mut self.shows[i];
                show.user_status = show.user_status.cycled();
                Some(i)
            },
            None => None,
        }
    }

    /// Cycles the status of the selected season and returns its index, so that
    /// the caller can write that season to the store. With no season selected
    /// nothing changes and `None` comes back.
    pub fn toggle_season_watch_status(&mut self) -> (r: Option<usize>)
        requires
            old(self).wf(),
        ensures
            final(self).wf(),
            r == old(self).show_view.selected_season,
            final(self).show_view.selected_season == old(self).show_view.selected_season,
            final(self).selected_show == old(self).selected_show,
            final(self).scroll_position == old(self).scroll_position,
            final(self).shows == old(self).shows,
            final(self).running == old(self).running,
            final(self).mode == old(self).mode,
            final(self).input == old(self).input,
            final(self).scroll_length == old(self).scroll_length,
            match r {
                Some(i) => final(self).show_view.seasons@ == old(self).show_view.seasons@.update(
                    i as int,
                    season_with_status(
                        old(self).show_view.seasons@[i as int],
                        season_status_after(old(self).show_view.seasons@[i as int].user_status),
                    ),
                ),
                None => final(self).show_view.seasons == old(self).show_view.seasons,
            },
    {
        match self.show_view.selected_season {
            Some(i) => {
                let season = &mut self.show_view.seasons[i];
                season.user_status = season.user_status.cycled();
                Some(i)
            },
            None => None,
        }
    }

    /// The show whose details can be opened: the selected show, in the main view.
    pub fn show_details_target(&self) -> (r: Option<usize>)
        requires
            self.wf(),
        ensures
            r == if self.mode == AppMode::MainView {
                self.selected_show
            } else {
                None
            },
            r matches Some(i) ==> i < self.shows@.len(),
    {
        match self.mode {
            AppMode::MainView => self.selected_show,
            _ => None,
        }
    }

    /// Merges the result of a detail lookup into show `i`: overview, network and
    /// episode count are replaced, the catalog id is set where it was missing.
    pub fn merge_show_details(&mut self, i: usize, details: ShowDetails)
        requires
            old(self).wf(),
            i < old(self).shows@.len(),
        ensures
            final(self).wf(),
            final(self).shows@ == old(self).shows@.update(
                i as int,
                show_with_details(old(self).shows@[i as int], details),
            ),
            final(self).selected_show == old(self).selected_show,
            final(self).scroll_position == old(self).scroll_position,
            final(self).show_view == old(self).show_view,
            final(self).running == old(self).running,
            final(self).mode == old(self).mode,
            final(self).input == old(self).input,
            final(self).scroll_length == old(self).scroll_length,
    {
        let show = &mut self.shows[i];
        show.overview = Some(details.overview);
        show.network = Some(details.network);
        show.no_episodes = Some(details.aired_episodes);
        if show.trakt_id.is_none() {
            show.trakt_id = Some(details.trakt_id);
        }
    }

    /// Opens the season view on `seasons`, the season list that the store
    /// reconciled for the show: the first season is selected, or none when the
    /// list is empty.
    pub fn enter_season_view(&mut self, seasons: Vec<TraktSeason>)
        requires
            old(self).wf(),
        ensures
            final(self).wf(),
            final(self).mode == AppMode::SeasonView,
            final(self).show_view.seasons == seasons,
            final(self).show_view.selected_season == if seasons@.len() > 0 {
                Some(0usize)
            } else {
                None
            },
            final(self).shows == old(self).shows,
            final(self).selected_show == old(self).selected_show,
            final(self).scroll_position == old(self).scroll_position,
            final(self).running == old(self).running,
            final(self).input == old(self).input,
            final(self).scroll_length == old(self).scroll_length,
    {
        let sel = if seasons.len() > 0 {
            Some(0usize)
        } else {
            None
        };
        self.show_view.seasons = seasons;
        self.show_view.selected_season = sel;
        self.mode = AppMode::SeasonView;
    }
}

} // verus!
