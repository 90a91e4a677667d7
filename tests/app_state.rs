use showtrack::app::{App, AppError, AppMode, AppShowView};
use showtrack::handler::{
    handle_key_events, handle_mouse_events, Key, KeyPress, MouseAction, PAGE_STEP,
};
use showtrack::models::{ShowDetails, TraktSeason, TraktShow};
use showtrack::selection::{move_backward, move_forward};
use showtrack::status::{UserStatusSeason, UserStatusShow};

fn show(id: &str, title: &str) -> TraktShow {
    TraktShow::new(id.to_string(), title.to_string())
}

fn loaded_app(n: usize) -> App {
    let mut app = App::new();
    let mut shows = Vec::new();
    for i in 0..n {
        shows.push(show(&format!("tt{}", i), &format!("Show {}", i)));
    }
    app.tick(Some(shows)).unwrap();
    app
}

fn seasons(n: i32) -> Vec<TraktSeason> {
    (1..=n).map(|k| TraktSeason::new("tt0".to_string(), k)).collect()
}

fn key(c: char) -> KeyPress {
    KeyPress { key: Key::Char(c), ctrl: false }
}

fn ctrl(c: char) -> KeyPress {
    KeyPress { key: Key::Char(c), ctrl: true }
}

#[test]
fn new_app_is_initializing_and_empty() {
    let app = App::new();
    assert!(app.running);
    assert_eq!(app.mode, AppMode::Initializing);
    assert_eq!(AppMode::default(), AppMode::Initializing);
    assert!(app.shows.is_empty());
    assert_eq!(app.selected_show, None);
    assert_eq!(app.show_view.selected_season, None);
    assert!(app.needs_listing());
}

#[test]
fn first_tick_with_two_shows_enters_main_view() {
    let app = loaded_app(2);
    assert_eq!(app.mode, AppMode::MainView);
    assert_eq!(app.shows.len(), 2);
    assert_eq!(app.scroll_length, 2);
    assert_eq!(app.selected_show, None);
    assert!(!app.needs_listing());
}

#[test]
fn first_tick_with_empty_listing_enters_main_view() {
    let mut app = App::new();
    assert_eq!(app.tick(Some(Vec::new())), Ok(()));
    assert_eq!(app.mode, AppMode::MainView);
    assert!(app.shows.is_empty());
}

#[test]
fn first_tick_without_worker_fails() {
    let mut app = App::new();
    assert_eq!(app.tick(None), Err(AppError::DataManagerUnavailable));
    assert_eq!(app.mode, AppMode::Initializing);
    assert!(app.shows.is_empty());
}

#[test]
fn later_tick_keeps_loaded_shows() {
    let mut app = loaded_app(2);
    assert_eq!(app.tick(None), Ok(()));
    assert_eq!(app.tick(Some(vec![show("x", "X")])), Ok(()));
    assert_eq!(app.shows.len(), 2);
    assert_eq!(app.shows[0].imdb_id, "tt0");
}

#[test]
fn tick_outside_initializing_keeps_mode() {
    let mut app = App::new();
    app.mode = AppMode::HelpWindow;
    app.tick(Some(vec![show("a", "A")])).unwrap();
    assert_eq!(app.mode, AppMode::HelpWindow);
}

#[test]
fn forward_moves_never_leave_the_list() {
    let mut app = loaded_app(3);
    app.next(1);
    assert_eq!(app.selected_show, Some(0));
    assert_eq!(app.scroll_position, 0);
    for _ in 0..10 {
        app.next(1);
        assert!(app.selected_show.unwrap() < 3);
    }
    assert_eq!(app.selected_show, Some(2));
    app.next(usize::MAX);
    assert_eq!(app.selected_show, Some(2));
    assert_eq!(app.scroll_position, 2);
}

#[test]
fn backward_moves_never_go_below_zero() {
    let mut app = loaded_app(5);
    app.prev(1);
    assert_eq!(app.selected_show, Some(4));
    assert_eq!(app.scroll_position, 4);
    app.prev(3);
    assert_eq!(app.selected_show, Some(1));
    for _ in 0..5 {
        app.prev(2);
        assert_eq!(app.selected_show, Some(0));
    }
    app.prev(usize::MAX);
    assert_eq!(app.selected_show, Some(0));
}

#[test]
fn moves_on_an_empty_list_do_nothing() {
    let mut app = App::new();
    app.tick(Some(Vec::new())).unwrap();
    app.next(1);
    app.prev(1);
    app.season_next(1);
    app.season_prev(1);
    assert_eq!(app.selected_show, None);
    assert_eq!(app.show_view.selected_season, None);
}

#[test]
fn selection_functions_clamp() {
    assert_eq!(move_forward(None, 5, 3), Some(0));
    assert_eq!(move_forward(Some(1), 5, 3), Some(2));
    assert_eq!(move_forward(Some(0), 1, 3), Some(1));
    assert_eq!(move_forward(None, 1, 0), None);
    assert_eq!(move_backward(None, 1, 3, 2), Some(2));
    assert_eq!(move_backward(Some(2), 1, 3, 0), Some(1));
    assert_eq!(move_backward(Some(1), 4, 3, 0), Some(0));
    assert_eq!(move_backward(None, 1, 0, 0), None);
}

#[test]
fn season_moves_start_at_first_season() {
    let mut app = loaded_app(1);
    app.enter_season_view(seasons(4));
    app.show_view.selected_season = None;
    app.season_prev(1);
    assert_eq!(app.show_view.selected_season, Some(0));
    app.show_view.selected_season = None;
    app.season_next(2);
    assert_eq!(app.show_view.selected_season, Some(0));
    app.season_next(2);
    assert_eq!(app.show_view.selected_season, Some(2));
    app.season_next(9);
    assert_eq!(app.show_view.selected_season, Some(3));
    app.season_prev(2);
    assert_eq!(app.show_view.selected_season, Some(1));
    app.season_prev(9);
    assert_eq!(app.show_view.selected_season, Some(0));
}

#[test]
fn show_status_cycles_in_three_steps() {
    let start = [UserStatusShow::Todo, UserStatusShow::Watched, UserStatusShow::Unwatched];
    for s in start {
        assert_ne!(s.cycled(), s);
        assert_eq!(s.cycled().cycled().cycled(), s);
    }
    assert_eq!(UserStatusShow::Todo.cycled(), UserStatusShow::Watched);
    assert_eq!(UserStatusShow::Watched.cycled(), UserStatusShow::Unwatched);
    assert_eq!(UserStatusShow::Unwatched.cycled(), UserStatusShow::Todo);
}

#[test]
fn season_status_cycles_in_three_steps() {
    let start = [
        UserStatusSeason::Unfilled,
        UserStatusSeason::OnRelease,
        UserStatusSeason::OtherDate,
    ];
    for s in start {
        assert_ne!(s.cycled(), s);
        assert_eq!(s.cycled().cycled().cycled(), s);
    }
    assert_eq!(UserStatusSeason::Unfilled.cycled(), UserStatusSeason::OnRelease);
    assert_eq!(UserStatusSeason::OnRelease.cycled(), UserStatusSeason::OtherDate);
    assert_eq!(UserStatusSeason::OtherDate.cycled(), UserStatusSeason::Unfilled);
}

#[test]
fn toggling_with_nothing_selected_does_nothing() {
    let mut app = loaded_app(2);
    assert_eq!(app.toggle_watch_status(), None);
    assert_eq!(app.toggle_season_watch_status(), None);
    assert_eq!(app.shows[0].user_status, UserStatusShow::Todo);
    assert_eq!(app.shows[1].user_status, UserStatusShow::Todo);
}

#[test]
fn end_to_end_status_cycle_reports_each_update() {
    let mut app = loaded_app(2);
    app.next(1);
    assert_eq!(app.selected_show, Some(0));
    let mut written = Vec::new();
    for _ in 0..3 {
        let i = app.toggle_watch_status().unwrap();
        written.push(app.shows[i].user_status);
    }
    assert_eq!(
        written,
        vec![UserStatusShow::Watched, UserStatusShow::Unwatched, UserStatusShow::Todo]
    );
    assert_eq!(app.shows[1].user_status, UserStatusShow::Todo);
}

#[test]
fn season_toggle_changes_only_selected_season() {
    let mut app = loaded_app(1);
    app.enter_season_view(seasons(3));
    app.season_next(1);
    assert_eq!(app.toggle_season_watch_status(), Some(1));
    assert_eq!(app.show_view.seasons[1].user_status, UserStatusSeason::OnRelease);
    assert_eq!(app.show_view.seasons[0].user_status, UserStatusSeason::Unfilled);
    assert_eq!(app.show_view.seasons[2].user_status, UserStatusSeason::Unfilled);
}

#[test]
fn details_target_only_in_main_view() {
    let mut app = loaded_app(2);
    assert_eq!(app.show_details_target(), None);
    app.next(1);
    app.next(1);
    assert_eq!(app.show_details_target(), Some(1));
    app.mode = AppMode::SeasonView;
    assert_eq!(app.show_details_target(), None);
}

#[test]
fn detail_merge_assigns_missing_catalog_id() {
    let mut app = loaded_app(2);
    app.next(1);
    let i = app.show_details_target().unwrap();
    let details = ShowDetails {
        overview: "A story".to_string(),
        network: "HBO".to_string(),
        aired_episodes: 73,
        trakt_id: 1390,
    };
    app.merge_show_details(i, details);
    let s = &app.shows[0];
    assert_eq!(s.overview.as_deref(), Some("A story"));
    assert_eq!(s.network.as_deref(), Some("HBO"));
    assert_eq!(s.no_episodes, Some(73));
    assert_eq!(s.trakt_id, Some(1390));
    assert_eq!(app.shows[1].overview, None);
    app.enter_season_view(seasons(8));
    assert_eq!(app.mode, AppMode::SeasonView);
    assert_eq!(app.show_view.seasons.len(), 8);
    assert_eq!(app.show_view.selected_season, Some(0));
}

#[test]
fn detail_merge_keeps_existing_catalog_id() {
    let mut app = loaded_app(1);
    app.shows[0].trakt_id = Some(5);
    let details = ShowDetails {
        overview: String::new(),
        network: "AMC".to_string(),
        aired_episodes: 0,
        trakt_id: 99,
    };
    app.merge_show_details(0, details);
    assert_eq!(app.shows[0].trakt_id, Some(5));
    assert_eq!(app.shows[0].network.as_deref(), Some("AMC"));
    assert_eq!(app.shows[0].no_episodes, Some(0));
}

#[test]
fn season_view_with_no_seasons_selects_nothing() {
    let mut app = loaded_app(1);
    app.enter_season_view(seasons(2));
    assert_eq!(app.show_view.selected_season, Some(0));
    app.enter_season_view(Vec::new());
    assert_eq!(app.mode, AppMode::SeasonView);
    assert_eq!(app.show_view.selected_season, None);
    assert!(app.show_view.seasons.is_empty());
}

#[test]
fn empty_show_view() {
    let v = AppShowView::new();
    assert!(v.seasons.is_empty());
    assert_eq!(v.selected_season, None);
}

#[test]
fn quit_stops_the_app() {
    let mut app = loaded_app(1);
    app.quit();
    assert!(!app.running);
    assert_eq!(app.mode, AppMode::MainView);
}

#[test]
fn keys_in_main_view() {
    let mut app = loaded_app(30);
    assert!(!handle_key_events(KeyPress { key: Key::Down, ctrl: false }, &mut app));
    assert_eq!(app.selected_show, Some(0));
    handle_key_events(ctrl('d'), &mut app);
    assert_eq!(app.selected_show, Some(PAGE_STEP));
    handle_key_events(ctrl('U'), &mut app);
    assert_eq!(app.selected_show, Some(0));
    handle_key_events(key('G'), &mut app);
    assert_eq!(app.selected_show, Some(29));
    handle_key_events(KeyPress { key: Key::Up, ctrl: false }, &mut app);
    assert_eq!(app.selected_show, Some(28));
    handle_key_events(key('g'), &mut app);
    assert_eq!(app.selected_show, Some(0));
    handle_key_events(key('d'), &mut app);
    assert_eq!(app.selected_show, Some(0));
    handle_key_events(key('c'), &mut app);
    assert!(app.running);
    handle_key_events(ctrl('c'), &mut app);
    assert!(!app.running);
}

#[test]
fn quit_keys() {
    let mut a = loaded_app(1);
    handle_key_events(key('q'), &mut a);
    assert!(!a.running);
    let mut b = loaded_app(1);
    handle_key_events(KeyPress { key: Key::Esc, ctrl: false }, &mut b);
    assert!(!b.running);
}

#[test]
fn keys_during_free_text_entry() {
    let mut app = loaded_app(2);
    handle_key_events(KeyPress { key: Key::Tab, ctrl: false }, &mut app);
    assert_eq!(app.mode, AppMode::Querying);
    assert!(handle_key_events(key('q'), &mut app));
    assert!(app.running);
    assert_eq!(app.mode, AppMode::Querying);
    assert!(!handle_key_events(KeyPress { key: Key::Esc, ctrl: false }, &mut app));
    assert!(app.running);
    assert_eq!(app.mode, AppMode::MainView);
    handle_key_events(KeyPress { key: Key::Tab, ctrl: false }, &mut app);
    handle_key_events(KeyPress { key: Key::Enter, ctrl: false }, &mut app);
    assert_eq!(app.mode, AppMode::MainView);
}

#[test]
fn jump_keys_on_empty_list_do_nothing() {
    let mut app = App::new();
    app.tick(Some(Vec::new())).unwrap();
    handle_key_events(key('G'), &mut app);
    handle_key_events(key('g'), &mut app);
    assert_eq!(app.selected_show, None);
}

#[test]
fn mouse_events() {
    let mut app = loaded_app(3);
    app.mode = AppMode::Querying;
    handle_mouse_events(MouseAction::ScrollDown, &mut app);
    assert_eq!(app.mode, AppMode::MainView);
    assert_eq!(app.selected_show, Some(0));
    handle_mouse_events(MouseAction::ScrollDown, &mut app);
    handle_mouse_events(MouseAction::ScrollUp, &mut app);
    assert_eq!(app.selected_show, Some(0));
    handle_mouse_events(MouseAction::Press { row: 3 }, &mut app);
    assert_eq!(app.mode, AppMode::MainView);
    handle_mouse_events(MouseAction::Press { row: 0 }, &mut app);
    assert_eq!(app.mode, AppMode::Querying);
    handle_mouse_events(MouseAction::Other, &mut app);
    assert_eq!(app.mode, AppMode::Querying);
}
