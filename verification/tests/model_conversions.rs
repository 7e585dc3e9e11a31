use spotify_tui::credential::Credential;
use spotify_tui::model::{duplicate_tracks, tracks_of_page, PlaylistTrackItem, RemoteCallError,
    Track};
use spotify_tui::nav::{ActiveBlock, RouteId};
use spotify_tui::network::{collect_track_ids, IoEvent, Network, RemoteRequest};
use spotify_tui::state::App;

fn track(id: &str, name: &str) -> Track {
    Track { id: Some(String::from(id)), name: String::from(name), duration_ms: 60_000 }
}

#[test]
fn page_items_unwrap_to_their_tracks_in_order() {
    let items = vec![
        PlaylistTrackItem { track: Some(track("t1", "A")), added_at: String::from("2019-01-01") },
        PlaylistTrackItem { track: Some(track("t2", "B")), added_at: String::from("2019-06-01") },
    ];
    let tracks = tracks_of_page(items);
    assert_eq!(tracks, vec![track("t1", "A"), track("t2", "B")]);
}

#[test]
fn duplicated_tracks_keep_every_field() {
    let original = vec![
        track("t1", "A"),
        Track { id: None, name: String::from("Local"), duration_ms: 5 },
    ];
    let copy = duplicate_tracks(&original);
    assert_eq!(copy, original);
}

#[test]
fn tracks_without_identifiers_ask_for_no_membership() {
    let tracks = vec![Track { id: None, name: String::from("Local"), duration_ms: 5 }];
    assert_eq!(collect_track_ids(&tracks), Vec::<String>::new());

    let mut app = App::new(20, 4);
    let net = Network::new(Credential { token: String::from("token-alpha"), expiry: 0 });
    let check = net.set_tracks_to_table(&mut app, tracks);
    assert_eq!(check, RemoteRequest::SavedTracksContains(Vec::new()));
    assert_eq!(app.track_table.tracks.len(), 1);
    assert_eq!(app.track_table.selected_index, Some(0));
}

#[test]
fn failed_playlist_fetch_routes_the_error() {
    let mut app = App::new(20, 4);
    let net = Network::new(Credential { token: String::from("token-alpha"), expiry: 0 });
    net.get_playlists(
        &mut app,
        Err(RemoteCallError { message: String::from("playlist listing unavailable") }),
    );
    assert_eq!(app.api_error, Some(String::from("playlist listing unavailable")));
    assert_eq!(app.playlists, None);
    assert_eq!(app.selected_playlist_index, None);
}

#[test]
fn failed_playback_poll_routes_the_error() {
    let mut app = App::new(20, 4);
    let net = Network::new(Credential { token: String::from("token-alpha"), expiry: 0 });
    let follow = net.get_current_playback(
        &mut app,
        9,
        Err(RemoteCallError { message: String::from("playback unavailable") }),
    );
    assert_eq!(follow, None);
    assert_eq!(app.api_error, Some(String::from("playback unavailable")));
    assert_eq!(app.current_playback_context, None);
    assert_eq!(app.last_playback_poll, 0);
}

#[test]
fn failed_track_page_fetch_leaves_table_and_navigation_alone() {
    let mut app = App::new(20, 4);
    let net = Network::new(Credential { token: String::from("token-alpha"), expiry: 0 });
    let follow = net.get_playlist_tracks(
        &mut app,
        Err(RemoteCallError { message: String::from("page fetch failed") }),
    );
    assert_eq!(follow, None);
    assert_eq!(app.api_error, Some(String::from("page fetch failed")));
    assert!(app.track_table.tracks.is_empty());
    assert_eq!(app.playlist_tracks, None);
    assert_eq!(app.navigation_stack.depth(), 1);
}

#[test]
fn failed_user_fetch_routes_the_error() {
    let mut app = App::new(20, 4);
    let net = Network::new(Credential { token: String::from("token-alpha"), expiry: 0 });
    net.get_user(
        &mut app,
        Err(RemoteCallError { message: String::from("profile unavailable") }),
    );
    assert_eq!(app.api_error, Some(String::from("profile unavailable")));
    assert_eq!(app.user, None);
}

#[test]
fn app_level_back_navigation_skips_the_search_screen() {
    let mut app = App::new(20, 4);
    app.push_navigation_stack(RouteId::TrackTable, ActiveBlock::TrackTable);
    app.push_navigation_stack(RouteId::Search, ActiveBlock::Input);
    let popped = app.pop_navigation_for_back();
    assert!(popped.is_some());
    assert_eq!(popped.unwrap().id, RouteId::TrackTable);
    assert_eq!(app.get_current_route().id, RouteId::Home);
    assert!(app.pop_navigation_for_back().is_none());
    assert_eq!(app.navigation_stack.depth(), 1);
}

#[test]
fn search_request_carries_term_and_country() {
    let net = Network::new(Credential { token: String::from("token-alpha"), expiry: 0 });
    let request = net.initial_request(&IoEvent::GetSearchResults(
        String::from("abc"),
        Some(String::from("DE")),
    ));
    assert_eq!(
        request,
        Some(RemoteRequest::Search {
            term: String::from("abc"),
            country: Some(String::from("DE")),
            limit: 4,
        })
    );
}
