use spotify_tui::credential::Credential;
use spotify_tui::model::{Album, Artist, Device, Playlist, PlaybackContext, RemoteCallError,
    SearchOk, Track, UserProfile};
use spotify_tui::nav::{ActiveBlock, RouteId};
use spotify_tui::network::{collect_track_ids, IoEvent, Network, RemoteOutcome, RemoteRequest};
use spotify_tui::state::{App, TrackTableContext};
use spotify_tui::model::AuthError;
use spotify_tui::credential::TokenInfo;

fn fresh_app() -> App {
    App::new(20, 4)
}

fn fresh_net() -> Network {
    Network::new(Credential { token: String::from("token-alpha"), expiry: 1000 })
}

fn track(id: &str, name: &str) -> Track {
    Track { id: Some(String::from(id)), name: String::from(name), duration_ms: 180_000 }
}

fn local_track(name: &str) -> Track {
    Track { id: None, name: String::from(name), duration_ms: 95_000 }
}

fn playlist(id: &str, name: &str) -> Playlist {
    Playlist { id: String::from(id), name: String::from(name) }
}

fn remote_error(message: &str) -> RemoteCallError {
    RemoteCallError { message: String::from(message) }
}

#[test]
fn devices_fetch_with_zero_devices_still_pushes_device_screen() {
    let mut app = fresh_app();
    let net = fresh_net();
    net.get_devices(&mut app, Ok(Vec::new()));
    assert_eq!(app.devices, Some(Vec::new()));
    assert_eq!(app.selected_device_index, None);
    assert_eq!(app.navigation_stack.depth(), 2);
    assert_eq!(app.get_current_route().id, RouteId::SelectedDevice);
    assert_eq!(app.get_current_route().active_block, ActiveBlock::SelectDevice);
    assert_eq!(app.api_error, None);
}

#[test]
fn devices_fetch_with_devices_selects_the_first() {
    let mut app = fresh_app();
    let net = fresh_net();
    let devices = vec![
        Device { id: String::from("d1"), name: String::from("Speaker"), is_active: true },
        Device { id: String::from("d2"), name: String::from("Phone"), is_active: false },
    ];
    net.get_devices(&mut app, Ok(devices.clone()));
    assert_eq!(app.devices, Some(devices));
    assert_eq!(app.selected_device_index, Some(0));
    assert_eq!(app.get_current_route().id, RouteId::SelectedDevice);
}

#[test]
fn failed_device_fetch_routes_the_error() {
    let mut app = fresh_app();
    let net = fresh_net();
    net.get_devices(&mut app, Err(remote_error("device listing unavailable")));
    assert_eq!(app.api_error, Some(String::from("device listing unavailable")));
    assert_eq!(app.devices, None);
    assert_eq!(app.navigation_stack.depth(), 1);
}

#[test]
fn playlists_replace_collection_and_reset_cursor() {
    let mut app = fresh_app();
    let net = fresh_net();
    let lists = vec![playlist("p1", "Focus"), playlist("p2", "Morning")];
    net.get_playlists(&mut app, Ok(lists.clone()));
    assert_eq!(app.playlists, Some(lists));
    assert_eq!(app.selected_playlist_index, Some(0));
}

#[test]
fn second_empty_playlist_fetch_clears_the_stale_cursor() {
    let mut app = fresh_app();
    let net = fresh_net();
    let five = vec![
        playlist("p1", "A"),
        playlist("p2", "B"),
        playlist("p3", "C"),
        playlist("p4", "D"),
        playlist("p5", "E"),
    ];
    net.get_playlists(&mut app, Ok(five));
    assert_eq!(app.selected_playlist_index, Some(0));
    net.get_playlists(&mut app, Ok(Vec::new()));
    assert_eq!(app.playlists, Some(Vec::new()));
    assert_eq!(app.selected_playlist_index, None);
}

#[test]
fn playback_without_active_track_updates_context_only() {
    let mut app = fresh_app();
    let net = fresh_net();
    net.current_user_saved_tracks_contains(
        &mut app,
        &vec![String::from("t1")],
        Ok(vec![true]),
    );
    assert!(app.liked_song_ids_set.contains(&String::from("t1")));

    let context = PlaybackContext { track: None, is_playing: false, progress_ms: 0 };
    let follow = net.get_current_playback(&mut app, 777, Ok(Some(context.clone())));
    assert_eq!(follow, None);
    assert_eq!(app.current_playback_context, Some(context));
    assert_eq!(app.last_playback_poll, 777);
    assert!(app.liked_song_ids_set.contains(&String::from("t1")));
}

#[test]
fn playback_with_active_track_owes_a_membership_check() {
    let mut app = fresh_app();
    let net = fresh_net();
    let context = PlaybackContext {
        track: Some(track("t9", "Song")),
        is_playing: true,
        progress_ms: 1000,
    };
    let follow = net.get_current_playback(&mut app, 5, Ok(Some(context)));
    assert_eq!(
        follow,
        Some(RemoteRequest::SavedTracksContains(vec![String::from("t9")]))
    );
    assert_eq!(app.last_playback_poll, 5);
}

#[test]
fn playback_answered_with_nothing_changes_nothing() {
    let mut app = fresh_app();
    let net = fresh_net();
    let follow = net.get_current_playback(&mut app, 5, Ok(None));
    assert_eq!(follow, None);
    assert_eq!(app.current_playback_context, None);
    assert_eq!(app.last_playback_poll, 0);
}

#[test]
fn membership_answers_insert_and_remove_in_asked_order() {
    let mut app = fresh_app();
    let net = fresh_net();
    let ids = vec![String::from("a"), String::from("b"), String::from("c")];
    net.current_user_saved_tracks_contains(&mut app, &ids, Ok(vec![true, false, true]));
    assert!(app.liked_song_ids_set.contains(&String::from("a")));
    assert!(!app.liked_song_ids_set.contains(&String::from("b")));
    assert!(app.liked_song_ids_set.contains(&String::from("c")));

    net.current_user_saved_tracks_contains(
        &mut app,
        &vec![String::from("a")],
        Ok(vec![false]),
    );
    assert!(!app.liked_song_ids_set.contains(&String::from("a")));
}

#[test]
fn failed_membership_check_routes_the_error() {
    let mut app = fresh_app();
    let net = fresh_net();
    net.current_user_saved_tracks_contains(
        &mut app,
        &vec![String::from("a")],
        Err(remote_error("membership check failed")),
    );
    assert_eq!(app.api_error, Some(String::from("membership check failed")));
    assert!(!app.liked_song_ids_set.contains(&String::from("a")));
}

#[test]
fn collect_track_ids_skips_tracks_without_one() {
    let tracks = vec![track("t1", "A"), local_track("B"), track("t3", "C")];
    let ids = collect_track_ids(&tracks);
    assert_eq!(ids, vec![String::from("t1"), String::from("t3")]);
}

#[test]
fn playlist_track_page_fills_table_and_pushes_track_screen() {
    let mut app = fresh_app();
    let net = fresh_net();
    let page = vec![track("t1", "A"), track("t2", "B")];
    let follow = net.get_playlist_tracks(&mut app, Ok(page.clone()));
    assert_eq!(app.track_table.tracks, page);
    assert_eq!(app.track_table.selected_index, Some(0));
    assert_eq!(app.playlist_tracks, Some(page));
    assert_eq!(app.get_current_route().id, RouteId::TrackTable);
    assert_eq!(app.navigation_stack.depth(), 2);
    assert_eq!(
        follow,
        Some(RemoteRequest::SavedTracksContains(vec![
            String::from("t1"),
            String::from("t2"),
        ]))
    );
}

#[test]
fn track_screen_is_not_pushed_twice() {
    let mut app = fresh_app();
    let net = fresh_net();
    net.get_playlist_tracks(&mut app, Ok(vec![track("t1", "A")]));
    assert_eq!(app.navigation_stack.depth(), 2);
    net.get_playlist_tracks(&mut app, Ok(vec![track("t2", "B")]));
    assert_eq!(app.navigation_stack.depth(), 2);
    assert_eq!(app.get_current_route().id, RouteId::TrackTable);
}

#[test]
fn made_for_you_page_lands_in_its_own_collection() {
    let mut app = fresh_app();
    let net = fresh_net();
    let page = vec![track("m1", "Mix")];
    net.get_made_for_you_playlist_tracks(&mut app, Ok(page.clone()));
    assert_eq!(app.made_for_you_tracks, Some(page.clone()));
    assert_eq!(app.track_table.tracks, page);
    assert_eq!(app.playlist_tracks, None);
}

#[test]
fn saved_tracks_mark_context_and_append_page() {
    let mut app = fresh_app();
    let net = fresh_net();
    let page = vec![track("s1", "Kept")];
    net.get_current_user_saved_tracks(&mut app, true, Ok(page.clone()));
    assert_eq!(app.track_table.context, Some(TrackTableContext::SavedTracks));
    assert_eq!(app.saved_track_pages, vec![page]);
    assert_eq!(app.get_current_route().id, RouteId::TrackTable);

    let second = vec![track("s2", "Also kept")];
    net.get_current_user_saved_tracks(&mut app, false, Ok(second.clone()));
    assert_eq!(app.saved_track_pages.len(), 2);
    assert_eq!(app.saved_track_pages[1], second);
    assert_eq!(app.navigation_stack.depth(), 2);
}

#[test]
fn successful_search_replaces_all_four_collections_together() {
    let mut app = fresh_app();
    let net = fresh_net();
    let found = SearchOk {
        tracks: vec![track("t1", "Hit")],
        artists: vec![Artist { id: String::from("ar1"), name: String::from("Band") }],
        albums: vec![Album { id: String::from("al1"), name: String::from("Record") }],
        playlists: vec![playlist("p1", "Found")],
    };
    let follow = net.get_search_results(&mut app, Ok(found));
    assert_eq!(app.search_results.tracks, Some(vec![track("t1", "Hit")]));
    assert!(app.search_results.artists.is_some());
    assert!(app.search_results.albums.is_some());
    assert!(app.search_results.playlists.is_some());
    assert_eq!(app.track_table.tracks, vec![track("t1", "Hit")]);
    assert_eq!(
        follow,
        Some(RemoteRequest::SavedTracksContains(vec![String::from("t1")]))
    );
}

#[test]
fn failed_search_updates_no_collection_and_sets_the_error() {
    let mut app = fresh_app();
    let net = fresh_net();
    let seeded = vec![track("old", "Seeded")];
    net.set_tracks_to_table(&mut app, seeded.clone());
    let follow = net.get_search_results(&mut app, Err(remote_error("artist query failed")));
    assert_eq!(follow, None);
    assert_eq!(app.api_error, Some(String::from("artist query failed")));
    assert_eq!(app.search_results.tracks, None);
    assert_eq!(app.search_results.artists, None);
    assert_eq!(app.search_results.albums, None);
    assert_eq!(app.search_results.playlists, None);
    assert_eq!(app.track_table.tracks, seeded);
}

#[test]
fn refresh_success_swaps_credential_in_place() {
    let mut app = fresh_app();
    let mut net = fresh_net();
    net.refresh_authentication(
        &mut app,
        2000,
        Ok(TokenInfo { access_token: String::from("token-beta"), expires_in: 3600 }),
    );
    assert_eq!(net.credential.token, "token-beta");
    assert_eq!(net.credential.expiry, 2000 + 3600 - 10);
    assert_eq!(app.api_error, None);
}

#[test]
fn refresh_failure_keeps_stale_credential_and_reports() {
    let mut app = fresh_app();
    let mut net = fresh_net();
    net.refresh_authentication(
        &mut app,
        2000,
        Err(AuthError { message: String::from("token exchange refused") }),
    );
    assert_eq!(net.credential.token, "token-alpha");
    assert_eq!(net.credential.expiry, 1000);
    assert_eq!(app.api_error, Some(String::from("token exchange refused")));
}

#[test]
fn fetched_user_profile_is_stored() {
    let mut app = fresh_app();
    let net = fresh_net();
    let user = UserProfile { id: String::from("u1"), display_name: String::from("Listener") };
    net.get_user(&mut app, Ok(user.clone()));
    assert_eq!(app.user, Some(user));
}

#[test]
fn initial_requests_follow_the_command() {
    let net = fresh_net();
    assert_eq!(
        net.initial_request(&IoEvent::GetPlaylists),
        Some(RemoteRequest::Playlists { limit: 20 })
    );
    assert_eq!(
        net.initial_request(&IoEvent::GetDevices),
        Some(RemoteRequest::Devices)
    );
    assert_eq!(
        net.initial_request(&IoEvent::GetSearchResults(String::from("abc"), None)),
        Some(RemoteRequest::Search { term: String::from("abc"), country: None, limit: 4 })
    );
    assert_eq!(
        net.initial_request(&IoEvent::GetPlaylistTracks(String::from("p1"), 40)),
        Some(RemoteRequest::PlaylistTracks {
            playlist_id: String::from("p1"),
            offset: 40,
            limit: 20,
        })
    );
    assert_eq!(
        net.initial_request(&IoEvent::SetTracksToTable(vec![track("t1", "A")])),
        None
    );
    assert_eq!(
        net.initial_request(&IoEvent::GetCurrentSavedTracks(Some(20), true)),
        Some(RemoteRequest::SavedTracks { offset: Some(20), limit: 20 })
    );
}

#[test]
fn playback_follow_up_marks_the_active_track_as_liked() {
    let mut app = fresh_app();
    let mut net = fresh_net();
    let context = PlaybackContext {
        track: Some(track("t7", "Current")),
        is_playing: true,
        progress_ms: 0,
    };
    let follow = net.handle_network_event(
        IoEvent::GetCurrentPlayback,
        &mut app,
        42,
        RemoteOutcome::Playback(Ok(Some(context))),
    );
    // The loop performs the owed membership check and applies its answer.
    match follow {
        Some(RemoteRequest::SavedTracksContains(ids)) => {
            assert_eq!(ids, vec![String::from("t7")]);
            net.current_user_saved_tracks_contains(&mut app, &ids, Ok(vec![true]));
        }
        other => panic!("expected a membership check, got {other:?}"),
    }
    assert!(app.liked_song_ids_set.contains(&String::from("t7")));
    assert_eq!(app.last_playback_poll, 42);
}

#[test]
fn handle_network_event_dispatches_by_command() {
    let mut app = fresh_app();
    let mut net = fresh_net();
    let lists = vec![playlist("p1", "Focus")];
    let follow = net.handle_network_event(
        IoEvent::GetPlaylists,
        &mut app,
        0,
        RemoteOutcome::Playlists(Ok(lists.clone())),
    );
    assert_eq!(follow, Some(RemoteRequest::CurrentUser));
    assert_eq!(app.playlists, Some(lists));

    let follow = net.handle_network_event(
        IoEvent::SetTracksToTable(vec![track("t1", "A"), local_track("B")]),
        &mut app,
        0,
        RemoteOutcome::Nothing,
    );
    assert_eq!(app.track_table.tracks.len(), 2);
    assert_eq!(app.track_table.selected_index, Some(0));
    assert_eq!(
        follow,
        Some(RemoteRequest::SavedTracksContains(vec![String::from("t1")]))
    );
}
