//! The dispatcher side: the closed set of commands the rendering loop can
//! request, the remote call each command needs, and the verified
//! application of each remote result to the shared state.
//!
//! The dispatcher consumes commands one at a time. For each command the
//! surrounding process performs the remote call named by
//! [`Network::initial_request`] and hands the outcome to
//! [`Network::handle_network_event`], which applies it to the shared state
//! and may name one follow-up call (a membership check, or the user-profile
//! fetch after the playlist fetch). Every failed call is routed into the
//! shared error field; no call site discards an error silently.

use vstd::prelude::*;
use crate::credential::{spec_token_expiry, Credential, TokenInfo};
use crate::model::{duplicate_tracks, track_views, AuthError, Device, Playlist, PlaybackContext,
    RemoteCallError, SearchOk, Track, TrackView, UserProfile};
use crate::nav::{ActiveBlock, Route, RouteId};
use crate::queue::CommandQueue;
use crate::state::{cursor_wf, merged_membership, spec_reset_cursor, App, SearchResults,
    TrackTableContext};

verus! {

/// A discrete unit of work requested of the dispatcher. Commands are
/// immutable once enqueued and carry every parameter their operation
/// needs.
#[derive(Clone, Debug, PartialEq)]
pub enum IoEvent {
    GetCurrentPlayback,
    RefreshAuthentication,
    GetPlaylists,
    GetDevices,
    GetSearchResults(String, Option<String>),
    SetTracksToTable(Vec<Track>),
    GetMadeForYouPlaylistTracks(String, u32),
    GetPlaylistTracks(String, u32),
    GetCurrentSavedTracks(Option<u32>, bool),
}

/// One remote call the surrounding process is asked to perform. The
/// request carries plain values only; the remote layer's wire format is
/// not this library's concern.
#[derive(Clone, Debug, PartialEq)]
pub enum RemoteRequest {
    CurrentPlayback,
    RefreshToken,
    CurrentUser,
    Playlists { limit: u32 },
    Devices,
    Search { term: String, country: Option<String>, limit: u32 },
    PlaylistTracks { playlist_id: String, offset: u32, limit: u32 },
    SavedTracks { offset: Option<u32>, limit: u32 },
    SavedTracksContains(Vec<String>),
}

/// The outcome of one performed remote call, as plain values.
#[derive(Debug, PartialEq)]
pub enum RemoteOutcome {
    /// For the one command that needs no initial remote call.
    Nothing,
    Playback(Result<Option<PlaybackContext>, RemoteCallError>),
    Token(Result<TokenInfo, AuthError>),
    Playlists(Result<Vec<Playlist>, RemoteCallError>),
    Devices(Result<Vec<Device>, RemoteCallError>),
    Search(Result<SearchOk, RemoteCallError>),
    TrackPage(Result<Vec<Track>, RemoteCallError>),
}

/// The dispatcher's own state: the credential it authorizes calls with and
/// the page sizes it asks for.
pub struct Network {
    pub credential: Credential,
    pub large_search_limit: u32,
    pub small_search_limit: u32,
}

/// The identifiers of the tracks that have one, in order.
pub open spec fn spec_track_ids(s: Seq<TrackView>) -> Seq<Seq<char>>
    decreases s.len(),
{
    if s.len() == 0 {
        Seq::empty()
    } else {
        let rest = spec_track_ids(s.drop_last());
        match s.last().id {
            Some(id) => rest.push(id),
            None => rest,
        }
    }
}

/// Collects the identifiers of the tracks that have one, in order.
pub fn collect_track_ids(tracks: &Vec<Track>) -> (ids: Vec<String>)
    ensures
        ids.deep_view() == spec_track_ids(track_views(tracks@)),
{
    let mut ids: Vec<String> = Vec::new();
    let mut i: usize = 0;
    proof {
        assert(track_views(tracks@.take(0)) =~= Seq::<TrackView>::empty());
        assert(ids.deep_view() =~= spec_track_ids(track_views(tracks@.take(0))));
    }
    while i < tracks.len()
        invariant
            i <= tracks@.len(),
            ids.deep_view() == spec_track_ids(track_views(tracks@.take(i as int))),
        decreases tracks@.len() - i,
    {
        let ghost prev = ids.deep_view();
        match &tracks[i].id {
            Some(s) => {
                ids.push(s.clone());
                proof {
                    assert(ids.deep_view() =~= prev.push(tracks@[i as int]@.id.unwrap()));
                }
            },
            None => {},
        }
        proof {
            let pre_views = track_views(tracks@.take(i as int));
            let cur_views = track_views(tracks@.take(i + 1));
            assert(cur_views.drop_last() =~= pre_views);
            assert(cur_views.last() == tracks@[i as int]@);
        }
        i = i + 1;
    }
    proof {
        assert(tracks@.take(tracks@.len() as int) =~= tracks@);
    }
    ids
}

/// Whether `r` is exactly the membership-check request for `ids`.
pub open spec fn is_contains_request(r: Option<RemoteRequest>, ids: Seq<Seq<char>>) -> bool {
    match r {
        Some(RemoteRequest::SavedTracksContains(v)) => v.deep_view() == ids,
        _ => false,
    }
}

/// The follow-up owed after a fetched track page: the bulk membership
/// check over the page's identifiers on success, nothing on failure.
pub open spec fn page_follow_up(
    result: Result<Vec<Track>, RemoteCallError>,
    follow: Option<RemoteRequest>,
) -> bool {
    match result {
        Ok(page) => is_contains_request(follow, spec_track_ids(track_views(page@))),
        Err(_) => follow is None,
    }
}

/// What applying a fetched user profile does: store it, or route the error.
pub open spec fn user_applied(
    pre: App,
    post: App,
    result: Result<UserProfile, RemoteCallError>,
) -> bool {
    match result {
        Ok(user) => post == (App { user: Some(user), ..pre }),
        Err(e) => post == (App { api_error: Some(e.message), ..pre }),
    }
}

/// What applying a fetched playlist list does: replace the collection and
/// reset its cursor, or route the error.
pub open spec fn playlists_applied(
    pre: App,
    post: App,
    result: Result<Vec<Playlist>, RemoteCallError>,
) -> bool {
    match result {
        Ok(items) => post == (App {
            playlists: Some(items),
            selected_playlist_index: spec_reset_cursor(items@.len()),
            ..pre
        }),
        Err(e) => post == (App { api_error: Some(e.message), ..pre }),
    }
}

/// What applying a fetched device list does: push the device-selection
/// screen (regardless of how many devices came back), replace the
/// collection and reset its cursor; or route the error.
pub open spec fn devices_applied(
    pre: App,
    post: App,
    result: Result<Vec<Device>, RemoteCallError>,
) -> bool {
    match result {
        Ok(items) => {
            &&& post.navigation_stack@ == pre.navigation_stack@.push(
                Route { id: RouteId::SelectedDevice, active_block: ActiveBlock::SelectDevice },
            )
            &&& post == (App {
                navigation_stack: post.navigation_stack,
                devices: Some(items),
                selected_device_index: spec_reset_cursor(items@.len()),
                ..pre
            })
        },
        Err(e) => post == (App { api_error: Some(e.message), ..pre }),
    }
}

/// What applying a playback fetch does: record the context and the poll
/// instant when one came back, nothing when none is active, the error
/// otherwise. The liked set is never touched here; that is the follow-up
/// check's business.
pub open spec fn playback_applied(
    pre: App,
    post: App,
    now: u64,
    result: Result<Option<PlaybackContext>, RemoteCallError>,
) -> bool {
    match result {
        Ok(Some(context)) => post == (App {
            current_playback_context: Some(context),
            last_playback_poll: now,
            ..pre
        }),
        Ok(None) => post == pre,
        Err(e) => post == (App { api_error: Some(e.message), ..pre }),
    }
}

/// The single-track membership check owed after a playback fetch: asked
/// exactly when the returned context carries a track with an identifier.
pub open spec fn playback_follow_up(
    result: Result<Option<PlaybackContext>, RemoteCallError>,
    follow: Option<RemoteRequest>,
) -> bool {
    match result {
        Ok(Some(context)) => match context.track {
            Some(track) => match track.id {
                Some(id) => is_contains_request(follow, seq![id@]),
                None => follow is None,
            },
            None => follow is None,
        },
        _ => follow is None,
    }
}

/// What applying a bulk membership check does: fold the answers into the
/// liked set in asked order, or route the error.
pub open spec fn membership_applied(
    pre: App,
    post: App,
    ids: Seq<Seq<char>>,
    result: Result<Vec<bool>, RemoteCallError>,
) -> bool {
    match result {
        Ok(saved) => {
            &&& post.liked_song_ids_set@ == merged_membership(
                pre.liked_song_ids_set@,
                ids,
                saved@,
            )
            &&& post.liked_song_ids_set.wf()
            &&& post == (App { liked_song_ids_set: post.liked_song_ids_set, ..pre })
        },
        Err(e) => post == (App { api_error: Some(e.message), ..pre }),
    }
}

/// What replacing the displayed track table does: the given tracks, the
/// cursor reset, the kind of listing untouched, everything else as it was.
pub open spec fn table_replaced(pre: App, post: App, tracks: Seq<TrackView>) -> bool {
    &&& track_views(post.track_table.tracks@) == tracks
    &&& post.track_table.selected_index == spec_reset_cursor(tracks.len())
    &&& post.track_table.context == pre.track_table.context
    &&& post == (App { track_table: post.track_table, ..pre })
}

/// The navigation stack after a track page arrived: the track-table screen
/// is pushed only if it was not already on top.
pub open spec fn nav_after_track_page(pre: Seq<Route>, post: Seq<Route>) -> bool {
    if pre.len() >= 1 && pre.last().id != RouteId::TrackTable {
        post == pre.push(Route { id: RouteId::TrackTable, active_block: ActiveBlock::TrackTable })
    } else {
        post == pre
    }
}

/// What applying a fetched playlist track page does: replace the table,
/// keep the page, make sure the track-table screen is on top; or route the
/// error.
pub open spec fn playlist_tracks_applied(
    pre: App,
    post: App,
    result: Result<Vec<Track>, RemoteCallError>,
) -> bool {
    match result {
        Ok(page) => {
            &&& track_views(post.track_table.tracks@) == track_views(page@)
            &&& post.track_table.selected_index == spec_reset_cursor(page@.len())
            &&& post.track_table.context == pre.track_table.context
            &&& post.playlist_tracks == Some(page)
            &&& nav_after_track_page(pre.navigation_stack@, post.navigation_stack@)
            &&& post == (App {
                navigation_stack: post.navigation_stack,
                track_table: post.track_table,
                playlist_tracks: post.playlist_tracks,
                ..pre
            })
        },
        Err(e) => post == (App { api_error: Some(e.message), ..pre }),
    }
}

/// The made-for-you variant of a playlist track page: same shape, stored
/// in its own collection.
pub open spec fn made_for_you_applied(
    pre: App,
    post: App,
    result: Result<Vec<Track>, RemoteCallError>,
) -> bool {
    match result {
        Ok(page) => {
            &&& track_views(post.track_table.tracks@) == track_views(page@)
            &&& post.track_table.selected_index == spec_reset_cursor(page@.len())
            &&& post.track_table.context == pre.track_table.context
            &&& post.made_for_you_tracks == Some(page)
            &&& nav_after_track_page(pre.navigation_stack@, post.navigation_stack@)
            &&& post == (App {
                navigation_stack: post.navigation_stack,
                track_table: post.track_table,
                made_for_you_tracks: post.made_for_you_tracks,
                ..pre
            })
        },
        Err(e) => post == (App { api_error: Some(e.message), ..pre }),
    }
}

/// What applying a saved-library track page does: replace the table, mark
/// it as the saved-tracks listing, append the page to the cached library
/// pages, and push the track-table screen when asked to navigate; or route
/// the error.
pub open spec fn saved_tracks_applied(
    pre: App,
    post: App,
    should_navigate: bool,
    result: Result<Vec<Track>, RemoteCallError>,
) -> bool {
    match result {
        Ok(page) => {
            &&& track_views(post.track_table.tracks@) == track_views(page@)
            &&& post.track_table.selected_index == spec_reset_cursor(page@.len())
            &&& post.track_table.context == Some(TrackTableContext::SavedTracks)
            &&& post.saved_track_pages@ == pre.saved_track_pages@.push(page)
            &&& post.navigation_stack@ == (if should_navigate {
                pre.navigation_stack@.push(
                    Route { id: RouteId::TrackTable, active_block: ActiveBlock::TrackTable },
                )
            } else {
                pre.navigation_stack@
            })
            &&& post == (App {
                navigation_stack: post.navigation_stack,
                track_table: post.track_table,
                saved_track_pages: post.saved_track_pages,
                ..pre
            })
        },
        Err(e) => post == (App { api_error: Some(e.message), ..pre }),
    }
}

/// What applying a four-category search does. The four sub-fetches form
/// one joined operation: on success all four collections are replaced and
/// the track table is filled, in one step; a failure in any category is
/// the whole command's failure, and none of the collections changes.
pub open spec fn search_applied(
    pre: App,
    post: App,
    result: Result<SearchOk, RemoteCallError>,
) -> bool {
    match result {
        Ok(found) => {
            &&& track_views(post.track_table.tracks@) == track_views(found.tracks@)
            &&& post.track_table.selected_index == spec_reset_cursor(found.tracks@.len())
            &&& post.track_table.context == pre.track_table.context
            &&& post.search_results.tracks == Some(found.tracks)
            &&& post.search_results.artists == Some(found.artists)
            &&& post.search_results.albums == Some(found.albums)
            &&& post.search_results.playlists == Some(found.playlists)
            &&& post == (App {
                track_table: post.track_table,
                search_results: post.search_results,
                ..pre
            })
        },
        Err(e) => post == (App { api_error: Some(e.message), ..pre }),
    }
}

/// The follow-up owed after a successful search: the membership check over
/// the found tracks' identifiers.
pub open spec fn search_follow_up(
    result: Result<SearchOk, RemoteCallError>,
    follow: Option<RemoteRequest>,
) -> bool {
    match result {
        Ok(found) => is_contains_request(follow, spec_track_ids(track_views(found.tracks@))),
        Err(_) => follow is None,
    }
}

/// What a credential refresh does: on success the dispatcher holds the new
/// token with its safety-margin expiry and the shared state is untouched;
/// on failure the error is reported and the stale credential stays in use.
pub open spec fn refresh_applied(
    pre_net: Network,
    post_net: Network,
    pre_app: App,
    post_app: App,
    now: u64,
    result: Result<TokenInfo, AuthError>,
) -> bool {
    match result {
        Ok(info) => {
            &&& post_net.credential.token == info.access_token
            &&& post_net.credential.expiry == spec_token_expiry(now, info.expires_in)
            &&& post_net.large_search_limit == pre_net.large_search_limit
            &&& post_net.small_search_limit == pre_net.small_search_limit
            &&& post_app == pre_app
        },
        Err(e) => {
            &&& post_net == pre_net
            &&& post_app == (App { api_error: Some(e.message), ..pre_app })
        },
    }
}

impl Network {
    /// A dispatcher holding the given credential, with the page sizes the
    /// client uses for large listings and for per-category search results.
    pub fn new(credential: Credential) -> (net: Network)
        ensures
            net.credential == credential,
            net.large_search_limit == 20,
            net.small_search_limit == 4,
    {
        Network { credential, large_search_limit: 20, small_search_limit: 4 }
    }

    /// Fetched the signed-in user's profile.
    pub fn get_user(&self, app: &mut App, result: Result<UserProfile, RemoteCallError>)
        requires
            old(app).wf(),
        ensures
            final(app).wf(),
            user_applied(*old(app), *final(app), result),
    {
        match result {
            Ok(user) => {
                app.user = Some(user);
            },
            Err(e) => {
                app.handle_error(e);
            },
        }
    }

    /// Fetched the playlist list.
    pub fn get_playlists(&self, app: &mut App, result: Result<Vec<Playlist>, RemoteCallError>)
        requires
            old(app).wf(),
        ensures
            final(app).wf(),
            playlists_applied(*old(app), *final(app), result),
    {
        match result {
            Ok(items) => {
                app.replace_playlists(items);
            },
            Err(e) => {
                app.handle_error(e);
            },
        }
    }

    /// Fetched the device list. The device-selection screen is pushed
    /// whether or not any device came back.
    pub fn get_devices(&self, app: &mut App, result: Result<Vec<Device>, RemoteCallError>)
        requires
            old(app).wf(),
        ensures
            final(app).wf(),
            devices_applied(*old(app), *final(app), result),
    {
        match result {
            Ok(items) => {
                app.push_navigation_stack(RouteId::SelectedDevice, ActiveBlock::SelectDevice);
                app.replace_devices(items);
            },
            Err(e) => {
                app.handle_error(e);
            },
        }
    }

    /// Fetched the current playback. A context with an identified active
    /// track owes a single-track membership check as follow-up.
    pub fn get_current_playback(
        &self,
        app: &mut App,
        now: u64,
        result: Result<Option<PlaybackContext>, RemoteCallError>,
    ) -> (follow: Option<RemoteRequest>)
        requires
            old(app).wf(),
        ensures
            final(app).wf(),
            playback_applied(*old(app), *final(app), now, result),
            playback_follow_up(result, follow),
    {
        match result {
            Ok(opt_context) => match opt_context {
                Some(context) => {
                    let follow = match &context.track {
                        Some(track) => match &track.id {
                            Some(id) => {
                                let mut ids: Vec<String> = Vec::new();
                                ids.push(id.clone());
                                proof {
                                    assert(ids.deep_view() =~= seq![id@]);
                                }
                                Some(RemoteRequest::SavedTracksContains(ids))
                            },
                            None => None,
                        },
                        None => None,
                    };
                    app.set_playback(context, now);
                    follow
                },
                None => None,
            },
            Err(e) => {
                app.handle_error(e);
                None
            },
        }
    }

    /// Answered a bulk membership check: fold the answers into the liked
    /// set, in the order the identifiers were asked.
    pub fn current_user_saved_tracks_contains(
        &self,
        app: &mut App,
        ids: &Vec<String>,
        result: Result<Vec<bool>, RemoteCallError>,
    )
        requires
            old(app).wf(),
        ensures
            final(app).wf(),
            membership_applied(*old(app), *final(app), ids.deep_view(), result),
    {
        match result {
            Ok(saved) => {
                app.liked_song_ids_set.merge_membership(ids, &saved);
            },
            Err(e) => {
                app.handle_error(e);
            },
        }
    }

    /// Replaces the displayed track table and names the membership check
    /// owed for the new contents.
    pub fn set_tracks_to_table(&self, app: &mut App, tracks: Vec<Track>) -> (check: RemoteRequest)
        requires
            old(app).wf(),
        ensures
            final(app).wf(),
            table_replaced(*old(app), *final(app), track_views(tracks@)),
            is_contains_request(Some(check), spec_track_ids(track_views(tracks@))),
    {
        let ids = collect_track_ids(&tracks);
        app.set_track_table(tracks);
        RemoteRequest::SavedTracksContains(ids)
    }

    /// Fetched a page of a playlist's tracks.
    pub fn get_playlist_tracks(
        &self,
        app: &mut App,
        result: Result<Vec<Track>, RemoteCallError>,
    ) -> (follow: Option<RemoteRequest>)
        requires
            old(app).wf(),
        ensures
            final(app).wf(),
            playlist_tracks_applied(*old(app), *final(app), result),
            page_follow_up(result, follow),
    {
        match result {
            Ok(page) => {
                let table = duplicate_tracks(&page);
                let check = self.set_tracks_to_table(app, table);
                app.playlist_tracks = Some(page);
                if app.get_current_route().id != RouteId::TrackTable {
                    app.push_navigation_stack(RouteId::TrackTable, ActiveBlock::TrackTable);
                }
                Some(check)
            },
            Err(e) => {
                app.handle_error(e);
                None
            },
        }
    }

    /// Fetched a page of a made-for-you playlist's tracks.
    pub fn get_made_for_you_playlist_tracks(
        &self,
        app: &mut App,
        result: Result<Vec<Track>, RemoteCallError>,
    ) -> (follow: Option<RemoteRequest>)
        requires
            old(app).wf(),
        ensures
            final(app).wf(),
            made_for_you_applied(*old(app), *final(app), result),
            page_follow_up(result, follow),
    {
        match result {
            Ok(page) => {
                let table = duplicate_tracks(&page);
                let check = self.set_tracks_to_table(app, table);
                app.made_for_you_tracks = Some(page);
                if app.get_current_route().id != RouteId::TrackTable {
                    app.push_navigation_stack(RouteId::TrackTable, ActiveBlock::TrackTable);
                }
                Some(check)
            },
            Err(e) => {
                app.handle_error(e);
                None
            },
        }
    }

    /// Fetched a page of the user's saved tracks.
    pub fn get_current_user_saved_tracks(
        &self,
        app: &mut App,
        should_navigate: bool,
        result: Result<Vec<Track>, RemoteCallError>,
    ) -> (follow: Option<RemoteRequest>)
        requires
            old(app).wf(),
        ensures
            final(app).wf(),
            saved_tracks_applied(*old(app), *final(app), should_navigate, result),
            page_follow_up(result, follow),
    {
        match result {
            Ok(page) => {
                let table = duplicate_tracks(&page);
                let check = self.set_tracks_to_table(app, table);
                app.track_table.context = Some(TrackTableContext::SavedTracks);
                app.saved_track_pages.push(page);
                if should_navigate {
                    app.push_navigation_stack(RouteId::TrackTable, ActiveBlock::TrackTable);
                }
                Some(check)
            },
            Err(e) => {
                app.handle_error(e);
                None
            },
        }
    }

    /// Answered a four-category search, joined: all four collections
    /// replace their predecessors together, or none does.
    pub fn get_search_results(
        &self,
        app: &mut App,
        result: Result<SearchOk, RemoteCallError>,
    ) -> (follow: Option<RemoteRequest>)
        requires
            old(app).wf(),
        ensures
            final(app).wf(),
            search_applied(*old(app), *final(app), result),
            search_follow_up(result, follow),
    {
        match result {
            Ok(found) => {
                let table = duplicate_tracks(&found.tracks);
                let check = self.set_tracks_to_table(app, table);
                let SearchOk { tracks, artists, albums, playlists } = found;
                app.search_results = SearchResults {
                    tracks: Some(tracks),
                    artists: Some(artists),
                    albums: Some(albums),
                    playlists: Some(playlists),
                };
                Some(check)
            },
            Err(e) => {
                app.handle_error(e);
                None
            },
        }
    }

    /// Answered a credential refresh: on success the new token and expiry
    /// replace the old in place; on failure the error is surfaced and the
    /// dispatcher keeps serving with the stale credential.
    pub fn refresh_authentication(
        &mut self,
        app: &mut App,
        now: u64,
        result: Result<TokenInfo, AuthError>,
    )
        requires
            old(app).wf(),
            (match result {
                Ok(info) => now + info.expires_in <= u64::MAX,
                Err(_) => true,
            }),
        ensures
            final(app).wf(),
            refresh_applied(*old(self), *final(self), *old(app), *final(app), now, result),
    {
        match result {
            Ok(info) => {
                self.credential = Credential::from_token_info(info, now);
            },
            Err(e) => {
                app.handle_error(RemoteCallError { message: e.message });
            },
        }
    }
}

/// The model of an optional string.
pub open spec fn opt_str_view(o: Option<String>) -> Option<Seq<char>> {
    match o {
        Some(s) => Some(s@),
        None => None,
    }
}

/// Whether `outcome` is the kind of answer the remote call for `cmd`
/// produces.
pub open spec fn outcome_matches(cmd: IoEvent, outcome: RemoteOutcome) -> bool {
    match cmd {
        IoEvent::GetCurrentPlayback => outcome is Playback,
        IoEvent::RefreshAuthentication => outcome is Token,
        IoEvent::GetPlaylists => outcome is Playlists,
        IoEvent::GetDevices => outcome is Devices,
        IoEvent::GetSearchResults(_, _) => outcome is Search,
        IoEvent::SetTracksToTable(_) => outcome is Nothing,
        IoEvent::GetMadeForYouPlaylistTracks(_, _) => outcome is TrackPage,
        IoEvent::GetPlaylistTracks(_, _) => outcome is TrackPage,
        IoEvent::GetCurrentSavedTracks(_, _) => outcome is TrackPage,
    }
}

/// The total mapping from a dispatched command and its remote outcome to
/// what the dispatcher did: how the shared state changed, whether the
/// dispatcher's own credential changed, and which follow-up call is owed.
pub open spec fn event_applied(
    pre_net: Network,
    post_net: Network,
    pre_app: App,
    post_app: App,
    cmd: IoEvent,
    outcome: RemoteOutcome,
    now: u64,
    follow: Option<RemoteRequest>,
) -> bool {
    match (cmd, outcome) {
        (IoEvent::GetCurrentPlayback, RemoteOutcome::Playback(r)) => {
            &&& post_net == pre_net
            &&& playback_applied(pre_app, post_app, now, r)
            &&& playback_follow_up(r, follow)
        },
        (IoEvent::RefreshAuthentication, RemoteOutcome::Token(r)) => {
            &&& refresh_applied(pre_net, post_net, pre_app, post_app, now, r)
            &&& follow is None
        },
        (IoEvent::GetPlaylists, RemoteOutcome::Playlists(r)) => {
            &&& post_net == pre_net
            &&& playlists_applied(pre_app, post_app, r)
            &&& follow == Some(RemoteRequest::CurrentUser)
        },
        (IoEvent::GetDevices, RemoteOutcome::Devices(r)) => {
            &&& post_net == pre_net
            &&& devices_applied(pre_app, post_app, r)
            &&& follow is None
        },
        (IoEvent::GetSearchResults(_, _), RemoteOutcome::Search(r)) => {
            &&& post_net == pre_net
            &&& search_applied(pre_app, post_app, r)
            &&& search_follow_up(r, follow)
        },
        (IoEvent::SetTracksToTable(tracks), RemoteOutcome::Nothing) => {
            &&& post_net == pre_net
            &&& table_replaced(pre_app, post_app, track_views(tracks@))
            &&& is_contains_request(follow, spec_track_ids(track_views(tracks@)))
        },
        (IoEvent::GetPlaylistTracks(_, _), RemoteOutcome::TrackPage(r)) => {
            &&& post_net == pre_net
            &&& playlist_tracks_applied(pre_app, post_app, r)
            &&& page_follow_up(r, follow)
        },
        (IoEvent::GetMadeForYouPlaylistTracks(_, _), RemoteOutcome::TrackPage(r)) => {
            &&& post_net == pre_net
            &&& made_for_you_applied(pre_app, post_app, r)
            &&& page_follow_up(r, follow)
        },
        (IoEvent::GetCurrentSavedTracks(_, should_navigate), RemoteOutcome::TrackPage(r)) => {
            &&& post_net == pre_net
            &&& saved_tracks_applied(pre_app, post_app, should_navigate, r)
            &&& page_follow_up(r, follow)
        },
        _ => false,
    }
}

/// Which remote call the dispatcher needs performed first for `cmd`:
/// exactly one for every command except the one that already carries its
/// data.
pub open spec fn request_for(net: Network, cmd: IoEvent, r: Option<RemoteRequest>) -> bool {
    match cmd {
        IoEvent::GetCurrentPlayback => r == Some(RemoteRequest::CurrentPlayback),
        IoEvent::RefreshAuthentication => r == Some(RemoteRequest::RefreshToken),
        IoEvent::GetPlaylists => r == Some(
            RemoteRequest::Playlists { limit: net.large_search_limit },
        ),
        IoEvent::GetDevices => r == Some(RemoteRequest::Devices),
        IoEvent::GetSearchResults(term, country) => (match r {
            Some(RemoteRequest::Search { term: t, country: c, limit }) => {
                &&& t@ == term@
                &&& opt_str_view(c) == opt_str_view(country)
                &&& limit == net.small_search_limit
            },
            _ => false,
        }),
        IoEvent::SetTracksToTable(_) => r is None,
        IoEvent::GetMadeForYouPlaylistTracks(id, page_offset) => (match r {
            Some(RemoteRequest::PlaylistTracks { playlist_id, offset, limit }) => {
                &&& playlist_id@ == id@
                &&& offset == page_offset
                &&& limit == net.large_search_limit
            },
            _ => false,
        }),
        IoEvent::GetPlaylistTracks(id, page_offset) => (match r {
            Some(RemoteRequest::PlaylistTracks { playlist_id, offset, limit }) => {
                &&& playlist_id@ == id@
                &&& offset == page_offset
                &&& limit == net.large_search_limit
            },
            _ => false,
        }),
        IoEvent::GetCurrentSavedTracks(page_offset, _) => r == Some(
            RemoteRequest::SavedTracks { offset: page_offset, limit: net.large_search_limit },
        ),
    }
}

impl Network {
    /// Names the remote call to perform for a command, before its outcome
    /// can be applied. The command that already carries its data needs
    /// none.
    pub fn initial_request(&self, cmd: &IoEvent) -> (r: Option<RemoteRequest>)
        ensures
            request_for(*self, *cmd, r),
    {
        match cmd {
            IoEvent::GetCurrentPlayback => Some(RemoteRequest::CurrentPlayback),
            IoEvent::RefreshAuthentication => Some(RemoteRequest::RefreshToken),
            IoEvent::GetPlaylists => Some(
                RemoteRequest::Playlists { limit: self.large_search_limit },
            ),
            IoEvent::GetDevices => Some(RemoteRequest::Devices),
            IoEvent::GetSearchResults(term, country) => Some(
                RemoteRequest::Search {
                    term: term.clone(),
                    country: match country {
                        Some(c) => Some(c.clone()),
                        None => None,
                    },
                    limit: self.small_search_limit,
                },
            ),
            IoEvent::SetTracksToTable(_) => None,
            IoEvent::GetMadeForYouPlaylistTracks(id, page_offset) => Some(
                RemoteRequest::PlaylistTracks {
                    playlist_id: id.clone(),
                    offset: *page_offset,
                    limit: self.large_search_limit,
                },
            ),
            IoEvent::GetPlaylistTracks(id, page_offset) => Some(
                RemoteRequest::PlaylistTracks {
                    playlist_id: id.clone(),
                    offset: *page_offset,
                    limit: self.large_search_limit,
                },
            ),
            IoEvent::GetCurrentSavedTracks(page_offset, _) => Some(
                RemoteRequest::SavedTracks {
                    offset: *page_offset,
                    limit: self.large_search_limit,
                },
            ),
        }
    }

    /// Consumes one command with the outcome of its remote call: applies
    /// the result to the shared state (under the lock the surrounding
    /// process holds for the call's duration) and names the follow-up call
    /// owed, if any. A total, compile-time-checked mapping from command to
    /// handler.
    pub fn handle_network_event(
        &mut self,
        io_event: IoEvent,
        app: &mut App,
        now: u64,
        outcome: RemoteOutcome,
    ) -> (follow: Option<RemoteRequest>)
        requires
            old(app).wf(),
            outcome_matches(io_event, outcome),
            (match outcome {
                RemoteOutcome::Token(Ok(info)) => now + info.expires_in <= u64::MAX,
                _ => true,
            }),
        ensures
            final(app).wf(),
            event_applied(
                *old(self),
                *final(self),
                *old(app),
                *final(app),
                io_event,
                outcome,
                now,
                follow,
            ),
    {
        match (io_event, outcome) {
            (IoEvent::GetCurrentPlayback, RemoteOutcome::Playback(r)) => self.get_current_playback(
                app,
                now,
                r,
            ),
            (IoEvent::RefreshAuthentication, RemoteOutcome::Token(r)) => {
                self.refresh_authentication(app, now, r);
                None
            },
            (IoEvent::GetPlaylists, RemoteOutcome::Playlists(r)) => {
                self.get_playlists(app, r);
                Some(RemoteRequest::CurrentUser)
            },
            (IoEvent::GetDevices, RemoteOutcome::Devices(r)) => {
                self.get_devices(app, r);
                None
            },
            (IoEvent::GetSearchResults(_, _), RemoteOutcome::Search(r)) => self.get_search_results(
                app,
                r,
            ),
            (IoEvent::SetTracksToTable(tracks), RemoteOutcome::Nothing) => {
                let check = self.set_tracks_to_table(app, tracks);
                Some(check)
            },
            (IoEvent::GetPlaylistTracks(_, _), RemoteOutcome::TrackPage(r)) => self
                .get_playlist_tracks(app, r),
            (IoEvent::GetMadeForYouPlaylistTracks(_, _), RemoteOutcome::TrackPage(r)) => self
                .get_made_for_you_playlist_tracks(app, r),
            (IoEvent::GetCurrentSavedTracks(_, should_navigate), RemoteOutcome::TrackPage(r)) => {
                self.get_current_user_saved_tracks(app, should_navigate, r)
            },
            _ => {
                proof {
                    assert(false);
                }
                None
            },
        }
    }

    /// The per-tick scheduled checks, decoupled from rendering: once the
    /// credential's expiry has passed, a refresh is enqueued; once the
    /// polling interval has elapsed since the last playback poll, a
    /// playback fetch is enqueued. Nothing else is ever enqueued by a
    /// tick.
    pub fn schedule_on_tick(
        &self,
        queue: &mut CommandQueue,
        now: u64,
        last_playback_poll: u64,
        poll_interval: u64,
    )
        requires
            last_playback_poll <= now,
        ensures
            final(queue)@ == old(queue)@ + (if now > self.credential.expiry {
                seq![IoEvent::RefreshAuthentication]
            } else {
                Seq::<IoEvent>::empty()
            }) + (if now - last_playback_poll >= poll_interval {
                seq![IoEvent::GetCurrentPlayback]
            } else {
                Seq::<IoEvent>::empty()
            }),
    {
        let ghost q0 = queue@;
        if !self.credential.is_valid(now) {
            queue.enqueue(IoEvent::RefreshAuthentication);
        }
        if now - last_playback_poll >= poll_interval {
            queue.enqueue(IoEvent::GetCurrentPlayback);
        }
        proof {
            assert(queue@ =~= q0 + (if now > self.credential.expiry {
                seq![IoEvent::RefreshAuthentication]
            } else {
                Seq::<IoEvent>::empty()
            }) + (if now - last_playback_poll >= poll_interval {
                seq![IoEvent::GetCurrentPlayback]
            } else {
                Seq::<IoEvent>::empty()
            }));
        }
    }
}

/// What the first rendered frame enqueues: the playlist fetch and a
/// playback poll, and the device fetch when no device is cached from an
/// earlier run.
pub fn startup_commands(has_cached_device: bool, queue: &mut CommandQueue)
    ensures
        final(queue)@ == old(queue)@ + (if has_cached_device {
            seq![IoEvent::GetPlaylists, IoEvent::GetCurrentPlayback]
        } else {
            seq![IoEvent::GetPlaylists, IoEvent::GetCurrentPlayback, IoEvent::GetDevices]
        }),
{
    let ghost q0 = queue@;
    queue.enqueue(IoEvent::GetPlaylists);
    queue.enqueue(IoEvent::GetCurrentPlayback);
    if !has_cached_device {
        queue.enqueue(IoEvent::GetDevices);
    }
    proof {
        if has_cached_device {
            assert(queue@ =~= q0 + seq![
                IoEvent::GetPlaylists,
                IoEvent::GetCurrentPlayback,
            ]);
        } else {
            assert(queue@ =~= q0 + seq![
                IoEvent::GetPlaylists,
                IoEvent::GetCurrentPlayback,
                IoEvent::GetDevices,
            ]);
        }
    }
}

/// The all-or-nothing half of the ordering law: a search that failed in
/// any category leaves every result collection and the track table
/// exactly as they were; only the error field changes.
pub proof fn lemma_search_all_or_nothing(pre: App, post: App, e: RemoteCallError)
    requires
        search_applied(pre, post, Err(e)),
    ensures
        post.search_results == pre.search_results,
        post.track_table == pre.track_table,
        post.liked_song_ids_set == pre.liked_song_ids_set,
        post.api_error == Some(e.message),
{
}

/// A successful playlist fetch re-establishes the cursor invariant: the
/// fresh cursor is `None` exactly on an empty collection and in range
/// otherwise.
pub proof fn lemma_playlists_cursor_in_range(pre: App, post: App, items: Vec<Playlist>)
    requires
        playlists_applied(pre, post, Ok(items)),
    ensures
        cursor_wf(post.selected_playlist_index, items@.len()),
{
}

/// A successful device fetch re-establishes the cursor invariant.
pub proof fn lemma_devices_cursor_in_range(pre: App, post: App, items: Vec<Device>)
    requires
        devices_applied(pre, post, Ok(items)),
    ensures
        cursor_wf(post.selected_device_index, items@.len()),
{
}

/// Any replacement of the track table re-establishes the cursor
/// invariant.
pub proof fn lemma_table_cursor_in_range(pre: App, post: App, tracks: Seq<TrackView>)
    requires
        table_replaced(pre, post, tracks),
    ensures
        cursor_wf(post.track_table.selected_index, post.track_table.tracks@.len()),
{
    assert(track_views(post.track_table.tracks@).len() == post.track_table.tracks@.len());
}

/// No command ever removes entries from the navigation stack: whatever a
/// dispatched command did to the shared state, the old history is a
/// prefix of the new one, and at most one screen was pushed.
pub proof fn lemma_commands_never_pop(
    pre_net: Network,
    post_net: Network,
    pre_app: App,
    post_app: App,
    cmd: IoEvent,
    outcome: RemoteOutcome,
    now: u64,
    follow: Option<RemoteRequest>,
)
    requires
        event_applied(pre_net, post_net, pre_app, post_app, cmd, outcome, now, follow),
    ensures
        pre_app.navigation_stack@.is_prefix_of(post_app.navigation_stack@),
        post_app.navigation_stack@.len() <= pre_app.navigation_stack@.len() + 1,
{
    let pre_nav = pre_app.navigation_stack@;
    let post_nav = post_app.navigation_stack@;
    if post_nav =~= pre_nav {
        assert(pre_nav.is_prefix_of(post_nav));
    } else {
        assert(post_nav.len() == pre_nav.len() + 1);
        assert(post_nav.subrange(0, pre_nav.len() as int) =~= pre_nav);
        assert(pre_nav.is_prefix_of(post_nav));
    }
}

/// Whether each outcome is of the kind its command's remote call produces,
/// and each token answer stays within the clock's range.
pub open spec fn outcomes_match(cmds: Seq<IoEvent>, outcomes: Seq<RemoteOutcome>, now: u64) -> bool {
    &&& outcomes.len() == cmds.len()
    &&& forall|i: int|
        0 <= i < cmds.len() ==> outcome_matches(cmds[i], #[trigger] outcomes[i])
    &&& forall|i: int|
        0 <= i < cmds.len() ==> (match #[trigger] outcomes[i] {
            RemoteOutcome::Token(Ok(info)) => now + info.expires_in <= u64::MAX,
            _ => true,
        })
}

/// The first-in-first-out law of the dispatcher: the states reached from
/// `pre_net`/`pre_app` by applying each command's outcome strictly in
/// enqueue order, the i-th application owing the i-th follow-up. No other
/// order of application satisfies this chain.
pub open spec fn events_applied_in_order(
    pre_net: Network,
    post_net: Network,
    pre_app: App,
    post_app: App,
    cmds: Seq<IoEvent>,
    outcomes: Seq<RemoteOutcome>,
    follows: Seq<Option<RemoteRequest>>,
    now: u64,
) -> bool
    decreases cmds.len(),
{
    &&& outcomes.len() == cmds.len()
    &&& follows.len() == cmds.len()
    &&& if cmds.len() == 0 {
        post_net == pre_net && post_app == pre_app
    } else {
        exists|mid_net: Network, mid_app: App|
            {
                &&& #[trigger] event_applied(
                    pre_net,
                    mid_net,
                    pre_app,
                    mid_app,
                    cmds[0],
                    outcomes[0],
                    now,
                    follows[0],
                )
                &&& events_applied_in_order(
                    mid_net,
                    post_net,
                    mid_app,
                    post_app,
                    cmds.drop_first(),
                    outcomes.drop_first(),
                    follows.drop_first(),
                    now,
                )
            }
    }
}

/// Extending an in-order chain by one applied command at its back keeps it
/// an in-order chain.
pub proof fn lemma_events_applied_snoc(
    n0: Network,
    n1: Network,
    n2: Network,
    a0: App,
    a1: App,
    a2: App,
    cmds: Seq<IoEvent>,
    outcomes: Seq<RemoteOutcome>,
    follows: Seq<Option<RemoteRequest>>,
    cmd: IoEvent,
    outcome: RemoteOutcome,
    follow: Option<RemoteRequest>,
    now: u64,
)
    requires
        events_applied_in_order(n0, n1, a0, a1, cmds, outcomes, follows, now),
        event_applied(n1, n2, a1, a2, cmd, outcome, now, follow),
    ensures
        events_applied_in_order(
            n0,
            n2,
            a0,
            a2,
            cmds.push(cmd),
            outcomes.push(outcome),
            follows.push(follow),
            now,
        ),
    decreases cmds.len(),
{
    let cs = cmds.push(cmd);
    let os = outcomes.push(outcome);
    let fs = follows.push(follow);
    if cmds.len() == 0 {
        assert(cs[0] == cmd);
        assert(os[0] == outcome);
        assert(fs[0] == follow);
        assert(cs.drop_first() =~= Seq::<IoEvent>::empty());
        assert(os.drop_first() =~= Seq::<RemoteOutcome>::empty());
        assert(fs.drop_first() =~= Seq::<Option<RemoteRequest>>::empty());
        assert(event_applied(n0, n2, a0, a2, cs[0], os[0], now, fs[0]));
        assert(events_applied_in_order(
            n2,
            n2,
            a2,
            a2,
            cs.drop_first(),
            os.drop_first(),
            fs.drop_first(),
            now,
        ));
    } else {
        let (mid_net, mid_app) = choose|mid_net: Network, mid_app: App|
            {
                &&& #[trigger] event_applied(
                    n0,
                    mid_net,
                    a0,
                    mid_app,
                    cmds[0],
                    outcomes[0],
                    now,
                    follows[0],
                )
                &&& events_applied_in_order(
                    mid_net,
                    n1,
                    mid_app,
                    a1,
                    cmds.drop_first(),
                    outcomes.drop_first(),
                    follows.drop_first(),
                    now,
                )
            };
        lemma_events_applied_snoc(
            mid_net,
            n1,
            n2,
            mid_app,
            a1,
            a2,
            cmds.drop_first(),
            outcomes.drop_first(),
            follows.drop_first(),
            cmd,
            outcome,
            follow,
            now,
        );
        assert(cs[0] == cmds[0]);
        assert(os[0] == outcomes[0]);
        assert(fs[0] == follows[0]);
        assert(cs.drop_first() =~= cmds.drop_first().push(cmd));
        assert(os.drop_first() =~= outcomes.drop_first().push(outcome));
        assert(fs.drop_first() =~= follows.drop_first().push(follow));
        assert(event_applied(n0, mid_net, a0, mid_app, cs[0], os[0], now, fs[0]));
        assert(events_applied_in_order(
            mid_net,
            n2,
            mid_app,
            a2,
            cs.drop_first(),
            os.drop_first(),
            fs.drop_first(),
            now,
        ));
    }
}

/// Drains the queue, applying each waiting command's outcome to the shared
/// state strictly in enqueue order, and reports each command's owed
/// follow-up call in that same order. The `i`-th outcome answers the
/// `i`-th waiting command.
pub fn run_queued_commands(
    net: &mut Network,
    app: &mut App,
    queue: &mut CommandQueue,
    outcomes: Vec<RemoteOutcome>,
    now: u64,
) -> (follows: Vec<Option<RemoteRequest>>)
    requires
        old(app).wf(),
        outcomes_match(old(queue)@, outcomes@, now),
    ensures
        final(app).wf(),
        final(queue)@.len() == 0,
        events_applied_in_order(
            *old(net),
            *final(net),
            *old(app),
            *final(app),
            old(queue)@,
            outcomes@,
            follows@,
            now,
        ),
{
    let ghost cmds0 = old(queue)@;
    let ghost outs0 = outcomes@;
    let mut outcomes = outcomes;
    let mut follows: Vec<Option<RemoteRequest>> = Vec::new();
    let mut idx: usize = 0;
    let total = queue.len();
    proof {
        assert(cmds0.take(0) =~= Seq::<IoEvent>::empty());
        assert(outs0.take(0) =~= Seq::<RemoteOutcome>::empty());
    }
    while queue.len() > 0
        invariant
            cmds0.len() == total,
            idx <= cmds0.len(),
            idx == follows@.len(),
            queue@ == cmds0.skip(idx as int),
            outcomes@ == outs0.skip(idx as int),
            outs0.len() == cmds0.len(),
            outcomes_match(cmds0, outs0, now),
            app.wf(),
            events_applied_in_order(
                *old(net),
                *net,
                *old(app),
                *app,
                cmds0.take(idx as int),
                outs0.take(idx as int),
                follows@,
                now,
            ),
        decreases cmds0.len() - idx,
    {
        let ghost pre_net = *net;
        let ghost pre_app = *app;
        let cmd = match queue.dequeue() {
            Some(cmd) => cmd,
            None => {
                proof {
                    assert(false);
                }
                return follows;
            },
        };
        proof {
            assert(cmds0.skip(idx as int).first() == cmds0[idx as int]);
            assert(cmds0.skip(idx as int).drop_first() =~= cmds0.skip(idx as int + 1));
            assert(outs0.skip(idx as int).first() == outs0[idx as int]);
            assert(outs0.skip(idx as int).drop_first() =~= outs0.skip(idx as int + 1));
        }
        let outcome = outcomes.remove(0);
        let follow = net.handle_network_event(cmd, app, now, outcome);
        let ghost prev_follows = follows@;
        follows.push(follow);
        proof {
            lemma_events_applied_snoc(
                *old(net),
                pre_net,
                *net,
                *old(app),
                pre_app,
                *app,
                cmds0.take(idx as int),
                outs0.take(idx as int),
                prev_follows,
                cmds0[idx as int],
                outs0[idx as int],
                follow,
                now,
            );
            assert(cmds0.take(idx as int).push(cmds0[idx as int]) =~= cmds0.take(idx as int + 1));
            assert(outs0.take(idx as int).push(outs0[idx as int]) =~= outs0.take(idx as int + 1));
            assert(prev_follows.push(follow) =~= follows@);
        }
        idx = idx + 1;
    }
    proof {
        assert(cmds0.skip(idx as int).len() == 0);
        assert(idx == cmds0.len());
        assert(cmds0.take(idx as int) =~= cmds0);
        assert(outs0.take(idx as int) =~= outs0);
    }
    follows
}

} // verus!
