//! The shared application state: the single aggregate that both the
//! rendering loop and the dispatcher read and mutate (under one exclusive
//! lock, which the surrounding process provides). It holds the navigation
//! stack, the displayed collections with their selection cursors, the
//! liked-track membership set, the last playback context, and the current
//! error, if any.

use vstd::prelude::*;
use crate::model::{Album, Artist, Device, Playlist, PlaybackContext, RemoteCallError, Track,
    UserProfile};
use crate::nav::{ActiveBlock, NavStack, Route, RouteId};

verus! {

/// A selection cursor is `None` exactly when its backing collection is
/// empty, and otherwise an index into it.
pub open spec fn cursor_wf(c: Option<usize>, len: nat) -> bool {
    match c {
        None => len == 0,
        Some(i) => 0 < len && (i as nat) < len,
    }
}

/// The cursor a freshly replaced collection gets: its first element, or
/// nothing when it is empty.
pub open spec fn spec_reset_cursor(len: nat) -> Option<usize> {
    if len == 0 {
        None
    } else {
        Some(0usize)
    }
}

/// Recomputes a selection cursor after its backing collection was replaced.
pub fn reset_cursor(len: usize) -> (c: Option<usize>)
    ensures
        c == spec_reset_cursor(len as nat),
{
    if len == 0 {
        None
    } else {
        Some(0)
    }
}

/// A freshly reset cursor always satisfies the cursor invariant: `None` on
/// an empty collection, in `[0, len)` otherwise.
pub proof fn lemma_reset_cursor_wf(len: nat)
    ensures
        cursor_wf(spec_reset_cursor(len), len),
{
}

/// The number of elements behind an optional collection: an absent
/// collection backs nothing.
pub open spec fn opt_len<T>(v: Option<Vec<T>>) -> nat {
    match v {
        None => 0,
        Some(items) => items@.len(),
    }
}

/// Which kind of listing currently fills the track table.
#[derive(Clone, Copy, Debug, PartialEq, Eq, Structural)]
pub enum TrackTableContext {
    MyPlaylists,
    SavedTracks,
    MadeForYou,
}

/// The table of tracks currently displayed, with its selection cursor and
/// the kind of listing it came from.
#[derive(Clone, Debug)]
pub struct TrackTable {
    pub tracks: Vec<Track>,
    pub selected_index: Option<usize>,
    pub context: Option<TrackTableContext>,
}

/// The four result collections of a multi-category search. They are only
/// ever replaced together: a search that fails in any category updates none
/// of them.
#[derive(Clone, Debug)]
pub struct SearchResults {
    pub tracks: Option<Vec<Track>>,
    pub artists: Option<Vec<Artist>>,
    pub albums: Option<Vec<Album>>,
    pub playlists: Option<Vec<Playlist>>,
}

/// The set of track identifiers known to be saved by the user. Mutated
/// incrementally as membership-check results arrive, never wholesale
/// replaced except by explicit re-query.
#[derive(Clone, Debug)]
pub struct LikedIds {
    ids: Vec<String>,
}

impl View for LikedIds {
    type V = Set<Seq<char>>;

    closed spec fn view(&self) -> Set<Seq<char>> {
        Set::new(
            |x: Seq<char>|
                exists|i: int| 0 <= i < self.ids@.len() && #[trigger] self.ids@[i]@ == x,
        )
    }
}

impl LikedIds {
    /// Each identifier is held once.
    pub closed spec fn wf(&self) -> bool {
        forall|i: int, j: int|
            0 <= i < j < self.ids@.len() ==> #[trigger] self.ids@[i]@ != #[trigger] self.ids@[j]@
    }

    /// An empty membership set.
    pub fn new() -> (s: Self)
        ensures
            s@ == Set::<Seq<char>>::empty(),
            s.wf(),
    {
        let s = LikedIds { ids: Vec::new() };
        assert(s@ =~= Set::<Seq<char>>::empty());
        s
    }

    /// Whether the given identifier is known to be saved.
    pub fn contains(&self, id: &String) -> (r: bool)
        ensures
            r == self@.contains(id@),
    {
        let mut i: usize = 0;
        while i < self.ids.len()
            invariant
                i <= self.ids@.len(),
                forall|k: int| 0 <= k < i ==> #[trigger] self.ids@[k]@ != id@,
            decreases self.ids@.len() - i,
        {
            if self.ids[i] == *id {
                return true;
            }
            i = i + 1;
        }
        false
    }

    /// Marks an identifier as saved.
    pub fn insert(&mut self, id: String)
        requires
            old(self).wf(),
        ensures
            final(self).wf(),
            final(self)@ == old(self)@.insert(id@),
    {
        if !self.contains(&id) {
            self.ids.push(id);
            proof {
                let n = self.ids@.len() - 1;
                assert(self.ids@[n]@ == id@);
                assert forall|x: Seq<char>|
                    self@.contains(x) <==> old(self)@.insert(id@).contains(x) by {
                    if self@.contains(x) {
                        let i = choose|i: int|
                            0 <= i < self.ids@.len() && #[trigger] self.ids@[i]@ == x;
                        if i < n {
                            assert(old(self).ids@[i]@ == x);
                        }
                    }
                    if old(self)@.contains(x) {
                        let i = choose|i: int|
                            0 <= i < old(self).ids@.len() && #[trigger] old(self).ids@[i]@ == x;
                        assert(self.ids@[i]@ == x);
                    }
                }
                assert(self@ =~= old(self)@.insert(id@));
            }
        } else {
            proof {
                assert(old(self)@.insert(id@) =~= old(self)@);
            }
        }
    }

    /// Removes an identifier that is no longer saved.
    pub fn remove(&mut self, id: &String)
        requires
            old(self).wf(),
        ensures
            final(self).wf(),
            final(self)@ == old(self)@.remove(id@),
    {
        let mut i: usize = 0;
        while i < self.ids.len()
            invariant
                i <= old(self).ids@.len(),
                *self == *old(self),
                old(self).wf(),
                forall|k: int| 0 <= k < i ==> #[trigger] old(self).ids@[k]@ != id@,
            decreases old(self).ids@.len() - i,
        {
            if self.ids[i] == *id {
                proof {
                    assert(old(self).ids@[i as int]@ == id@);
                }
                self.ids.remove(i);
                proof {
                    let pre = old(self).ids@;
                    pre.remove_ensures(i as int);
                    assert forall|k: int|
                        0 <= k < self.ids@.len() implies #[trigger] self.ids@[k]@ != id@ by {
                        if k < i {
                            assert(self.ids@[k] == pre[k]);
                            assert(self.ids@[k]@ == pre[k]@);
                        } else {
                            assert(self.ids@[k] == pre[k + 1]);
                            assert(self.ids@[k]@ == pre[k + 1]@);
                            assert(pre[i as int]@ == id@);
                        }
                    }
                    assert forall|x: Seq<char>|
                        self@.contains(x) <==> old(self)@.remove(id@).contains(x) by {
                        if self@.contains(x) {
                            let k = choose|k: int|
                                0 <= k < self.ids@.len() && #[trigger] self.ids@[k]@ == x;
                            assert(self.ids@[k]@ != id@);
                            if k < i {
                                assert(pre[k]@ == x);
                            } else {
                                assert(pre[k + 1]@ == x);
                            }
                        }
                        if old(self)@.contains(x) && x != id@ {
                            let k = choose|k: int|
                                0 <= k < pre.len() && #[trigger] pre[k]@ == x;
                            if k < i {
                                assert(self.ids@[k]@ == x);
                            } else {
                                assert(k != i);
                                assert(self.ids@[k - 1] == pre[k]);
                                assert(self.ids@[k - 1]@ == x);
                            }
                        }
                    }
                    assert(self@ =~= old(self)@.remove(id@));
                    assert forall|a: int, b: int|
                        0 <= a < b < self.ids@.len() implies #[trigger] self.ids@[a]@
                        != #[trigger] self.ids@[b]@ by {
                        if b < i {
                            assert(self.ids@[a] == pre[a]);
                            assert(self.ids@[a]@ == pre[a]@);
                            assert(self.ids@[b] == pre[b]);
                            assert(self.ids@[b]@ == pre[b]@);
                        } else if a < i {
                            assert(self.ids@[a] == pre[a]);
                            assert(self.ids@[a]@ == pre[a]@);
                            assert(self.ids@[b] == pre[b + 1]);
                            assert(self.ids@[b]@ == pre[b + 1]@);
                        } else {
                            assert(self.ids@[a] == pre[a + 1]);
                            assert(self.ids@[a]@ == pre[a + 1]@);
                            assert(self.ids@[b] == pre[b + 1]);
                            assert(self.ids@[b]@ == pre[b + 1]@);
                        }
                    }
                }
                return ;
            }
            i = i + 1;
        }
        proof {
            assert(!old(self)@.contains(id@));
            assert(old(self)@.remove(id@) =~= old(self)@);
        }
    }
}

/// The membership set after a bulk check's answers are folded in, front to
/// back: a `true` answer inserts the identifier at the same position, a
/// `false` answer removes it; answers beyond the shorter of the two lists
/// are ignored.
pub open spec fn merged_membership(
    s: Set<Seq<char>>,
    ids: Seq<Seq<char>>,
    saved: Seq<bool>,
) -> Set<Seq<char>>
    decreases ids.len(),
{
    if ids.len() == 0 || saved.len() == 0 {
        s
    } else {
        let s1 = if saved[0] {
            s.insert(ids[0])
        } else {
            s.remove(ids[0])
        };
        merged_membership(s1, ids.drop_first(), saved.drop_first())
    }
}

impl LikedIds {
    /// Folds the answers of a bulk membership check into the set, in the
    /// order the identifiers were asked.
    pub fn merge_membership(&mut self, ids: &Vec<String>, saved: &Vec<bool>)
        requires
            old(self).wf(),
        ensures
            final(self).wf(),
            final(self)@ == merged_membership(old(self)@, ids.deep_view(), saved@),
    {
        let n: usize = if ids.len() < saved.len() {
            ids.len()
        } else {
            saved.len()
        };
        let mut i: usize = 0;
        proof {
            assert(ids.deep_view().skip(0) =~= ids.deep_view());
            assert(saved@.skip(0) =~= saved@);
        }
        while i < n
            invariant
                i <= n,
                n == vstd::math::min(ids@.len() as int, saved@.len() as int),
                self.wf(),
                merged_membership(self@, ids.deep_view().skip(i as int), saved@.skip(i as int))
                    == merged_membership(old(self)@, ids.deep_view(), saved@),
            decreases n - i,
        {
            proof {
                assert(ids.deep_view().skip(i as int)[0] == ids@[i as int]@);
                assert(ids.deep_view().skip(i as int).drop_first() =~= ids.deep_view().skip(
                    i as int + 1,
                ));
                assert(saved@.skip(i as int).drop_first() =~= saved@.skip(i as int + 1));
            }
            if saved[i] {
                self.insert(ids[i].clone());
            } else {
                self.remove(&ids[i]);
            }
            i = i + 1;
        }
        proof {
            if ids.deep_view().skip(i as int).len() != 0 {
                assert(saved@.skip(i as int).len() == 0);
            }
        }
    }
}

/// The single shared aggregate of everything the user interface shows and
/// the dispatcher updates. Exactly one context mutates it at a time; the
/// surrounding process guarantees that by holding one exclusive lock around
/// every access.
#[verifier::ext_equal]
pub struct App {
    pub navigation_stack: NavStack,
    pub user: Option<UserProfile>,
    pub playlists: Option<Vec<Playlist>>,
    pub selected_playlist_index: Option<usize>,
    pub devices: Option<Vec<Device>>,
    pub selected_device_index: Option<usize>,
    pub track_table: TrackTable,
    pub playlist_tracks: Option<Vec<Track>>,
    pub made_for_you_tracks: Option<Vec<Track>>,
    pub saved_track_pages: Vec<Vec<Track>>,
    pub search_results: SearchResults,
    pub liked_song_ids_set: LikedIds,
    pub current_playback_context: Option<PlaybackContext>,
    pub last_playback_poll: u64,
    pub api_error: Option<String>,
    pub large_search_limit: u32,
    pub small_search_limit: u32,
    pub help_menu_max_lines: u32,
}

impl App {
    /// The state invariant: the navigation stack keeps its root, the liked
    /// set holds each identifier once, and every selection cursor is `None`
    /// exactly on an empty backing collection and otherwise in range.
    pub open spec fn wf(&self) -> bool {
        &&& self.navigation_stack.wf()
        &&& self.liked_song_ids_set.wf()
        &&& cursor_wf(self.selected_playlist_index, opt_len(self.playlists))
        &&& cursor_wf(self.selected_device_index, opt_len(self.devices))
        &&& cursor_wf(self.track_table.selected_index, self.track_table.tracks@.len())
    }

    /// A fresh state showing the root screen, with nothing fetched yet.
    pub fn new(large_search_limit: u32, small_search_limit: u32) -> (app: App)
        ensures
            app.wf(),
            app.navigation_stack@ == seq![
                Route { id: RouteId::Home, active_block: ActiveBlock::Empty },
            ],
            app.user is None,
            app.playlists is None,
            app.selected_playlist_index is None,
            app.devices is None,
            app.selected_device_index is None,
            app.track_table.tracks@ == Seq::<Track>::empty(),
            app.track_table.selected_index is None,
            app.track_table.context is None,
            app.playlist_tracks is None,
            app.made_for_you_tracks is None,
            app.saved_track_pages@ == Seq::<Vec<Track>>::empty(),
            app.search_results.tracks is None,
            app.search_results.artists is None,
            app.search_results.albums is None,
            app.search_results.playlists is None,
            app.liked_song_ids_set@ == Set::<Seq<char>>::empty(),
            app.current_playback_context is None,
            app.last_playback_poll == 0,
            app.api_error is None,
            app.large_search_limit == large_search_limit,
            app.small_search_limit == small_search_limit,
    {
        App {
            navigation_stack: NavStack::new(
                Route { id: RouteId::Home, active_block: ActiveBlock::Empty },
            ),
            user: None,
            playlists: None,
            selected_playlist_index: None,
            devices: None,
            selected_device_index: None,
            track_table: TrackTable { tracks: Vec::new(), selected_index: None, context: None },
            playlist_tracks: None,
            made_for_you_tracks: None,
            saved_track_pages: Vec::new(),
            search_results: SearchResults {
                tracks: None,
                artists: None,
                albums: None,
                playlists: None,
            },
            liked_song_ids_set: LikedIds::new(),
            current_playback_context: None,
            last_playback_poll: 0,
            api_error: None,
            large_search_limit,
            small_search_limit,
            help_menu_max_lines: 0,
        }
    }

    /// The entry of the navigation stack currently on top.
    pub fn get_current_route(&self) -> (r: &Route)
        requires
            self.wf(),
        ensures
            *r == self.navigation_stack.spec_top(),
    {
        self.navigation_stack.top()
    }

    /// Drill down to a screen: appends to the navigation history.
    pub fn push_navigation_stack(&mut self, id: RouteId, active_block: ActiveBlock)
        requires
            old(self).navigation_stack.wf(),
        ensures
            final(self).navigation_stack@ == old(self).navigation_stack@.push(
                Route { id, active_block },
            ),
            *final(self) == (App { navigation_stack: final(self).navigation_stack, ..*old(self) }),
            old(self).wf() ==> final(self).wf(),
    {
        self.navigation_stack.push(Route { id, active_block });
    }

    /// Go back one screen; `None` reports underflow on a singleton stack,
    /// which the caller reads as "exit the application".
    pub fn pop_navigation_stack(&mut self) -> (r: Option<Route>)
        requires
            old(self).navigation_stack.wf(),
        ensures
            *final(self) == (App { navigation_stack: final(self).navigation_stack, ..*old(self) }),
            old(self).navigation_stack@.len() == 1 ==> r is None && final(self).navigation_stack@
                == old(self).navigation_stack@,
            old(self).navigation_stack@.len() > 1 ==> r == Some(
                old(self).navigation_stack.spec_top(),
            ) && final(self).navigation_stack@ == old(self).navigation_stack@.drop_last(),
            old(self).wf() ==> final(self).wf(),
    {
        self.navigation_stack.pop()
    }

    /// Back-navigation with the skip-one rule for the transient search
    /// screen.
    pub fn pop_navigation_for_back(&mut self) -> (r: Option<Route>)
        requires
            old(self).navigation_stack.wf(),
        ensures
            *final(self) == (App { navigation_stack: final(self).navigation_stack, ..*old(self) }),
            NavStack::back_applied(old(self).navigation_stack@, final(self).navigation_stack@, r),
            old(self).wf() ==> final(self).wf(),
    {
        self.navigation_stack.pop_for_back()
    }

    /// Routes a failed remote call into the shared error field, from which
    /// the rendering side shows the error screen. No call site may discard
    /// an error silently.
    pub fn handle_error(&mut self, e: RemoteCallError)
        ensures
            *final(self) == (App { api_error: Some(e.message), ..*old(self) }),
            old(self).wf() ==> final(self).wf(),
    {
        self.api_error = Some(e.message);
    }

    /// Replaces the displayed track table and recomputes its selection
    /// cursor; the kind of listing is left to the caller.
    pub fn set_track_table(&mut self, tracks: Vec<Track>)
        ensures
            *final(self) == (App {
                track_table: (TrackTable {
                    tracks: tracks,
                    selected_index: spec_reset_cursor(tracks@.len()),
                    context: old(self).track_table.context,
                }),
                ..*old(self)
            }),
            old(self).wf() ==> final(self).wf(),
    {
        let n = tracks.len();
        self.track_table.tracks = tracks;
        self.track_table.selected_index = reset_cursor(n);
    }

    /// Replaces the playlist collection and recomputes its selection
    /// cursor.
    pub fn replace_playlists(&mut self, items: Vec<Playlist>)
        ensures
            *final(self) == (App {
                playlists: Some(items),
                selected_playlist_index: spec_reset_cursor(items@.len()),
                ..*old(self)
            }),
            old(self).wf() ==> final(self).wf(),
    {
        let n = items.len();
        self.playlists = Some(items);
        self.selected_playlist_index = reset_cursor(n);
    }

    /// Replaces the device collection and recomputes its selection cursor.
    pub fn replace_devices(&mut self, items: Vec<Device>)
        ensures
            *final(self) == (App {
                devices: Some(items),
                selected_device_index: spec_reset_cursor(items@.len()),
                ..*old(self)
            }),
            old(self).wf() ==> final(self).wf(),
    {
        let n = items.len();
        self.devices = Some(items);
        self.selected_device_index = reset_cursor(n);
    }

    /// Records a fresh playback context and the instant it was polled.
    pub fn set_playback(&mut self, context: PlaybackContext, now: u64)
        ensures
            *final(self) == (App {
                current_playback_context: Some(context),
                last_playback_poll: now,
                ..*old(self)
            }),
            old(self).wf() ==> final(self).wf(),
    {
        self.current_playback_context = Some(context);
        self.last_playback_poll = now;
    }
}

} // verus!
