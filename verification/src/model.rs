//! Plain-value models of the domain data the client displays: tracks,
//! playlists, devices, search results, the playback context, and the error
//! values that remote calls can produce.

use vstd::prelude::*;

verus! {

/// A single track: remote identifier (absent for local files) and display
/// data.
#[derive(Clone, Debug, PartialEq)]
pub struct Track {
    pub id: Option<String>,
    pub name: String,
    pub duration_ms: u32,
}

/// Mathematical model of a track: its strings as character sequences.
pub struct TrackView {
    pub id: Option<Seq<char>>,
    pub name: Seq<char>,
    pub duration_ms: u32,
}

impl View for Track {
    type V = TrackView;

    open spec fn view(&self) -> TrackView {
        TrackView {
            id: match self.id {
                Some(s) => Some(s@),
                None => None,
            },
            name: self.name@,
            duration_ms: self.duration_ms,
        }
    }
}

impl Track {
    /// A copy whose model is the same; used where one result feeds two
    /// collections.
    pub fn duplicate(&self) -> (t: Track)
        ensures
            t@ == self@,
    {
        Track {
            id: match &self.id {
                Some(s) => Some(s.clone()),
                None => None,
            },
            name: self.name.clone(),
            duration_ms: self.duration_ms,
        }
    }
}

/// The models of a sequence of tracks, element by element.
pub open spec fn track_views(s: Seq<Track>) -> Seq<TrackView> {
    s.map_values(|t: Track| t@)
}

/// Copies a whole track list, preserving its model.
pub fn duplicate_tracks(v: &Vec<Track>) -> (r: Vec<Track>)
    ensures
        track_views(r@) == track_views(v@),
{
    let mut r: Vec<Track> = Vec::new();
    let mut i: usize = 0;
    while i < v.len()
        invariant
            i <= v.len(),
            track_views(r@) =~= track_views(v@.take(i as int)),
        decreases v.len() - i,
    {
        r.push(v[i].duplicate());
        assert(v@.take(i + 1 as int).drop_last() =~= v@.take(i as int));
        assert(track_views(v@.take(i + 1 as int)) =~= track_views(
            v@.take(i as int),
        ).push(v@[i as int]@));
        i = i + 1;
    }
    assert(v@.take(v@.len() as int) =~= v@);
    assert(track_views(r@) =~= track_views(v@));
    r
}

/// One entry of a fetched playlist page: the track may be absent when the
/// remote no longer carries it.
#[derive(Clone, Debug, PartialEq)]
pub struct PlaylistTrackItem {
    pub track: Option<Track>,
    pub added_at: String,
}

/// Unwraps a fetched playlist page into its tracks. Every entry must
/// carry its track; a page with a missing track is not accepted here.
pub fn tracks_of_page(items: Vec<PlaylistTrackItem>) -> (r: Vec<Track>)
    requires
        forall|i: int| 0 <= i < items@.len() ==> (#[trigger] items@[i].track) is Some,
    ensures
        r@.len() == items@.len(),
        forall|i: int| 0 <= i < items@.len() ==> #[trigger] r@[i] == items@[i].track.unwrap(),
{
    let ghost items0 = items@;
    let mut rest = items;
    let mut r: Vec<Track> = Vec::new();
    proof {
        assert(rest@ =~= items0.skip(0));
    }
    while rest.len() > 0
        invariant
            r@.len() + rest@.len() == items0.len(),
            rest@ =~= items0.skip(r@.len() as int),
            forall|k: int| 0 <= k < items0.len() ==> (#[trigger] items0[k].track) is Some,
            forall|k: int| 0 <= k < r@.len() ==> #[trigger] r@[k] == items0[k].track.unwrap(),
        decreases rest@.len(),
    {
        let ghost done = r@.len() as int;
        proof {
            assert(rest@[0] == items0[done]);
        }
        let item = rest.remove(0);
        match item.track {
            Some(track) => {
                r.push(track);
            },
            None => {
                proof {
                    assert(false);
                }
            },
        }
        proof {
            assert(rest@ =~= items0.skip(done + 1));
        }
    }
    r
}

/// A playlist as listed for the user.
#[derive(Clone, Debug, PartialEq)]
pub struct Playlist {
    pub id: String,
    pub name: String,
}

/// A playback device attached to the account.
#[derive(Clone, Debug, PartialEq)]
pub struct Device {
    pub id: String,
    pub name: String,
    pub is_active: bool,
}

/// An artist as returned by a search.
#[derive(Clone, Debug, PartialEq)]
pub struct Artist {
    pub id: String,
    pub name: String,
}

/// An album as returned by a search.
#[derive(Clone, Debug, PartialEq)]
pub struct Album {
    pub id: String,
    pub name: String,
}

/// The signed-in user's profile.
#[derive(Clone, Debug, PartialEq)]
pub struct UserProfile {
    pub id: String,
    pub display_name: String,
}

/// What the remote reports about current playback: the active track, if
/// any, and whether it is playing.
#[derive(Clone, Debug, PartialEq)]
pub struct PlaybackContext {
    pub track: Option<Track>,
    pub is_playing: bool,
    pub progress_ms: u32,
}

/// What a successful four-category search returns: one result list per
/// category. The four are produced by one joined operation; a failure in
/// any category is the whole operation's failure.
#[derive(Clone, Debug, PartialEq)]
pub struct SearchOk {
    pub tracks: Vec<Track>,
    pub artists: Vec<Artist>,
    pub albums: Vec<Album>,
    pub playlists: Vec<Playlist>,
}

/// A failed remote operation, carrying enough context to render a message.
#[derive(Clone, Debug, PartialEq)]
pub struct RemoteCallError {
    pub message: String,
}

/// A failed credential exchange or refresh.
#[derive(Clone, Debug, PartialEq)]
pub struct AuthError {
    pub message: String,
}

} // verus!
