//! Plain data models of the catalog and playback objects that the service
//! client hands back: only the fields the interface reads.

use vstd::prelude::*;

verus! {

/// A playlist row of the sidebar.
pub struct SimplifiedPlaylist {
    pub name: String,
    pub uri: String,
}

/// A playable track: the fields shown in tables and the player pane.
pub struct TrackInfo {
    pub name: String,
    pub uri: String,
    pub artists: Vec<String>,
    pub album_name: String,
    pub duration_ms: u32,
}

/// One row of a playlist page; the service may hold entries whose track is
/// gone.
pub struct PlaylistTrack {
    pub track: Option<TrackInfo>,
}

/// An opened playlist: its identity and the fetched page of tracks.
pub struct FullPlaylistInfo {
    pub name: String,
    pub uri: String,
    pub tracks: Vec<PlaylistTrack>,
}

/// An album row of the search results.
pub struct AlbumInfo {
    pub name: String,
    pub artists: Vec<String>,
}

/// An artist row of the search results.
pub struct ArtistInfo {
    pub name: String,
}

/// A playback device.
pub struct Device {
    pub id: String,
    pub volume_percent: u32,
}

/// What is currently playing, if anything.
pub enum PlayingItem {
    Track(TrackInfo),
    /// An episode or another item the player does not render in detail.
    Other,
}

impl PlayingItem {
    pub open spec fn spec_as_track(&self) -> Option<TrackInfo> {
        match *self {
            PlayingItem::Track(ref t) => Some(*t),
            PlayingItem::Other => None,
        }
    }

    /// The track inside, when one is playing.
    pub fn as_track(&self) -> (r: Option<&TrackInfo>)
        ensures
            match r {
                Some(t) => self.spec_as_track() == Some(*t),
                None => self.spec_as_track() is None,
            },
    {
        match self {
            PlayingItem::Track(t) => Some(t),
            PlayingItem::Other => None,
        }
    }
}

/// The playback context the service reports: the playing item, the progress
/// into it, and the collection it is playing from.
pub struct PlaybackContext {
    pub is_playing: bool,
    pub progress_ms: Option<u32>,
    pub item: Option<PlayingItem>,
    pub context_uri: Option<String>,
}

/// The view of an optional string.
pub open spec fn opt_str_view(o: Option<String>) -> Option<Seq<char>> {
    match o {
        Some(s) => Some(s@),
        None => None,
    }
}

} // verus!
