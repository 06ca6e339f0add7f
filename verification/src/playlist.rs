//! Playlist state: the sidebar of playlists, the opened playlist with its
//! own cursor, and the page offset of its track listing.

use crate::cursor::{Navigable, TableStateExt};
use crate::model::{FullPlaylistInfo, PlaylistTrack, SimplifiedPlaylist};
use crate::state::Key;
use vstd::prelude::*;

verus! {

/// The opened playlist, if any, and the cursor over its visible rows.
pub struct SelectedPlaylist {
    pub playlist: Option<FullPlaylistInfo>,
    pub state: TableStateExt,
}

/// Whatever can name a track to start playback from: the track's URI, its
/// index in its collection, and the collection's identifier.
pub trait Playable {
    spec fn spec_selected_track(&self) -> (Option<Seq<char>>, Option<usize>, Option<Seq<char>>);

    fn get_selected_track_uri(&self) -> (r: (Option<String>, Option<usize>, Option<String>))
        ensures
            crate::model::opt_str_view(r.0) == self.spec_selected_track().0,
            r.1 == self.spec_selected_track().1,
            crate::model::opt_str_view(r.2) == self.spec_selected_track().2,
    ;
}

/// The playlist sidebar and the opened playlist: the catalog of playlists,
/// the sidebar cursor, and the page offset of the opened listing, advanced
/// in steps sized to the viewport.
pub struct PlaylistState {
    pub active: bool,
    pub offset: u32,
    pub offset_step: u32,
    pub selected: Option<usize>,
    pub selected_playlist: SelectedPlaylist,
    pub playlists: Vec<SimplifiedPlaylist>,
}

impl PlaylistState {
    pub open spec fn wf(&self) -> bool {
        match self.selected {
            Some(i) => i < self.playlists@.len(),
            None => true,
        }
    }

    /// A fresh sidebar over the fetched playlists: the first is selected
    /// when there is one, nothing is open, and no pane is active.
    pub fn new(playlists: Vec<SimplifiedPlaylist>) -> (r: PlaylistState)
        ensures
            r.wf(),
            r.playlists == playlists,
            r.selected == (if playlists@.len() > 0 {
                Some(0usize)
            } else {
                None::<usize>
            }),
            r.selected_playlist.playlist is None,
            r.selected_playlist.state.max_size == 0,
            r.selected_playlist.state.active == false,
            r.selected_playlist.state.selected is None,
            r.selected_playlist.state.wf(),
            r.active == false,
            r.offset == 0,
            r.offset_step == 0,
    {
        let has_rows = playlists.len() > 0;
        PlaylistState {
            playlists,
            selected_playlist: SelectedPlaylist { playlist: None, state: TableStateExt::new(0) },
            selected: if has_rows {
                Some(0)
            } else {
                None
            },
            active: false,
            offset: 0,
            offset_step: 0,
        }
    }

    /// Replaces the opened playlist's visible page of tracks.
    pub fn update_tracks(&mut self, new_tracks: Vec<PlaylistTrack>)
        ensures
            match old(self).selected_playlist.playlist {
                Some(p) => final(self).selected_playlist.playlist matches Some(q) && q.name
                    == p.name && q.uri == p.uri && q.tracks == new_tracks,
                None => *final(self) == *old(self),
            },
            final(self).selected_playlist.state == old(self).selected_playlist.state,
            final(self).playlists == old(self).playlists,
            final(self).selected == old(self).selected,
            final(self).active == old(self).active,
            final(self).offset == old(self).offset,
            final(self).offset_step == old(self).offset_step,
    {
        match &mut self.selected_playlist.playlist {
            Some(playlist) => {
                playlist.tracks = new_tracks;
            },
            None => {},
        }
    }

    /// The URI of the playlist the sidebar cursor rests on.
    pub fn selected_playlist_uri(&self) -> (r: Option<String>)
        ensures
            ({
                let idx = match self.selected {
                    Some(i) => i as int,
                    None => 0int,
                };
                match r {
                    Some(uri) => idx < self.playlists@.len() && uri@
                        == self.playlists@[idx].uri@,
                    None => idx >= self.playlists@.len(),
                }
            }),
    {
        let idx = match self.selected {
            Some(i) => i,
            None => 0,
        };
        if idx < self.playlists.len() {
            Some(self.playlists[idx].uri.clone())
        } else {
            None
        }
    }

    /// Pages the opened playlist's track listing: right advances the offset
    /// by one step while a step fits in the listing, left retreats it by one
    /// step, stopping at zero.
    pub fn handle_navigation(&mut self, key: Key)
        requires
            old(self).selected_playlist.playlist is Some,
        ensures
            final(self).offset == spec_paged_offset(
                old(self).offset,
                old(self).offset_step,
                old(self).selected_playlist.playlist->Some_0.tracks@.len() as int,
                key,
            ),
            *final(self) == (PlaylistState { offset: final(self).offset, ..*old(self) }),
    {
        let offset_step = self.offset_step;
        let length = match &self.selected_playlist.playlist {
            Some(p) => p.tracks.len(),
            None => 0,
        };
        match key {
            Key::Right => {
                if offset_step as usize <= length {
                    self.offset = self.offset.saturating_add(offset_step);
                }
            },
            Key::Left => {
                self.offset = self.offset.saturating_sub(offset_step);
            },
            _ => {},
        }
    }
}

/// The page offset after a horizontal navigation key: one step forward when
/// a step fits in the listing (saturating at the integer bound), one step
/// back stopping at zero, untouched by other keys.
pub open spec fn spec_paged_offset(offset: u32, step: u32, track_count: int, key: Key) -> u32 {
    match key {
        Key::Right => if step <= track_count {
            if offset + step <= u32::MAX {
                (offset + step) as u32
            } else {
                u32::MAX
            }
        } else {
            offset
        },
        Key::Left => if offset >= step {
            (offset - step) as u32
        } else {
            0u32
        },
        _ => offset,
    }
}

impl Navigable for PlaylistState {
    open spec fn nav_len(&self) -> nat {
        self.playlists@.len()
    }

    open spec fn nav_selected(&self) -> Option<usize> {
        self.selected
    }

    open spec fn nav_active(&self) -> bool {
        self.active
    }

    fn next(&mut self)
        ensures
            old(self).wf() ==> final(self).wf(),
            final(self).playlists == old(self).playlists,
            final(self).selected_playlist.state == old(self).selected_playlist.state,
            final(self).selected_playlist.playlist == old(self).selected_playlist.playlist,
            final(self).offset == old(self).offset,
            final(self).offset_step == old(self).offset_step,
    {
        let len = self.playlists.len();
        if len == 0 {
            self.selected = None;
            return ;
        }
        let i: usize = match self.selected {
            None => 0,
            Some(i) => {
                if i < len - 1 {
                    i + 1
                } else {
                    0
                }
            },
        };
        self.selected = Some(i);
    }

    fn previous(&mut self)
        ensures
            old(self).wf() ==> final(self).wf(),
            final(self).playlists == old(self).playlists,
            final(self).selected_playlist.state == old(self).selected_playlist.state,
            final(self).selected_playlist.playlist == old(self).selected_playlist.playlist,
            final(self).offset == old(self).offset,
            final(self).offset_step == old(self).offset_step,
    {
        let len = self.playlists.len();
        if len == 0 {
            self.selected = None;
            return ;
        }
        let i: usize = match self.selected {
            None => 0,
            Some(i) => {
                if i == 0 {
                    len - 1
                } else {
                    i - 1
                }
            },
        };
        self.selected = Some(i);
    }

    /// Activating the sidebar hands the opened playlist's cursor off, and
    /// the other way round.
    fn set_active(&mut self, active: bool)
        ensures
            final(self).selected == old(self).selected,
            final(self).playlists == old(self).playlists,
            final(self).selected_playlist.playlist == old(self).selected_playlist.playlist,
            final(self).selected_playlist.state.active == !active,
            final(self).selected_playlist.state.selected
                == old(self).selected_playlist.state.selected,
            final(self).selected_playlist.state.max_size
                == old(self).selected_playlist.state.max_size,
            final(self).offset == old(self).offset,
            final(self).offset_step == old(self).offset_step,
    {
        self.active = active;
        self.selected_playlist.state.active = !active;
    }
}

/// The track under the opened playlist's cursor, its index, and the
/// playlist's URI as the collection identifier.
pub open spec fn spec_playlist_selected_track(ps: &PlaylistState) -> (
    Option<Seq<char>>,
    Option<usize>,
    Option<Seq<char>>,
) {
    let idx = match ps.selected_playlist.state.selected {
        Some(i) => i,
        None => 0usize,
    };
    let identifier = match ps.selected_playlist.playlist {
        Some(p) => Some(p.uri@),
        None => None,
    };
    let uri = match ps.selected_playlist.playlist {
        Some(p) => if idx < p.tracks@.len() {
            match p.tracks@[idx as int].track {
                Some(t) => Some(t.uri@),
                None => None,
            }
        } else {
            None
        },
        None => None,
    };
    (uri, Some(idx), identifier)
}

impl Playable for &PlaylistState {
    open spec fn spec_selected_track(&self) -> (Option<Seq<char>>, Option<usize>, Option<
        Seq<char>,
    >) {
        spec_playlist_selected_track(*self)
    }

    fn get_selected_track_uri(&self) -> (r: (Option<String>, Option<usize>, Option<String>)) {
        let idx = match self.selected_playlist.state.selected {
            Some(i) => i,
            None => 0,
        };
        let identifier = match &self.selected_playlist.playlist {
            Some(p) => Some(p.uri.clone()),
            None => None,
        };
        let uri = match &self.selected_playlist.playlist {
            Some(p) => {
                if idx < p.tracks.len() {
                    match &p.tracks[idx].track {
                        Some(t) => Some(t.uri.clone()),
                        None => None,
                    }
                } else {
                    None
                }
            },
            None => None,
        };
        (uri, Some(idx), identifier)
    }
}

} // verus!
