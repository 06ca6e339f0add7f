//! The navigation state machine and key dispatcher.
//!
//! One `State` value owns every piece of view state. Each key press is
//! resolved against whether text input is captured, which pane is active,
//! and which tab is shown, and yields both a state transition and an
//! `Action`: the network operation, if any, that the event loop must perform
//! before feeding the results back in through the `apply_*` methods.

use crate::colour::{ColourCache, Rgb};
use crate::config::{Config, ImageKind};
use crate::cursor::{Navigable, TableStateExt};
use crate::lyrics::LyricState;
use crate::model::{
    opt_str_view, AlbumInfo, ArtistInfo, Device, FullPlaylistInfo, SimplifiedPlaylist, TrackInfo,
};
use crate::player::PlayerState;
use crate::playlist::{Playable, PlaylistState, SelectedPlaylist};
use crate::search::{ActiveResult, ResultItem, SearchResult, SearchState};
use crate::WindowSize;
use vstd::prelude::*;

verus! {

/// A key press, already decoded from the terminal.
#[derive(Debug, Clone, Copy, PartialEq, Eq, Structural)]
pub enum Key {
    Esc,
    Enter,
    Backspace,
    Left,
    Up,
    Right,
    Down,
    Char(char),
    Unmapped,
}

/// The page shown in the main area.
#[derive(Debug, Clone, Copy, PartialEq, Eq, Structural)]
pub enum Tab {
    Home,
    SearchResults,
    PlaylistPage,
}

impl Default for Tab {
    fn default() -> (r: Tab)
        ensures
            r == Tab::Home,
    {
        Tab::Home
    }
}

/// Whether a volume key turns the volume up or down.
#[derive(Debug, Clone, Copy, PartialEq, Eq, Structural)]
pub enum VolumeAction {
    Increase,
    Decrease,
}

/// The network operation a key press asks the event loop to perform. The
/// loop performs it against the service and hands the result back through
/// the matching `apply_*` method.
pub enum Action {
    /// Nothing to do.
    Stay,
    /// Run the three searches with this query.
    Search(String),
    /// Fetch this playlist in full.
    SelectPlaylist(String),
    /// Fetch one page of a playlist's tracks.
    FetchPlaylistTracks { uri: String, offset: u32, limit: u32 },
    /// Start playback of the given tracks or context.
    PlayTrack {
        device_id: Option<String>,
        uris: Option<Vec<String>>,
        context_uri: Option<String>,
        offset: Option<u32>,
    },
    /// Pause playback on the device.
    Pause { device_id: String },
    /// Resume playback on the device at the given position.
    Resume { device_id: String, position_ms: Option<u32> },
    /// Set the device volume.
    SetVolume { device_id: String, volume: u32 },
}

/// The root of the view state.
pub struct State {
    pub config: Config,
    pub tab: Tab,
    pub playlist_state: PlaylistState,
    pub device: Device,
    pub window: WindowSize,
    pub lyrics_state: LyricState,
    pub should_quit: bool,
    pub colour: Rgb,
    pub search_state: SearchState,
    pub player: PlayerState,
    pub colour_cache: ColourCache,
}

impl State {
    pub open spec fn wf(&self) -> bool {
        &&& self.playlist_state.wf()
        &&& self.playlist_state.selected_playlist.state.wf()
        &&& self.search_state.wf()
        &&& self.search_state.results.songs.table_state.wf()
        &&& self.search_state.results.albums.table_state.wf()
        &&& self.search_state.results.artists.table_state.wf()
        &&& self.lyrics_state.wf()
    }

    /// The initial state: home tab, the sidebar populated from the fetched
    /// playlists and owning the navigation keys with nothing selected yet,
    /// nothing playing, empty search input, and the default window size.
    pub fn new(config: Config, playlists: Vec<SimplifiedPlaylist>, device: Device) -> (r: State)
        ensures
            r.wf(),
            r.config == config,
            r.tab == Tab::Home,
            r.should_quit == false,
            r.playlist_state.playlists == playlists,
            r.playlist_state.active == true,
            r.playlist_state.selected is None,
            r.playlist_state.offset == 0,
            r.playlist_state.offset_step == 0,
            r.playlist_state.selected_playlist.playlist is None,
            r.playlist_state.selected_playlist.state.active == false,
            r.playlist_state.selected_playlist.state.max_size == 0,
            r.device == device,
            r.window == (WindowSize { height: 43u16, width: 230u16 }),
            r.player.playing is None,
            r.search_state.active == false,
            r.search_state.input@ == Seq::<char>::empty(),
            r.search_state.cursor_position == 0,
            r.search_state.results.active == ActiveResult::Inactive,
            r.search_state.results.songs.data is None,
            r.search_state.results.albums.data is None,
            r.search_state.results.artists.data is None,
            r.lyrics_state.active == false,
            r.lyrics_state.length == 0,
            r.lyrics_state.offset == 0,
            r.lyrics_state.timed_lyrics is None,
            r.lyrics_state.lyrics@ == Seq::<char>::empty(),
            r.colour.triple() == crate::colour::spec_default_primary(),
            r.colour_cache.entries() == crate::colour::empty_cache_view(),
    {
        let mut playlist_state = PlaylistState::new(playlists);
        playlist_state.active = true;
        playlist_state.selected = None;
        State {
            config,
            playlist_state,
            colour: Rgb::default(),
            device,
            tab: Tab::Home,
            lyrics_state: LyricState::new(),
            player: PlayerState::new(),
            search_state: SearchState::new(),
            should_quit: false,
            window: WindowSize { height: 43, width: 230 },
            colour_cache: ColourCache::new(),
        }
    }

    /// A resize event: the new dimensions are recorded, and a height change
    /// resizes the playlist page step so one page fills the visible rows.
    pub fn handle_resize(&mut self, x: u16, y: u16)
        ensures
            final(self).window.width == x,
            final(self).window.height == y,
            final(self).playlist_state.offset_step == (if old(self).window.height != y {
                (if y >= 8 {
                    (y - 8) as u32
                } else {
                    0u32
                })
            } else {
                old(self).playlist_state.offset_step
            }),
            final(self).playlist_state.playlists == old(self).playlist_state.playlists,
            final(self).playlist_state.selected == old(self).playlist_state.selected,
            final(self).playlist_state.active == old(self).playlist_state.active,
            final(self).playlist_state.offset == old(self).playlist_state.offset,
            final(self).playlist_state.selected_playlist == old(self).playlist_state.selected_playlist,
            final(self).tab == old(self).tab,
            final(self).search_state == old(self).search_state,
            final(self).player == old(self).player,
            final(self).should_quit == old(self).should_quit,
    {
        if self.window.height != y {
            self.window.height = y;
            self.playlist_state.offset_step = y.saturating_sub(8) as u32;
        }
        self.window.width = x;
    }

    /// Advances the local playback clock between service polls: at least a
    /// tenth of a second must have passed before the progress is moved.
    pub fn update_tick(&mut self, elapsed_ms: u32)
        ensures
            elapsed_ms < 100 ==> *final(self) == *old(self),
            elapsed_ms >= 100 ==> final(self).player.playing
                == crate::player::spec_ticked_playing(old(self).player.playing, elapsed_ms),
            final(self).player.image == old(self).player.image,
            *final(self) == (State { player: final(self).player, ..*old(self) }),
    {
        if elapsed_ms >= 100 {
            self.player.tick_progress(elapsed_ms);
        }
    }

    /// Switches the view to the opened playlist's page and hands its cursor
    /// the navigation keys.
    fn playlist_page_selected(&mut self)
        ensures
            *final(self) == (State {
                tab: Tab::PlaylistPage,
                playlist_state: final(self).playlist_state,
                ..*old(self)
            }),
            final(self).playlist_state == (crate::playlist::PlaylistState {
                active: false,
                selected_playlist: crate::playlist::SelectedPlaylist {
                    state: TableStateExt {
                        active: true,
                        ..old(self).playlist_state.selected_playlist.state
                    },
                    ..old(self).playlist_state.selected_playlist
                },
                ..old(self).playlist_state
            }),
    {
        self.tab = Tab::PlaylistPage;
        self.playlist_state.selected_playlist.state.active = true;
        self.playlist_state.active = false;
    }

    /// The decision half of opening a playlist: re-selecting the one already
    /// open only switches the view, any other choice asks the loop to fetch
    /// it.
    pub fn select_playlist(&mut self, uri: String) -> (a: Action)
        requires
            old(self).wf(),
        ensures
            final(self).wf(),
            spec_select_playlist_effect(*old(self), *final(self), uri@, a),
    {
        let same = match &self.playlist_state.selected_playlist.playlist {
            Some(p) => {
                let eq: bool = p.uri == uri;
                eq
            },
            None => false,
        };
        if same {
            self.playlist_page_selected();
            return Action::Stay;
        }
        Action::SelectPlaylist(uri)
    }

    /// The merge half of opening a playlist: the fetched playlist replaces
    /// the open one, the page offset rewinds, and the page cursor is rebuilt
    /// over the fetched tracks.
    pub fn apply_playlist(&mut self, playlist: FullPlaylistInfo)
        requires
            old(self).wf(),
        ensures
            final(self).wf(),
            final(self).tab == Tab::PlaylistPage,
            final(self).playlist_state.active == false,
            final(self).playlist_state.selected_playlist.state.active == true,
            final(self).playlist_state.offset == 0,
            final(self).playlist_state.selected_playlist.state.max_size == playlist.tracks@.len(),
            final(self).playlist_state.selected_playlist.playlist == Some(playlist),
            final(self).playlist_state.playlists == old(self).playlist_state.playlists,
            final(self).search_state == old(self).search_state,
            final(self).player == old(self).player,
    {
        self.playlist_page_selected();
        self.playlist_state.offset = 0;
        let len = playlist.tracks.len();
        self.playlist_state.selected_playlist.state = TableStateExt {
            selected: if len > 0 {
                Some(0)
            } else {
                None
            },
            max_size: len,
            active: true,
        };
        self.playlist_state.selected_playlist.playlist = Some(playlist);
    }

    /// The merge half of a search: the three result collections are replaced
    /// wholesale, the songs table takes the navigation keys, and the view
    /// switches to the results.
    pub fn apply_search_results(
        &mut self,
        songs: Vec<TrackInfo>,
        albums: Vec<AlbumInfo>,
        artists: Vec<ArtistInfo>,
    )
        requires
            old(self).wf(),
        ensures
            final(self).wf(),
            final(self).tab == Tab::SearchResults,
            final(self).search_state.results.songs.data == Some(songs),
            final(self).search_state.results.albums.data == Some(albums),
            final(self).search_state.results.artists.data == Some(artists),
            final(self).search_state.results.active == ActiveResult::Songs,
            final(self).search_state.results.songs.table_state.max_size == songs@.len(),
            final(self).search_state.results.songs.table_state.selected == (if songs@.len() > 0 {
                Some(0usize)
            } else {
                None::<usize>
            }),
            final(self).search_state.results.albums.table_state.max_size == albums@.len(),
            final(self).search_state.results.albums.table_state.selected == (if albums@.len() > 0 {
                Some(0usize)
            } else {
                None::<usize>
            }),
            final(self).search_state.results.artists.table_state.max_size == artists@.len(),
            final(self).search_state.results.artists.table_state.selected == (if artists@.len()
                > 0 {
                Some(0usize)
            } else {
                None::<usize>
            }),
            final(self).search_state.active == old(self).search_state.active,
            final(self).search_state.input == old(self).search_state.input,
            final(self).playlist_state == old(self).playlist_state,
            final(self).player == old(self).player,
    {
        self.search_state.results.songs = ResultItem::<Vec<TrackInfo>>::new(songs);
        self.search_state.results.albums = ResultItem::<Vec<AlbumInfo>>::new(albums);
        self.search_state.results.artists = ResultItem::<Vec<ArtistInfo>>::new(artists);
        self.search_state.results.active = ActiveResult::Inactive;
        self.search_state.set_active(ActiveResult::Songs);
        self.tab = Tab::SearchResults;
    }

    /// The play command for a chosen track: inside the collection that is
    /// already playing it plays by position there; from the search results
    /// it plays the track alone; otherwise it plays the opened playlist from
    /// the track's position.
    pub fn play_selected_track(
        &mut self,
        uri: Option<String>,
        offset: Option<usize>,
        identifier: Option<String>,
    ) -> (a: Action)
        ensures
            *final(self) == spec_device_taken(*old(self)),
            spec_play_track_action(
                *old(self),
                opt_str_view(uri),
                offset,
                opt_str_view(identifier),
                a,
            ),
    {
        let device_id = self.config.device_id.take();
        let context_uri: Option<String> = match &self.player.playing {
            Some(p) => match &p.context_uri {
                Some(c) => Some(c.clone()),
                None => None,
            },
            None => None,
        };
        let same_ctx = match (&context_uri, &identifier) {
            (Some(a), Some(b)) => {
                let eq: bool = *a == *b;
                eq
            },
            (None, None) => false,
            _ => false,
        };
        let off32: Option<u32> = match offset {
            Some(o) => {
                if o <= u32::MAX as usize {
                    Some(o as u32)
                } else {
                    None
                }
            },
            None => None,
        };
        if context_uri.is_some() && same_ctx {
            return Action::PlayTrack { device_id, uris: None, context_uri, offset: off32 };
        }
        if self.tab == Tab::SearchResults {
            let track = match uri {
                Some(u) => u,
                None => String::new(),
            };
            let mut uris: Vec<String> = Vec::new();
            uris.push(track);
            return Action::PlayTrack { device_id, uris: Some(uris), context_uri: None, offset: None };
        }
        let new_context = match &self.playlist_state.selected_playlist.playlist {
            Some(p) => Some(p.uri.clone()),
            None => None,
        };
        Action::PlayTrack { device_id, uris: None, context_uri: new_context, offset: off32 }
    }

    /// Pauses or resumes on the current device, depending on the reported
    /// playing flag; with nothing known to be playing there is nothing to
    /// do.
    pub fn toggle_playing_state(&mut self) -> (a: Action)
        ensures
            *final(self) == *old(self),
            match old(self).player.playing {
                Some(p) => if p.is_playing {
                    a matches Action::Pause { device_id } && device_id@ == old(self).device.id@
                } else {
                    a matches Action::Resume { device_id, position_ms } && device_id@ == old(self).device.id@ && position_ms == p.progress_ms
                },
                None => a is Stay,
            },
    {
        match &self.player.playing {
            Some(p) => {
                if p.is_playing {
                    Action::Pause { device_id: self.device.id.clone() }
                } else {
                    Action::Resume {
                        device_id: self.device.id.clone(),
                        position_ms: p.progress_ms,
                    }
                }
            },
            None => Action::Stay,
        }
    }

    /// The volume a volume key asks for: five percent up, capped at one
    /// hundred, or five percent down, stopping at zero.
    pub fn update_volume(&mut self, action: VolumeAction) -> (a: Action)
        ensures
            *final(self) == *old(self),
            a matches Action::SetVolume { device_id, volume } && device_id@ == old(self).device.id@ && volume == spec_stepped_volume(
                old(self).device.volume_percent,
                action,
            ),
    {
        let mut volume = self.device.volume_percent;
        match action {
            VolumeAction::Decrease => {
                volume = if volume >= 5 {
                    volume - 5
                } else {
                    0
                };
            },
            VolumeAction::Increase => {
                volume = if volume <= 95 {
                    volume + 5
                } else {
                    100
                };
            },
        }
        Action::SetVolume { device_id: self.device.id.clone(), volume }
    }

    /// The merge half of a volume change: the service accepted this volume.
    pub fn set_device_volume(&mut self, volume: u32)
        ensures
            *final(self) == (State {
                device: Device { volume_percent: volume, id: old(self).device.id },
                ..*old(self)
            }),
    {
        self.device.volume_percent = volume;
    }

    pub fn get_player_image_kind(&self) -> (r: &ImageKind)
        ensures
            r == &self.config.player_image_kind,
    {
        &self.config.player_image_kind
    }

    /// Handles a typed character. While the search input captures typing,
    /// every character goes into the input buffer and nothing else changes:
    /// pane-activation keys are ignored. Otherwise the character selects a
    /// pane, toggles playback or the lyrics pane, changes the volume, starts
    /// text input, or quits.
    pub fn handle_character(&mut self, c: char) -> (a: Action)
        requires
            old(self).wf(),
        ensures
            final(self).wf(),
            old(self).search_state.active ==> {
                &&& a is Stay
                &&& final(self).tab == old(self).tab
                &&& final(self).playlist_state == old(self).playlist_state
                &&& final(self).lyrics_state == old(self).lyrics_state
                &&& final(self).player == old(self).player
                &&& final(self).device == old(self).device
                &&& final(self).config == old(self).config
                &&& final(self).search_state.results == old(self).search_state.results
                &&& final(self).should_quit == old(self).should_quit
                &&& final(self).search_state.active == old(self).search_state.active
                &&& final(self).search_state.input@ == old(self).search_state.input@.insert(
                    old(self).search_state.cursor_position as int,
                    c,
                )
                &&& final(self).search_state.cursor_position == old(self).search_state.cursor_position + 1
            },
            !old(self).search_state.active ==> {
                &&& (c == 'q' ==> final(self).should_quit == true)
                &&& (c != 'q' ==> final(self).should_quit == old(self).should_quit)
                &&& (c == 's' ==> final(self).search_state.results.active == ActiveResult::Songs)
                &&& (c == 'a' ==> final(self).search_state.results.active == ActiveResult::Albums)
                &&& (c == 'd' ==> final(self).search_state.results.active == ActiveResult::Artists)
                &&& (c == '1' ==> final(self).playlist_state.active == !old(self).playlist_state.active && final(self).search_state.results.active
                    == ActiveResult::Inactive)
                &&& (c == 'l' ==> final(self).lyrics_state.active == !old(self).lyrics_state.active)
                &&& (c == 'e' ==> final(self).search_state.active == true && final(self).playlist_state.selected_playlist.state.active == false && final(self).search_state.results.active == ActiveResult::Inactive)
                &&& (c == ' ' ==> match old(self).player.playing {
                    Some(p) => if p.is_playing {
                        a is Pause
                    } else {
                        a is Resume
                    },
                    None => a is Stay,
                })
                &&& (c == '+' || c == '-' ==> a is SetVolume)
            },
    {
        if self.search_state.active {
            self.search_state.handle_char(c);
            return Action::Stay;
        }
        match c {
            ' ' => self.toggle_playing_state(),
            '1' => {
                self.search_state.set_active(ActiveResult::Inactive);
                let now = self.playlist_state.active;
                self.playlist_state.set_active(!now);
                Action::Stay
            },
            's' => {
                self.search_state.set_active(ActiveResult::Songs);
                Action::Stay
            },
            'a' => {
                self.search_state.set_active(ActiveResult::Albums);
                Action::Stay
            },
            'd' => {
                self.search_state.set_active(ActiveResult::Artists);
                Action::Stay
            },
            'l' => {
                let now = self.lyrics_state.active;
                self.lyrics_state.active = !now;
                Action::Stay
            },
            'e' => {
                self.playlist_state.selected_playlist.state.active = false;
                self.search_state.set_active(ActiveResult::Inactive);
                let now = self.search_state.active;
                self.search_state.active = !now;
                Action::Stay
            },
            '+' => self.update_volume(VolumeAction::Increase),
            '-' => self.update_volume(VolumeAction::Decrease),
            'q' => {
                self.should_quit = true;
                Action::Stay
            },
            _ => Action::Stay,
        }
    }

    /// Handles escape, enter and backspace while the search input captures
    /// typing: enter commits the query and switches to the results view.
    pub fn handle_search_control(&mut self, key: Key) -> (a: Action)
        requires
            old(self).wf(),
        ensures
            final(self).wf(),
            spec_search_controlled(*old(self), *final(self), key, a),
    {
        match key {
            Key::Esc | Key::Backspace => {
                self.search_state.update(key);
                Action::Stay
            },
            Key::Enter => {
                let query = self.search_state.input_string();
                self.search_state.active = false;
                self.search_state.set_active(ActiveResult::Songs);
                self.tab = Tab::SearchResults;
                Action::Search(query)
            },
            _ => Action::Stay,
        }
    }

    /// Vertical navigation and selection for the sidebar and the result
    /// tables: an active sidebar opens its highlighted playlist on enter and
    /// moves on vertical keys, then whichever result table is active moves
    /// its cursor or starts playback of its selected song.
    fn navigate(&mut self, key: Key) -> (a: Action)
        requires
            old(self).wf(),
        ensures
            final(self).wf(),
            spec_navigated(*old(self), *final(self), key, a),
    {
        let ghost pre = *old(self);
        if self.playlist_state.active {
            let uri = match self.playlist_state.selected_playlist_uri() {
                Some(uri) => uri,
                None => {
                    return Action::Stay;
                },
            };
            match key {
                Key::Enter => {
                    return self.select_playlist(uri);
                },
                Key::Up => {
                    self.playlist_state.previous();
                },
                Key::Down => {
                    self.playlist_state.next();
                },
                _ => {},
            }
        }
        proof {
            if pre.playlist_state.active {
                assert(*self == spec_with_sidebar_selection(
                    pre,
                    spec_moved_selection(
                        pre.playlist_state.selected,
                        pre.playlist_state.playlists@.len(),
                        key,
                    ),
                ));
            }
        }
        let ghost mid = *self;
        match self.search_state.results.active {
            ActiveResult::Songs => {
                if key == Key::Enter {
                    let (uri, offset, identifier) =
                        self.search_state.results.songs.get_selected_track_uri();
                    return self.play_selected_track(uri, offset, identifier);
                }
                update_navigation(&mut self.search_state.results.songs.table_state, key);
                proof {
                    assert(*self == spec_with_results_cursor(
                        mid,
                        ActiveResult::Songs,
                        self.search_state.results.songs.table_state.selected,
                    ));
                }
                Action::Stay
            },
            ActiveResult::Artists => {
                update_navigation(&mut self.search_state.results.artists.table_state, key);
                proof {
                    assert(*self == spec_with_results_cursor(
                        mid,
                        ActiveResult::Artists,
                        self.search_state.results.artists.table_state.selected,
                    ));
                }
                Action::Stay
            },
            ActiveResult::Albums => {
                update_navigation(&mut self.search_state.results.albums.table_state, key);
                proof {
                    assert(*self == spec_with_results_cursor(
                        mid,
                        ActiveResult::Albums,
                        self.search_state.results.albums.table_state.selected,
                    ));
                }
                Action::Stay
            },
            ActiveResult::Inactive => Action::Stay,
        }
    }

    /// Asks for the page of tracks at the current offset of the opened
    /// playlist, falling back to the sidebar's highlighted playlist while
    /// none is open.
    fn new_playlist_page(&mut self) -> (a: Action)
        ensures
            *final(self) == *old(self),
            match old(self).playlist_state.selected_playlist.playlist {
                Some(p) => a matches Action::FetchPlaylistTracks { uri, offset, limit } && uri@
                    == p.uri@ && offset == old(self).playlist_state.offset && limit == old(self).playlist_state.offset_step,
                None => ({
                    let idx = match old(self).playlist_state.selected {
                        Some(i) => i as int,
                        None => 0int,
                    };
                    if idx < old(self).playlist_state.playlists@.len() {
                        a matches Action::FetchPlaylistTracks { uri, offset, limit } && uri@
                            == old(self).playlist_state.playlists@[idx].uri@ && offset == old(self).playlist_state.offset && limit == old(self).playlist_state.offset_step
                    } else {
                        a is Stay
                    }
                }),
            },
    {
        let uri = match &self.playlist_state.selected_playlist.playlist {
            Some(p) => p.uri.clone(),
            None => {
                match self.playlist_state.selected_playlist_uri() {
                    Some(uri) => uri,
                    None => {
                        return Action::Stay;
                    },
                }
            },
        };
        Action::FetchPlaylistTracks {
            uri,
            offset: self.playlist_state.offset,
            limit: self.playlist_state.offset_step,
        }
    }

    /// Routes one key press: navigation keys go to whichever pane is active,
    /// characters go to the input buffer or the pane hotkeys, and the
    /// playlist page handles its own paging, selection and escape.
    pub fn handle_key(&mut self, key: Key) -> (a: Action)
        requires
            old(self).wf(),
        ensures
            final(self).wf(),
            // while text input is captured, a typed character is input, and
            // pane activation is ignored
            key == Key::Unmapped ==> (a is Stay && *final(self) == *old(self)),
            // the quit key sets the flag, and only it does
            key matches Key::Char(c) ==> !old(self).search_state.active ==> {
                &&& (c == 'q' ==> final(self).should_quit == true)
                &&& (c != 'q' ==> final(self).should_quit == old(self).should_quit)
            },
            key matches Key::Char(c) ==> old(self).search_state.active ==> {
                &&& a is Stay
                &&& final(self).tab == old(self).tab
                &&& final(self).playlist_state == old(self).playlist_state
                &&& final(self).lyrics_state == old(self).lyrics_state
                &&& final(self).player == old(self).player
                &&& final(self).device == old(self).device
                &&& final(self).config == old(self).config
                &&& final(self).should_quit == old(self).should_quit
                &&& final(self).search_state.active == old(self).search_state.active
                &&& final(self).search_state.results == old(self).search_state.results
                &&& final(self).search_state.input@ == old(self).search_state.input@.insert(
                    old(self).search_state.cursor_position as int,
                    c,
                )
                &&& final(self).search_state.cursor_position == old(
                    self,
                ).search_state.cursor_position + 1
            },
            // vertical keys on the playlist page move its cursor, wrapping,
            // and touch nothing else
            ({
                &&& (key == Key::Up || key == Key::Down)
                &&& spec_on_playlist_page(*old(self))
                &&& !spec_search_or_playlist(*old(self))
            }) ==> {
                &&& final(self).playlist_state.selected_playlist.state.selected == (match key {
                    Key::Up => crate::cursor::spec_previous_selection(
                        old(self).playlist_state.selected_playlist.state.selected,
                        old(self).playlist_state.selected_playlist.state.max_size as nat,
                    ),
                    _ => crate::cursor::spec_next_selection(
                        old(self).playlist_state.selected_playlist.state.selected,
                        old(self).playlist_state.selected_playlist.state.max_size as nat,
                    ),
                })
                &&& a is Stay
                &&& *final(self) == (State {
                    playlist_state: final(self).playlist_state,
                    ..*old(self)
                })
                &&& final(self).playlist_state == (PlaylistState {
                    selected_playlist: SelectedPlaylist {
                        state: TableStateExt {
                            selected: final(self).playlist_state.selected_playlist.state.selected,
                            ..old(self).playlist_state.selected_playlist.state
                        },
                        ..old(self).playlist_state.selected_playlist
                    },
                    ..old(self).playlist_state
                })
            },
            // while the input captures typing, escape, enter and backspace
            // control the search, unless the playlist page consumes them
            ({
                &&& (key == Key::Backspace || ((key == Key::Esc || key == Key::Enter)
                    && !spec_on_playlist_page(*old(self))))
                &&& old(self).search_state.active
            }) ==> spec_search_controlled(*old(self), *final(self), key, a),
            // paging on the playlist page advances the offset one step,
            // asks for exactly that slice of the open playlist's tracks,
            // and touches nothing else
            ({
                &&& (key == Key::Right || key == Key::Left)
                &&& spec_on_playlist_page(*old(self))
                &&& old(self).playlist_state.selected_playlist.playlist is Some
            }) ==> {
                &&& final(self).playlist_state.offset == crate::playlist::spec_paged_offset(
                    old(self).playlist_state.offset,
                    old(self).playlist_state.offset_step,
                    old(self).playlist_state.selected_playlist.playlist->0.tracks@.len() as int,
                    key,
                )
                &&& *final(self) == (State {
                    playlist_state: final(self).playlist_state,
                    ..*old(self)
                })
                &&& final(self).playlist_state == (PlaylistState {
                    offset: final(self).playlist_state.offset,
                    ..old(self).playlist_state
                })
                &&& (a matches Action::FetchPlaylistTracks { uri, offset, limit } && uri@ == old(self).playlist_state.selected_playlist.playlist->0.uri@ && offset == final(self).playlist_state.offset && limit == old(self).playlist_state.offset_step)
            },
            // the sidebar and the result tables react to vertical keys and
            // enter while one of them owns the navigation keys
            ({
                &&& (key == Key::Up || key == Key::Down || key == Key::Enter)
                &&& spec_search_or_playlist(*old(self))
            }) ==> spec_navigated(*old(self), *final(self), key, a),
            // enter on the playlist page starts playback of the row under
            // its cursor
            ({
                &&& key == Key::Enter
                &&& spec_on_playlist_page(*old(self))
                &&& !spec_search_or_playlist(*old(self))
            }) ==> ({
                let sel = crate::playlist::spec_playlist_selected_track(
                    &old(self).playlist_state,
                );
                &&& spec_play_track_action(*old(self), sel.0, sel.1, sel.2, a)
                &&& *final(self) == spec_device_taken(*old(self))
            }),
            // escape hands the playlist page's cursor off and changes
            // nothing else
            (key == Key::Esc && spec_on_playlist_page(*old(self))) ==> {
                &&& a is Stay
                &&& *final(self) == (State {
                    playlist_state: final(self).playlist_state,
                    ..*old(self)
                })
                &&& final(self).playlist_state == (PlaylistState {
                    selected_playlist: SelectedPlaylist {
                        state: TableStateExt {
                            active: false,
                            ..old(self).playlist_state.selected_playlist.state
                        },
                        ..old(self).playlist_state.selected_playlist
                    },
                    ..old(self).playlist_state
                })
            },
    {
        let on_playlist_page = self.tab == Tab::PlaylistPage
            && self.playlist_state.selected_playlist.state.active;
        let search_or_playlist = (self.tab == Tab::SearchResults || self.playlist_state.active)
            && !self.search_state.active;
        if matches!(key, Key::Up | Key::Down | Key::Enter) && search_or_playlist {
            return self.navigate(key);
        }
        if matches!(key, Key::Up | Key::Down | Key::Enter | Key::Left | Key::Right | Key::Esc)
            && on_playlist_page {
            return match key {
                Key::Enter => {
                    let (uri, offset, identifier) = (
                    &self.playlist_state).get_selected_track_uri();
                    self.play_selected_track(uri, offset, identifier)
                },
                Key::Left | Key::Right => {
                    if matches!(self.playlist_state.selected_playlist.playlist, Some(_)) {
                        self.playlist_state.handle_navigation(key);
                    }
                    self.new_playlist_page()
                },
                Key::Up | Key::Down => {
                    update_navigation(&mut self.playlist_state.selected_playlist.state, key);
                    Action::Stay
                },
                _ => {
                    self.playlist_state.selected_playlist.state.active = false;
                    Action::Stay
                },
            };
        }
        if let Key::Char(c) = key {
            return self.handle_character(c);
        }
        if matches!(key, Key::Esc | Key::Enter | Key::Backspace) && self.search_state.active {
            return self.handle_search_control(key);
        }
        Action::Stay
    }
}

/// Whether the opened playlist's page owns the navigation keys.
pub open spec fn spec_on_playlist_page(s: State) -> bool {
    s.tab == Tab::PlaylistPage && s.playlist_state.selected_playlist.state.active
}

/// Whether the sidebar or a result table owns the navigation keys.
pub open spec fn spec_search_or_playlist(s: State) -> bool {
    (s.tab == Tab::SearchResults || s.playlist_state.active) && !s.search_state.active
}

/// The volume after a step: five percent either way, clamped to the scale.
pub open spec fn spec_stepped_volume(volume: u32, action: VolumeAction) -> u32 {
    match action {
        VolumeAction::Decrease => if volume >= 5 {
            (volume - 5) as u32
        } else {
            0u32
        },
        VolumeAction::Increase => if volume + 5 <= 100 {
            (volume + 5) as u32
        } else {
            100u32
        },
    }
}


/// The state with the device id taken out of the configuration, as issuing
/// a play command does.
pub open spec fn spec_device_taken(s: State) -> State {
    State { config: Config { device_id: None, ..s.config }, ..s }
}

/// A position offset narrowed to the service's integer width; one that does
/// not fit is dropped.
pub open spec fn spec_offset32(offset: Option<usize>) -> Option<u32> {
    match offset {
        Some(o) => if o <= u32::MAX {
            Some(o as u32)
        } else {
            None
        },
        None => None,
    }
}

/// The playback command built for a chosen track: inside the collection that
/// is already playing it plays by position there; from the search results it
/// plays the track alone; otherwise it plays the opened playlist from the
/// track's position.
pub open spec fn spec_play_track_action(
    s: State,
    uri: Option<Seq<char>>,
    offset: Option<usize>,
    identifier: Option<Seq<char>>,
    a: Action,
) -> bool {
    match a {
        Action::PlayTrack { device_id, uris, context_uri, offset: off } => {
            let now_ctx = match s.player.playing {
                Some(p) => p.context_uri,
                None => None,
            };
            let same_ctx = now_ctx is Some && opt_str_view(now_ctx) == identifier;
            &&& device_id == s.config.device_id
            &&& (if same_ctx {
                uris is None && opt_str_view(context_uri) == opt_str_view(now_ctx) && off
                    == spec_offset32(offset)
            } else if s.tab == Tab::SearchResults {
                &&& uris matches Some(us) && us@.len() == 1 && us@[0]@ == (match uri {
                    Some(u) => u,
                    None => Seq::<char>::empty(),
                })
                &&& context_uri is None
                &&& off is None
            } else {
                &&& uris is None
                &&& opt_str_view(context_uri) == (
                match s.playlist_state.selected_playlist.playlist {
                    Some(p) => Some(p.uri@),
                    None => None,
                })
                &&& off == spec_offset32(offset)
            })
        },
        _ => false,
    }
}

/// What opening a playlist does: re-selecting the one already open only
/// switches the view to its page, and any other choice leaves the state
/// alone and asks the loop to fetch that playlist.
pub open spec fn spec_select_playlist_effect(pre: State, post: State, uri: Seq<char>, a: Action) -> bool {
    let same = match pre.playlist_state.selected_playlist.playlist {
        Some(p) => p.uri@ == uri,
        None => false,
    };
    if same {
        &&& a is Stay
        &&& post == (State { tab: Tab::PlaylistPage, playlist_state: post.playlist_state, ..pre })
        &&& post.playlist_state == (PlaylistState {
            active: false,
            selected_playlist: SelectedPlaylist {
                state: TableStateExt { active: true, ..pre.playlist_state.selected_playlist.state },
                ..pre.playlist_state.selected_playlist
            },
            ..pre.playlist_state
        })
    } else {
        &&& a matches Action::SelectPlaylist(u) && u@ == uri
        &&& post == pre
    }
}

/// Where a selection cursor lands after one navigation key.
pub open spec fn spec_moved_selection(sel: Option<usize>, len: nat, key: Key) -> Option<usize> {
    match key {
        Key::Up => crate::cursor::spec_previous_selection(sel, len),
        Key::Down => crate::cursor::spec_next_selection(sel, len),
        _ => sel,
    }
}

/// The state with the sidebar cursor at a new position.
pub open spec fn spec_with_sidebar_selection(s: State, sel: Option<usize>) -> State {
    State { playlist_state: PlaylistState { selected: sel, ..s.playlist_state }, ..s }
}

/// The state with one result table's cursor at a new position.
pub open spec fn spec_with_results_cursor(s: State, which: ActiveResult, sel: Option<usize>) -> State {
    match which {
        ActiveResult::Songs => State {
            search_state: SearchState {
                results: SearchResult {
                    songs: ResultItem {
                        table_state: TableStateExt {
                            selected: sel,
                            ..s.search_state.results.songs.table_state
                        },
                        ..s.search_state.results.songs
                    },
                    ..s.search_state.results
                },
                ..s.search_state
            },
            ..s
        },
        ActiveResult::Albums => State {
            search_state: SearchState {
                results: SearchResult {
                    albums: ResultItem {
                        table_state: TableStateExt {
                            selected: sel,
                            ..s.search_state.results.albums.table_state
                        },
                        ..s.search_state.results.albums
                    },
                    ..s.search_state.results
                },
                ..s.search_state
            },
            ..s
        },
        ActiveResult::Artists => State {
            search_state: SearchState {
                results: SearchResult {
                    artists: ResultItem {
                        table_state: TableStateExt {
                            selected: sel,
                            ..s.search_state.results.artists.table_state
                        },
                        ..s.search_state.results.artists
                    },
                    ..s.search_state.results
                },
                ..s.search_state
            },
            ..s
        },
        ActiveResult::Inactive => s,
    }
}

/// What one navigation key does to the result tables: enter on the songs
/// table issues the play command, vertical keys move the active table's
/// cursor, and an inactive result set reacts to nothing.
pub open spec fn spec_results_navigated(pre: State, post: State, key: Key, a: Action) -> bool {
    match pre.search_state.results.active {
        ActiveResult::Songs => if key == Key::Enter {
            let sel = crate::search::spec_songs_selected_track(&pre.search_state.results.songs);
            &&& spec_play_track_action(pre, sel.0, sel.1, sel.2, a)
            &&& post == spec_device_taken(pre)
        } else {
            &&& a is Stay
            &&& post == spec_with_results_cursor(
                pre,
                ActiveResult::Songs,
                spec_moved_selection(
                    pre.search_state.results.songs.table_state.selected,
                    pre.search_state.results.songs.table_state.max_size as nat,
                    key,
                ),
            )
        },
        ActiveResult::Artists => {
            &&& a is Stay
            &&& post == spec_with_results_cursor(
                pre,
                ActiveResult::Artists,
                spec_moved_selection(
                    pre.search_state.results.artists.table_state.selected,
                    pre.search_state.results.artists.table_state.max_size as nat,
                    key,
                ),
            )
        },
        ActiveResult::Albums => {
            &&& a is Stay
            &&& post == spec_with_results_cursor(
                pre,
                ActiveResult::Albums,
                spec_moved_selection(
                    pre.search_state.results.albums.table_state.selected,
                    pre.search_state.results.albums.table_state.max_size as nat,
                    key,
                ),
            )
        },
        ActiveResult::Inactive => a is Stay && post == pre,
    }
}

/// What the sidebar and the result tables do with one navigation key: an
/// active sidebar handles enter itself and moves on vertical keys, then the
/// active result table reacts.
pub open spec fn spec_navigated(pre: State, post: State, key: Key, a: Action) -> bool {
    let idx = match pre.playlist_state.selected {
        Some(i) => i as int,
        None => 0int,
    };
    let has_uri = idx < pre.playlist_state.playlists@.len();
    if pre.playlist_state.active {
        if !has_uri {
            a is Stay && post == pre
        } else if key == Key::Enter {
            spec_select_playlist_effect(pre, post, pre.playlist_state.playlists@[idx].uri@, a)
        } else {
            spec_results_navigated(
                spec_with_sidebar_selection(
                    pre,
                    spec_moved_selection(
                        pre.playlist_state.selected,
                        pre.playlist_state.playlists@.len(),
                        key,
                    ),
                ),
                post,
                key,
                a,
            )
        }
    } else {
        spec_results_navigated(pre, post, key, a)
    }
}


/// What escape, enter and backspace do while the search input captures
/// typing: escape releases the capture, backspace edits the query, and
/// enter commits it and switches to the results view.
pub open spec fn spec_search_controlled(pre: State, post: State, key: Key, a: Action) -> bool {
    match key {
        Key::Enter => {
            &&& a matches Action::Search(q) && q@ == pre.search_state.input@
            &&& post.search_state.active == false
            &&& post.search_state.results.active == ActiveResult::Songs
            &&& post.tab == Tab::SearchResults
            &&& post.search_state.input == pre.search_state.input
            &&& post.playlist_state == pre.playlist_state
            &&& post.lyrics_state == pre.lyrics_state
            &&& post.player == pre.player
            &&& post.should_quit == pre.should_quit
        },
        Key::Esc => {
            &&& a is Stay
            &&& post == (State { search_state: post.search_state, ..pre })
            &&& post.search_state == (SearchState { active: false, ..pre.search_state })
        },
        Key::Backspace => {
            &&& a is Stay
            &&& post == (State { search_state: post.search_state, ..pre })
            &&& post.search_state.input@ == crate::search::spec_deleted_at(
                pre.search_state.input@,
                pre.search_state.cursor_position as int,
            )
            &&& post.search_state.active == pre.search_state.active
            &&& post.search_state.results == pre.search_state.results
        },
        _ => a is Stay && post == pre,
    }
}

/// Routes a vertical-navigation key to whichever cursor is handed in.
pub fn update_navigation<T: Navigable>(navigable: &mut T, key: Key)
    ensures
        final(navigable).nav_len() == old(navigable).nav_len(),
        final(navigable).nav_active() == old(navigable).nav_active(),
        final(navigable).nav_selected() == (match key {
            Key::Up => crate::cursor::spec_previous_selection(
                old(navigable).nav_selected(),
                old(navigable).nav_len(),
            ),
            Key::Down => crate::cursor::spec_next_selection(
                old(navigable).nav_selected(),
                old(navigable).nav_len(),
            ),
            _ => old(navigable).nav_selected(),
        }),
{
    match key {
        Key::Up => navigable.previous(),
        Key::Down => navigable.next(),
        _ => {},
    }
}

} // verus!
