//! Search state: the free-text input with its cursor, and the three result
//! tables with their cursors, of which at most one is active at a time.

use crate::cursor::TableStateExt;
use crate::model::{AlbumInfo, ArtistInfo, TrackInfo};
use crate::playlist::Playable;
use crate::state::Key;
use vstd::prelude::*;

verus! {

/// Which result table currently receives vertical-navigation keys.
#[derive(Debug, Clone, Copy, PartialEq, Eq, Structural)]
pub enum ActiveResult {
    Songs,
    Artists,
    Albums,
    Inactive,
}

/// One fetched result collection and the cursor over it.
pub struct ResultItem<T> {
    pub data: Option<T>,
    pub table_state: TableStateExt,
}

impl<T> ResultItem<T> {
    pub fn empty() -> (r: ResultItem<T>)
        ensures
            r.data is None,
            r.table_state.wf(),
            r.table_state.max_size == 0,
            r.table_state.active == false,
    {
        ResultItem { data: None, table_state: TableStateExt::new(0) }
    }
}

impl ResultItem<Vec<TrackInfo>> {
    pub fn new(items: Vec<TrackInfo>) -> (r: ResultItem<Vec<TrackInfo>>)
        ensures
            r.data == Some(items),
            r.table_state.wf(),
            r.table_state.max_size == items@.len(),
            r.table_state.selected == (if items@.len() > 0 {
                Some(0usize)
            } else {
                None::<usize>
            }),
            r.table_state.active == false,
    {
        let len = items.len();
        ResultItem { data: Some(items), table_state: TableStateExt::new(len) }
    }
}

impl ResultItem<Vec<AlbumInfo>> {
    pub fn new(items: Vec<AlbumInfo>) -> (r: ResultItem<Vec<AlbumInfo>>)
        ensures
            r.data == Some(items),
            r.table_state.wf(),
            r.table_state.max_size == items@.len(),
            r.table_state.selected == (if items@.len() > 0 {
                Some(0usize)
            } else {
                None::<usize>
            }),
            r.table_state.active == false,
    {
        let len = items.len();
        ResultItem { data: Some(items), table_state: TableStateExt::new(len) }
    }
}

impl ResultItem<Vec<ArtistInfo>> {
    pub fn new(items: Vec<ArtistInfo>) -> (r: ResultItem<Vec<ArtistInfo>>)
        ensures
            r.data == Some(items),
            r.table_state.wf(),
            r.table_state.max_size == items@.len(),
            r.table_state.selected == (if items@.len() > 0 {
                Some(0usize)
            } else {
                None::<usize>
            }),
            r.table_state.active == false,
    {
        let len = items.len();
        ResultItem { data: Some(items), table_state: TableStateExt::new(len) }
    }
}

/// The selected song's URI, its index, and the same URI as the playing
/// context's identifier.
pub open spec fn spec_songs_selected_track(ri: &ResultItem<Vec<TrackInfo>>) -> (
    Option<Seq<char>>,
    Option<usize>,
    Option<Seq<char>>,
) {
    let idx = match ri.table_state.selected {
        Some(i) => i,
        None => 0usize,
    };
    match ri.data {
        Some(items) => if idx < items@.len() {
            (Some(items@[idx as int].uri@), Some(idx), Some(items@[idx as int].uri@))
        } else {
            (None, None, None)
        },
        None => (None, None, None),
    }
}

impl Playable for ResultItem<Vec<TrackInfo>> {
    open spec fn spec_selected_track(&self) -> (Option<Seq<char>>, Option<usize>, Option<
        Seq<char>,
    >) {
        spec_songs_selected_track(self)
    }

    fn get_selected_track_uri(&self) -> (r: (Option<String>, Option<usize>, Option<String>)) {
        let idx = match self.table_state.selected {
            Some(i) => i,
            None => 0,
        };
        match &self.data {
            Some(items) => {
                if idx < items.len() {
                    (Some(items[idx].uri.clone()), Some(idx), Some(items[idx].uri.clone()))
                } else {
                    (None, None, None)
                }
            },
            None => (None, None, None),
        }
    }
}

/// The three independent result collections and which of them is active.
pub struct SearchResult {
    pub artists: ResultItem<Vec<ArtistInfo>>,
    pub songs: ResultItem<Vec<TrackInfo>>,
    pub albums: ResultItem<Vec<AlbumInfo>>,
    pub active: ActiveResult,
}

/// The search pane: the input buffer with its cursor, whether typing is
/// captured, and the result tables.
pub struct SearchState {
    pub results: SearchResult,
    pub input: Vec<char>,
    pub active: bool,
    pub cursor_position: usize,
}

impl SearchState {
    /// The cursor stays inside the input, and at most one result table is
    /// active, the one that `results.active` names.
    pub open spec fn wf(&self) -> bool {
        &&& self.cursor_position <= self.input@.len()
        &&& (match self.results.active {
            ActiveResult::Songs => self.results.songs.table_state.active
                && !self.results.albums.table_state.active
                && !self.results.artists.table_state.active,
            ActiveResult::Albums => !self.results.songs.table_state.active
                && self.results.albums.table_state.active
                && !self.results.artists.table_state.active,
            ActiveResult::Artists => !self.results.songs.table_state.active
                && !self.results.albums.table_state.active
                && self.results.artists.table_state.active,
            ActiveResult::Inactive => !self.results.songs.table_state.active
                && !self.results.albums.table_state.active
                && !self.results.artists.table_state.active,
        })
    }

    pub fn new() -> (r: SearchState)
        ensures
            r.wf(),
            r.active == false,
            r.input@ == Seq::<char>::empty(),
            r.cursor_position == 0,
            r.results.active == ActiveResult::Inactive,
            r.results.songs.data is None,
            r.results.albums.data is None,
            r.results.artists.data is None,
            r.results.songs.table_state.wf(),
            r.results.albums.table_state.wf(),
            r.results.artists.table_state.wf(),
    {
        SearchState {
            results: SearchResult {
                albums: ResultItem::empty(),
                songs: ResultItem::empty(),
                artists: ResultItem::empty(),
                active: ActiveResult::Inactive,
            },
            active: false,
            input: Vec::new(),
            cursor_position: 0,
        }
    }

    /// The input buffer as a string.
    pub fn input_string(&self) -> (r: String)
        ensures
            r@ == self.input@,
    {
        crate::chars::chars_to_string(&self.input)
    }

    /// Handles a key while the input captures typing: escape releases the
    /// capture, backspace deletes before the cursor.
    pub fn update(&mut self, key: Key)
        requires
            old(self).wf(),
        ensures
            final(self).wf(),
            final(self).results == old(self).results,
            match key {
                Key::Esc => final(self).active == false && final(self).input == old(self).input
                    && final(self).cursor_position == old(self).cursor_position,
                Key::Backspace => final(self).active == old(self).active && final(self).input@
                    == spec_deleted_at(old(self).input@, old(self).cursor_position as int)
                    && final(self).cursor_position == (if old(self).cursor_position > 0 {
                    old(self).cursor_position - 1
                } else {
                    0int
                }),
                _ => *final(self) == *old(self),
            },
    {
        match key {
            Key::Esc => {
                self.active = false;
            },
            Key::Backspace => {
                self.delete_char();
            },
            _ => {},
        }
    }

    /// Routes one result table to the vertical-navigation keys and switches
    /// every other one off.
    pub fn set_active(&mut self, target: ActiveResult)
        requires
            old(self).wf(),
        ensures
            final(self).wf(),
            final(self).results.active == target,
            final(self).active == old(self).active,
            final(self).input == old(self).input,
            final(self).cursor_position == old(self).cursor_position,
            old(self).wf() ==> final(self).cursor_position <= final(self).input@.len(),
            final(self).results.songs.data == old(self).results.songs.data,
            final(self).results.albums.data == old(self).results.albums.data,
            final(self).results.artists.data == old(self).results.artists.data,
            final(self).results.songs.table_state.selected
                == old(self).results.songs.table_state.selected,
            final(self).results.albums.table_state.selected
                == old(self).results.albums.table_state.selected,
            final(self).results.artists.table_state.selected
                == old(self).results.artists.table_state.selected,
            final(self).results.songs.table_state.max_size
                == old(self).results.songs.table_state.max_size,
            final(self).results.albums.table_state.max_size
                == old(self).results.albums.table_state.max_size,
            final(self).results.artists.table_state.max_size
                == old(self).results.artists.table_state.max_size,
    {
        self.disable_all();
        match target {
            ActiveResult::Songs => {
                self.results.songs.table_state.active = true;
            },
            ActiveResult::Albums => {
                self.results.albums.table_state.active = true;
            },
            ActiveResult::Artists => {
                self.results.artists.table_state.active = true;
            },
            ActiveResult::Inactive => {},
        }
        self.results.active = target;
    }

    fn disable_all(&mut self)
        ensures
            final(self).results.songs.table_state.active == false,
            final(self).results.albums.table_state.active == false,
            final(self).results.artists.table_state.active == false,
            final(self).results.songs.table_state.selected
                == old(self).results.songs.table_state.selected,
            final(self).results.songs.table_state.max_size
                == old(self).results.songs.table_state.max_size,
            final(self).results.albums.table_state.selected
                == old(self).results.albums.table_state.selected,
            final(self).results.albums.table_state.max_size
                == old(self).results.albums.table_state.max_size,
            final(self).results.artists.table_state.selected
                == old(self).results.artists.table_state.selected,
            final(self).results.artists.table_state.max_size
                == old(self).results.artists.table_state.max_size,
            final(self).results.songs.data == old(self).results.songs.data,
            final(self).results.albums.data == old(self).results.albums.data,
            final(self).results.artists.data == old(self).results.artists.data,
            final(self).results.active == old(self).results.active,
            final(self).active == old(self).active,
            final(self).input == old(self).input,
            final(self).cursor_position == old(self).cursor_position,
    {
        self.results.songs.table_state.active = false;
        self.results.albums.table_state.active = false;
        self.results.artists.table_state.active = false;
    }

    /// Typed characters go into the input buffer while it captures typing;
    /// otherwise only `e` does anything, switching the capture on.
    pub fn handle_char(&mut self, new_char: char)
        requires
            old(self).wf(),
        ensures
            final(self).wf(),
            final(self).results == old(self).results,
            if old(self).active {
                &&& final(self).active == old(self).active
                &&& final(self).input@ == old(self).input@.insert(
                    old(self).cursor_position as int,
                    new_char,
                )
                &&& final(self).cursor_position == old(self).cursor_position + 1
            } else {
                &&& final(self).input == old(self).input
                &&& final(self).cursor_position == old(self).cursor_position
                &&& final(self).active == (old(self).active || new_char == 'e')
            },
    {
        if !self.active {
            if new_char == 'e' {
                self.active = true;
            }
            return ;
        }
        self.input.insert(self.cursor_position, new_char);
        proof {
            // the vector's length, and so the new cursor, fits in usize
            vstd::std_specs::vec::axiom_spec_len(&self.input);
        }
        self.move_cursor_right();
    }

    fn move_cursor_right(&mut self)
        requires
            old(self).cursor_position <= old(self).input@.len(),
        ensures
            *final(self) == (SearchState {
                cursor_position: (if old(self).cursor_position + 1 <= old(self).input@.len() {
                    (old(self).cursor_position + 1) as usize
                } else {
                    old(self).cursor_position
                }),
                ..*old(self)
            }),
    {
        if self.cursor_position < self.input.len() {
            self.cursor_position = self.cursor_position + 1;
        }
    }

    fn move_cursor_left(&mut self)
        ensures
            *final(self) == (SearchState {
                cursor_position: (if old(self).cursor_position > 0 {
                    (old(self).cursor_position - 1) as usize
                } else {
                    0usize
                }),
                ..*old(self)
            }),
    {
        if self.cursor_position > 0 {
            self.cursor_position = self.cursor_position - 1;
        }
    }

    /// Deletes the character before the cursor, when there is one.
    pub fn delete_char(&mut self)
        requires
            old(self).cursor_position <= old(self).input@.len(),
        ensures
            final(self).input@ == spec_deleted_at(
                old(self).input@,
                old(self).cursor_position as int,
            ),
            final(self).cursor_position == (if old(self).cursor_position > 0 {
                old(self).cursor_position - 1
            } else {
                0int
            }),
            final(self).cursor_position <= final(self).input@.len(),
            final(self).active == old(self).active,
            final(self).results == old(self).results,
    {
        if self.cursor_position == 0 {
            return ;
        }
        self.input.remove(self.cursor_position - 1);
        self.move_cursor_left();
    }
}

/// The buffer after deleting the character before position `pos`: unchanged
/// when the cursor sits at the start.
pub open spec fn spec_deleted_at(input: Seq<char>, pos: int) -> Seq<char> {
    if pos == 0 {
        input
    } else {
        input.remove(pos - 1)
    }
}

} // verus!
