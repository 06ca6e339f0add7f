use orpheus::config::{Config, ImageKind};
use orpheus::model::{
    Device, FullPlaylistInfo, PlaybackContext, PlayingItem, PlaylistTrack, SimplifiedPlaylist,
    TrackInfo,
};
use orpheus::playlist::Playable;
use orpheus::search::ActiveResult;
use orpheus::state::{Action, Key, State, Tab, VolumeAction};

fn config() -> Config {
    Config::new(
        "client".to_string(),
        "secret".to_string(),
        None,
        ImageKind::Ascii,
    )
}

fn device() -> Device {
    Device { id: "device-1".to_string(), volume_percent: 50 }
}

fn playlists() -> Vec<SimplifiedPlaylist> {
    vec![SimplifiedPlaylist {
        name: "Mix".to_string(),
        uri: "spotify:playlist:mix".to_string(),
    }]
}

fn track(n: u32) -> PlaylistTrack {
    PlaylistTrack {
        track: Some(TrackInfo {
            name: format!("track {n}"),
            uri: format!("spotify:track:{n}"),
            artists: vec!["artist".to_string()],
            album_name: "album".to_string(),
            duration_ms: 200_000,
        }),
    }
}

fn full_playlist(tracks: usize) -> FullPlaylistInfo {
    FullPlaylistInfo {
        name: "Mix".to_string(),
        uri: "spotify:playlist:mix".to_string(),
        tracks: (0..tracks as u32).map(track).collect(),
    }
}

#[test]
fn initial_state_is_home_with_the_sidebar_active() {
    let st = State::new(config(), playlists(), device());
    assert_eq!(st.tab, Tab::Home);
    assert!(!st.should_quit);
    assert_eq!(st.playlist_state.playlists.len(), 1);
    // the sidebar owns the navigation keys, with nothing selected yet
    assert!(st.playlist_state.active);
    assert_eq!(st.playlist_state.selected, None);
    assert!(st.search_state.input.is_empty());
    assert!(!st.search_state.active);
}

#[test]
fn right_advances_the_page_and_requests_that_slice() {
    // pagination: offset 0, step 20; Right moves the offset to 20 and asks
    // for exactly the tracks at offset 20
    let mut st = State::new(config(), playlists(), device());
    st.handle_resize(230, 28); // offset step becomes 28 - 8 = 20
    st.apply_playlist(full_playlist(25));
    assert_eq!(st.playlist_state.offset, 0);
    assert_eq!(st.playlist_state.offset_step, 20);
    let action = st.handle_key(Key::Right);
    assert_eq!(st.playlist_state.offset, 20);
    match action {
        Action::FetchPlaylistTracks { uri, offset, limit } => {
            assert_eq!(uri, "spotify:playlist:mix");
            assert_eq!(offset, 20);
            assert_eq!(limit, 20);
        }
        _ => panic!("expected a page fetch"),
    }
    // and Left comes back to the start
    let action = st.handle_key(Key::Left);
    assert_eq!(st.playlist_state.offset, 0);
    assert!(matches!(action, Action::FetchPlaylistTracks { offset: 0, .. }));
}

#[test]
fn right_does_not_page_past_a_short_listing() {
    let mut st = State::new(config(), playlists(), device());
    st.handle_resize(230, 28);
    st.apply_playlist(full_playlist(5)); // fewer tracks than one step
    st.handle_key(Key::Right);
    assert_eq!(st.playlist_state.offset, 0);
}

#[test]
fn pane_keys_are_ignored_while_text_input_is_active() {
    // input capture has priority: a pane-activation key while typing goes
    // into the query, and no pane or tab changes
    let mut st = State::new(config(), playlists(), device());
    st.handle_key(Key::Char('e')); // start text input
    assert!(st.search_state.active);
    let tab_before = st.tab;
    let sidebar_before = st.playlist_state.active;
    let action = st.handle_key(Key::Char('1'));
    assert!(matches!(action, Action::Stay));
    assert_eq!(st.tab, tab_before);
    assert_eq!(st.playlist_state.active, sidebar_before);
    assert_eq!(st.search_state.results.active, ActiveResult::Inactive);
    assert_eq!(st.search_state.input, vec!['1']);
    // the same key with input released toggles the sidebar
    st.handle_key(Key::Esc);
    assert!(!st.search_state.active);
    st.handle_key(Key::Char('1'));
    assert_eq!(st.playlist_state.active, !sidebar_before);
}

#[test]
fn typing_a_query_and_committing_it_searches() {
    let mut st = State::new(config(), playlists(), device());
    st.handle_key(Key::Char('e'));
    st.handle_key(Key::Char('a'));
    st.handle_key(Key::Char('b'));
    st.handle_key(Key::Char('c'));
    st.handle_key(Key::Backspace);
    let action = st.handle_key(Key::Enter);
    match action {
        Action::Search(q) => assert_eq!(q, "ab"),
        _ => panic!("expected a search"),
    }
    assert!(!st.search_state.active);
    assert_eq!(st.tab, Tab::SearchResults);
    assert_eq!(st.search_state.results.active, ActiveResult::Songs);
}

#[test]
fn quit_key_sets_the_flag() {
    let mut st = State::new(config(), playlists(), device());
    assert!(matches!(st.handle_key(Key::Char('q')), Action::Stay));
    assert!(st.should_quit);
}

#[test]
fn selecting_a_playlist_asks_for_a_fetch_once() {
    let mut st = State::new(config(), playlists(), device());
    let action = st.select_playlist("spotify:playlist:mix".to_string());
    match action {
        Action::SelectPlaylist(uri) => assert_eq!(uri, "spotify:playlist:mix"),
        _ => panic!("expected a playlist fetch"),
    }
    st.apply_playlist(full_playlist(3));
    assert_eq!(st.tab, Tab::PlaylistPage);
    // re-selecting the open playlist only switches the view back
    st.tab = Tab::Home;
    let action = st.select_playlist("spotify:playlist:mix".to_string());
    assert!(matches!(action, Action::Stay));
    assert_eq!(st.tab, Tab::PlaylistPage);
}

#[test]
fn sidebar_enter_selects_the_highlighted_playlist() {
    // the sidebar is active from the start; enter opens the highlighted
    // playlist, falling back to the first row while nothing is selected
    let mut st = State::new(config(), playlists(), device());
    assert!(st.playlist_state.active);
    let action = st.handle_key(Key::Enter);
    assert!(matches!(action, Action::SelectPlaylist(_)));
    // a vertical key gives the sidebar a selection
    st.handle_key(Key::Down);
    assert_eq!(st.playlist_state.selected, Some(0));
}

#[test]
fn volume_keys_step_by_five_within_bounds() {
    let mut st = State::new(config(), playlists(), device());
    match st.handle_key(Key::Char('+')) {
        Action::SetVolume { device_id, volume } => {
            assert_eq!(device_id, "device-1");
            assert_eq!(volume, 55);
        }
        _ => panic!("expected a volume change"),
    }
    st.set_device_volume(98);
    match st.handle_key(Key::Char('+')) {
        Action::SetVolume { volume, .. } => assert_eq!(volume, 100),
        _ => panic!("expected a volume change"),
    }
    st.set_device_volume(3);
    match st.handle_key(Key::Char('-')) {
        Action::SetVolume { volume, .. } => assert_eq!(volume, 0),
        _ => panic!("expected a volume change"),
    }
}

fn playing(is_playing: bool, progress: u32) -> PlaybackContext {
    PlaybackContext {
        is_playing,
        progress_ms: Some(progress),
        item: Some(PlayingItem::Track(TrackInfo {
            name: "song".to_string(),
            uri: "spotify:track:song".to_string(),
            artists: vec!["someone".to_string()],
            album_name: "album".to_string(),
            duration_ms: 10_000,
        })),
        context_uri: None,
    }
}

#[test]
fn space_pauses_while_playing_and_resumes_while_paused() {
    let mut st = State::new(config(), playlists(), device());
    assert!(matches!(st.handle_key(Key::Char(' ')), Action::Stay));
    st.player.playing = Some(playing(true, 1234));
    match st.handle_key(Key::Char(' ')) {
        Action::Pause { device_id } => assert_eq!(device_id, "device-1"),
        _ => panic!("expected a pause"),
    }
    st.player.playing = Some(playing(false, 1234));
    match st.handle_key(Key::Char(' ')) {
        Action::Resume { device_id, position_ms } => {
            assert_eq!(device_id, "device-1");
            assert_eq!(position_ms, Some(1234));
        }
        _ => panic!("expected a resume"),
    }
}

#[test]
fn ticking_advances_progress_and_stops_at_the_end() {
    let mut st = State::new(config(), playlists(), device());
    st.player.playing = Some(playing(true, 9000));
    st.update_tick(50); // below the tick threshold: nothing moves
    assert_eq!(st.player.playing.as_ref().unwrap().progress_ms, Some(9000));
    st.update_tick(500);
    assert_eq!(st.player.playing.as_ref().unwrap().progress_ms, Some(9500));
    st.update_tick(800); // would pass the 10s duration: clamps and stops
    let ctx = st.player.playing.as_ref().unwrap();
    assert_eq!(ctx.progress_ms, Some(10_000));
    assert!(!ctx.is_playing);
}

#[test]
fn paused_playback_does_not_tick() {
    let mut st = State::new(config(), playlists(), device());
    st.player.playing = Some(playing(false, 5000));
    st.update_tick(500);
    assert_eq!(st.player.playing.as_ref().unwrap().progress_ms, Some(5000));
}

#[test]
fn resize_recomputes_the_page_step_on_height_change() {
    let mut st = State::new(config(), playlists(), device());
    st.handle_resize(100, 30);
    assert_eq!(st.window.width, 100);
    assert_eq!(st.window.height, 30);
    assert_eq!(st.playlist_state.offset_step, 22);
    // a width-only change leaves the step alone
    st.handle_resize(120, 30);
    assert_eq!(st.playlist_state.offset_step, 22);
}

#[test]
fn playing_a_search_result_plays_that_track_alone() {
    let mut st = State::new(config(), playlists(), device());
    st.tab = Tab::SearchResults;
    let action = st.play_selected_track(
        Some("spotify:track:7".to_string()),
        Some(3),
        Some("spotify:track:7".to_string()),
    );
    match action {
        Action::PlayTrack { uris, context_uri, offset, .. } => {
            assert_eq!(uris, Some(vec!["spotify:track:7".to_string()]));
            assert_eq!(context_uri, None);
            assert_eq!(offset, None);
        }
        _ => panic!("expected playback"),
    }
}

#[test]
fn playing_inside_the_current_context_keeps_that_context() {
    let mut st = State::new(config(), playlists(), device());
    let mut ctx = playing(true, 0);
    ctx.context_uri = Some("spotify:playlist:mix".to_string());
    st.player.playing = Some(ctx);
    let action = st.play_selected_track(
        Some("spotify:track:2".to_string()),
        Some(2),
        Some("spotify:playlist:mix".to_string()),
    );
    match action {
        Action::PlayTrack { uris, context_uri, offset, .. } => {
            assert_eq!(uris, None);
            assert_eq!(context_uri, Some("spotify:playlist:mix".to_string()));
            assert_eq!(offset, Some(2));
        }
        _ => panic!("expected playback"),
    }
}

#[test]
fn escape_leaves_the_playlist_page_cursor() {
    let mut st = State::new(config(), playlists(), device());
    st.apply_playlist(full_playlist(3));
    assert!(st.playlist_state.selected_playlist.state.active);
    st.handle_key(Key::Esc);
    assert!(!st.playlist_state.selected_playlist.state.active);
}

#[test]
fn up_and_down_move_the_playlist_page_cursor() {
    let mut st = State::new(config(), playlists(), device());
    st.apply_playlist(full_playlist(3));
    st.handle_key(Key::Down);
    assert_eq!(st.playlist_state.selected_playlist.state.selected, Some(1));
    st.handle_key(Key::Up);
    assert_eq!(st.playlist_state.selected_playlist.state.selected, Some(0));
    st.handle_key(Key::Up); // wraps to the last row
    assert_eq!(st.playlist_state.selected_playlist.state.selected, Some(2));
}

#[test]
fn volume_action_variants_cover_both_directions() {
    let mut st = State::new(config(), playlists(), device());
    match st.update_volume(VolumeAction::Increase) {
        Action::SetVolume { volume, .. } => assert_eq!(volume, 55),
        _ => panic!("expected a volume change"),
    }
    match st.update_volume(VolumeAction::Decrease) {
        Action::SetVolume { volume, .. } => assert_eq!(volume, 45),
        _ => panic!("expected a volume change"),
    }
}

#[test]
fn playable_reports_the_selected_track_and_its_collection() {
    let mut st = State::new(config(), playlists(), device());
    st.apply_playlist(full_playlist(3));
    st.handle_key(Key::Down); // move the page cursor to the second row
    let (uri, idx, identifier) = (&st.playlist_state).get_selected_track_uri();
    assert_eq!(uri, Some("spotify:track:1".to_string()));
    assert_eq!(idx, Some(1));
    assert_eq!(identifier, Some("spotify:playlist:mix".to_string()));
}

#[test]
fn search_results_report_the_selected_song() {
    let mut st = State::new(config(), playlists(), device());
    let songs = vec![
        TrackInfo {
            name: "one".to_string(),
            uri: "spotify:track:one".to_string(),
            artists: vec!["a".to_string()],
            album_name: "al".to_string(),
            duration_ms: 1000,
        },
        TrackInfo {
            name: "two".to_string(),
            uri: "spotify:track:two".to_string(),
            artists: vec!["a".to_string()],
            album_name: "al".to_string(),
            duration_ms: 1000,
        },
    ];
    st.apply_search_results(songs, Vec::new(), Vec::new());
    st.handle_key(Key::Down);
    let (uri, idx, identifier) = st.search_state.results.songs.get_selected_track_uri();
    assert_eq!(uri, Some("spotify:track:two".to_string()));
    assert_eq!(idx, Some(1));
    assert_eq!(identifier, Some("spotify:track:two".to_string()));
}
