use orpheus::colour::Rgb;
use orpheus::config::{
    credentials_path, lyrics_from_response, primary_title, token_cache_path, Config, Error,
    ImageKind, SearchResponse,
};
use orpheus::format::{pad, time_from_ms, u32_to_string, volume_bar};
use orpheus::style::{Highlight, Icon, IconKind, Palette, Theme};
use orpheus::{window_width_height, Rect};

#[test]
fn decimal_rendering() {
    assert_eq!(u32_to_string(0), "0");
    assert_eq!(u32_to_string(7), "7");
    assert_eq!(u32_to_string(12345), "12345");
    assert_eq!(u32_to_string(u32::MAX), "4294967295");
}

#[test]
fn playback_clock_pads_seconds() {
    assert_eq!(time_from_ms(&0), "0:00");
    assert_eq!(time_from_ms(&62_500), "1:02");
    assert_eq!(time_from_ms(&600_000), "10:00");
    assert_eq!(time_from_ms(&3_599_000), "59:59");
    assert_eq!(time_from_ms(&59_999), "0:59");
}

#[test]
fn pad_surrounds_with_spaces() {
    assert_eq!(pad("ab", 2), "  ab  ");
    assert_eq!(pad("x", 0), "x");
    assert_eq!(pad("", 3), "      ");
}

#[test]
fn volume_bar_blocks_and_half_block() {
    assert_eq!(volume_bar(0), "");
    assert_eq!(volume_bar(5), "▄");
    assert_eq!(volume_bar(10), "█ ");
    assert_eq!(volume_bar(55), "█ █ █ █ █ ▄");
    assert_eq!(volume_bar(100), "█ █ █ █ █ █ █ █ █ █ ");
    assert_eq!(volume_bar(14), "█ ");
}

#[test]
fn redirect_uri_uses_the_configured_port() {
    let c = Config::new("id".to_string(), "secret".to_string(), None, ImageKind::Ascii);
    assert_eq!(c.get_port(), 8888);
    assert_eq!(c.get_redirect_uri(), "http://localhost:8888/callback");
    let c = Config::new(
        "id".to_string(),
        "secret".to_string(),
        Some(1234),
        ImageKind::Ascii,
    );
    assert_eq!(c.get_port(), 1234);
    assert_eq!(c.get_redirect_uri(), "http://localhost:1234/callback");
}

#[test]
fn default_device_is_the_first_available() {
    let mut c = Config::new("id".to_string(), "secret".to_string(), None, ImageKind::Ascii);
    c.set_default_device(Vec::new());
    assert_eq!(c.device_id, None);
    c.set_default_device(vec![
        orpheus::model::Device { id: "a".to_string(), volume_percent: 10 },
        orpheus::model::Device { id: "b".to_string(), volume_percent: 20 },
    ]);
    assert_eq!(c.device_id, Some("a".to_string()));
}

#[test]
fn cache_paths_join_the_configuration_directory() {
    assert_eq!(token_cache_path("/home/u/.config/app"), "/home/u/.config/app/token_cache.json");
    assert_eq!(credentials_path("/home/u/.config/app"), "/home/u/.config/app/credentials.txt");
}

#[test]
fn synced_lyrics_win_over_plain() {
    let r = lyrics_from_response(SearchResponse {
        plain_lyrics: Some("plain".to_string()),
        synced_lyrics: Some("[0:01.0]synced".to_string()),
    });
    assert_eq!(r.unwrap(), ("[0:01.0]synced".to_string(), true));
}

#[test]
fn plain_lyrics_are_used_without_synced_ones() {
    let r = lyrics_from_response(SearchResponse {
        plain_lyrics: Some("plain".to_string()),
        synced_lyrics: None,
    });
    assert_eq!(r.unwrap(), ("plain".to_string(), false));
}

#[test]
fn no_lyrics_is_the_not_found_signal() {
    let r = lyrics_from_response(SearchResponse { plain_lyrics: None, synced_lyrics: None });
    assert!(matches!(r, Err(Error::NotFound)));
    // an empty synced text alone is not usable either
    let r = lyrics_from_response(SearchResponse {
        plain_lyrics: None,
        synced_lyrics: Some(String::new()),
    });
    assert!(matches!(r, Err(Error::NotFound)));
}

#[test]
fn title_is_cut_at_the_first_hyphen() {
    assert_eq!(primary_title("Song - 2011 Remaster"), "Song ");
    assert_eq!(primary_title("Plain Title"), "Plain Title");
    assert_eq!(primary_title("-starts"), "");
}

#[test]
fn thumbnail_bounds_follow_the_window() {
    assert_eq!(window_width_height(16, 9), (4, 1));
    assert_eq!(window_width_height(230, 43), (57, 18));
    assert_eq!(window_width_height(3, 6), (0, 0));
}

#[test]
fn rect_contains_its_cells_only() {
    let r = Rect { x: 2, y: 3, width: 4, height: 2 };
    assert!(r.contains(2, 3));
    assert!(r.contains(5, 4));
    assert!(!r.contains(6, 3));
    assert!(!r.contains(2, 5));
    assert!(!r.contains(1, 3));
}

#[test]
fn palette_of_the_default_theme() {
    let p = Palette::from_theme(&Theme::Catppuccin);
    assert_eq!(p.accent, Rgb { r: 203, g: 166, b: 247 });
    assert_eq!(p.background, Rgb { r: 17, g: 17, b: 27 });
}

#[test]
fn highlight_picks_accent_then_subtext_then_muted() {
    let p = Palette::from_theme(&Theme::Catppuccin);
    assert_eq!(Highlight::new(true, false).get(&p), p.accent);
    assert_eq!(Highlight::new(true, true).get(&p), p.accent);
    assert_eq!(Highlight::new(false, true).get(&p), p.subtext);
    assert_eq!(Highlight::new(false, false).get(&p), p.muted);
}

#[test]
fn icons_change_glyph_with_their_active_state() {
    let mut icon = Icon::new(IconKind::Home);
    assert!(!icon.is_active());
    let inactive = icon.symbol();
    icon.set_active(true);
    assert!(icon.is_active());
    assert_ne!(icon.symbol(), inactive);
    assert_eq!(icon.symbol(), '\u{f4e2}');
}
