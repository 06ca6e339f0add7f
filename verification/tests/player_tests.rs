use orpheus::colour::{PixelGrid, Rgb};
use orpheus::config::ImageKind;
use orpheus::model::{PlaybackContext, PlayingItem, TrackInfo};
use orpheus::player::{display_song_name, PlayerImage, PlayerState};

#[test]
fn identical_url_and_size_fetches_exactly_once() {
    // the extractor is only invoked when the cache key misses: two rounds
    // with the same (url, height, width) fetch once
    let mut ps = PlayerState::new();
    let (url, h, w) = ("http://example.invalid/cover.png", 18u16, 57u16);
    let mut fetches = 0;
    for _ in 0..2 {
        if ps.needs_image_refresh(url, h, w, &ImageKind::Ascii) {
            fetches += 1; // stands for the network fetch and re-render
            ps.set_ascii_image("art".to_string(), url.to_string(), h, w);
        }
    }
    assert_eq!(fetches, 1);
}

#[test]
fn size_or_url_change_invalidates_the_image() {
    let mut ps = PlayerState::new();
    let url = "http://example.invalid/cover.png";
    ps.set_ascii_image("art".to_string(), url.to_string(), 18, 57);
    assert!(!ps.needs_image_refresh(url, 18, 57, &ImageKind::Ascii));
    assert!(ps.needs_image_refresh(url, 19, 57, &ImageKind::Ascii));
    assert!(ps.needs_image_refresh(url, 18, 56, &ImageKind::Ascii));
    assert!(ps.needs_image_refresh("http://example.invalid/other.png", 18, 57, &ImageKind::Ascii));
}

#[test]
fn true_pixel_rendering_always_refreshes() {
    let mut ps = PlayerState::new();
    let url = "http://example.invalid/cover.png";
    ps.set_ascii_image("art".to_string(), url.to_string(), 18, 57);
    assert!(ps.needs_image_refresh(url, 18, 57, &ImageKind::Image));
}

#[test]
fn pixel_image_can_go_black_and_white() {
    let mut ps = PlayerState::new();
    let grid = PixelGrid {
        width: 1,
        height: 1,
        pixels: vec![Rgb { r: 200, g: 20, b: 20 }],
    };
    ps.set_pixel_image(grid);
    match &mut ps.image {
        PlayerImage::Pixel(ri) => {
            assert!(!ri.is_black_and_white());
            ri.black_and_white();
            assert!(ri.is_black_and_white());
            // grayscale output has equal channels
            let p = ri.grid.pixels[0];
            assert_eq!(p.r, p.g);
            assert_eq!(p.g, p.b);
        }
        PlayerImage::Ascii(_) => panic!("expected a pixel image"),
    }
}

fn track() -> TrackInfo {
    TrackInfo {
        name: "song".to_string(),
        uri: "spotify:track:song".to_string(),
        artists: vec!["First Artist".to_string(), "Second".to_string()],
        album_name: "album".to_string(),
        duration_ms: 10_000,
    }
}

#[test]
fn artist_name_is_the_first_artist() {
    let mut ps = PlayerState::new();
    assert_eq!(ps.get_artist_name(), None);
    ps.playing = Some(PlaybackContext {
        is_playing: true,
        progress_ms: Some(0),
        item: Some(PlayingItem::Track(track())),
        context_uri: None,
    });
    assert_eq!(ps.get_artist_name(), Some(&"First Artist".to_string()));
    ps.playing = Some(PlaybackContext {
        is_playing: true,
        progress_ms: Some(0),
        item: Some(PlayingItem::Other),
        context_uri: None,
    });
    assert_eq!(ps.get_artist_name(), None);
}

#[test]
fn tick_clamps_at_the_duration_and_stops() {
    let mut ps = PlayerState::new();
    ps.playing = Some(PlaybackContext {
        is_playing: true,
        progress_ms: Some(9_900),
        item: Some(PlayingItem::Track(track())),
        context_uri: None,
    });
    ps.tick_progress(50);
    assert_eq!(ps.playing.as_ref().unwrap().progress_ms, Some(9_950));
    assert!(ps.playing.as_ref().unwrap().is_playing);
    ps.tick_progress(500);
    assert_eq!(ps.playing.as_ref().unwrap().progress_ms, Some(10_000));
    assert!(!ps.playing.as_ref().unwrap().is_playing);
}

#[test]
fn ascii_titles_pass_through_and_others_transliterate() {
    assert_eq!(display_song_name("Plain Title"), "Plain Title");
    let shown = display_song_name("café");
    assert!(shown.is_ascii());
    assert_eq!(shown, "cafe");
}
