use orpheus::colour::{
    accent_colour, ascii_art_from_bytes, best_colour, brightness_to_ascii, image_to_ascii, isqrt,
    retained, ColourCache, PixelGrid, Rgb,
};

fn grid(width: u32, height: u32, pixels: Vec<Rgb>) -> PixelGrid {
    assert_eq!(pixels.len() as u32, width * height);
    PixelGrid { width, height, pixels }
}

/// A tiny binary PPM image: one of the few formats that can be written out
/// by hand, byte for byte.
fn ppm(width: u32, height: u32, pixels: &[(u8, u8, u8)]) -> Vec<u8> {
    let mut bytes = format!("P6\n{} {}\n255\n", width, height).into_bytes();
    for &(r, g, b) in pixels {
        bytes.push(r);
        bytes.push(g);
        bytes.push(b);
    }
    bytes
}

#[test]
fn isqrt_brackets_the_root() {
    assert_eq!(isqrt(0), 0);
    assert_eq!(isqrt(1), 1);
    assert_eq!(isqrt(16), 4);
    assert_eq!(isqrt(24), 4);
    assert_eq!(isqrt(25), 5);
    assert_eq!(isqrt(1_000_000), 1000);
}

#[test]
fn near_black_and_near_white_are_filtered() {
    assert!(!retained(&Rgb { r: 0, g: 0, b: 0 }));
    assert!(!retained(&Rgb { r: 38, g: 38, b: 38 })); // sum 114: still near black
    assert!(retained(&Rgb { r: 39, g: 38, b: 38 })); // sum 115: kept
    assert!(!retained(&Rgb { r: 255, g: 255, b: 255 }));
    assert!(!retained(&Rgb { r: 160, g: 150, b: 150 })); // sum 460: near white
    assert!(retained(&Rgb { r: 200, g: 30, b: 30 }));
}

#[test]
fn single_saturated_cluster_wins() {
    // a synthetic image: one saturated colour on the sampling grid, the rest
    // near-white; the saturated colour becomes the accent
    let width = 11u32;
    let height = 11u32;
    let mut pixels = vec![Rgb { r: 250, g: 250, b: 250 }; (width * height) as usize];
    pixels[0] = Rgb { r: 200, g: 20, b: 20 };
    let g = grid(width, height, pixels);
    let accent = accent_colour(&g);
    assert_eq!(accent, Rgb { r: 200, g: 20, b: 20 });
}

#[test]
fn all_samples_filtered_falls_back_to_the_default() {
    let g = grid(2, 2, vec![Rgb { r: 255, g: 255, b: 255 }; 4]);
    let accent = accent_colour(&g);
    assert_eq!(accent, Rgb { r: 135, g: 75, b: 252 });
}

#[test]
fn penalized_bright_colour_is_never_chosen() {
    // brightness above the penalty threshold costs more than the colour can
    // score, so nothing is chosen and the choice stays black
    let washed_out = Rgb { r: 240, g: 220, b: 220 };
    assert_eq!(best_colour(&vec![washed_out]), Rgb { r: 0, g: 0, b: 0 });
}

#[test]
fn best_colour_of_nothing_is_black() {
    assert_eq!(best_colour(&Vec::new()), Rgb { r: 0, g: 0, b: 0 });
}

#[test]
fn brightness_ramp_endpoints_and_middle() {
    assert_eq!(brightness_to_ascii(0), '#');
    assert_eq!(brightness_to_ascii(255), ' ');
    assert_eq!(brightness_to_ascii(128), '|');
}

#[test]
fn ascii_image_renders_one_char_per_pixel() {
    let g = grid(
        2,
        1,
        vec![Rgb { r: 0, g: 0, b: 0 }, Rgb { r: 255, g: 255, b: 255 }],
    );
    assert_eq!(image_to_ascii(&g), "# \n");
}

#[test]
fn decode_and_render_thumbnail_from_bytes() {
    // a 4x2 image, decoded and resampled to the thumbnail bounds of a
    // 16-wide, 9-high window: 4 columns by 1 row
    let px = vec![(0, 0, 0); 8];
    let bytes = ppm(4, 2, &px);
    let art = ascii_art_from_bytes(&bytes, 16, 9).expect("valid image bytes");
    let lines: Vec<&str> = art.lines().collect();
    assert_eq!(lines.len(), 1);
    assert_eq!(lines[0].chars().count(), 4);
    assert_eq!(lines[0], "####");
}

#[test]
fn malformed_bytes_fail_to_decode() {
    let mut cache = ColourCache::new();
    let url = "http://example.invalid/a".to_string();
    let garbage = vec![1u8, 2, 3, 4];
    assert!(cache.colour_for_bytes(&url, &garbage).is_err());
    assert!(ascii_art_from_bytes(&garbage, 40, 40).is_err());
}

#[test]
fn colour_cache_returns_the_same_colour_for_the_same_bytes() {
    let mut cache = ColourCache::new();
    let url = "http://example.invalid/art".to_string();
    let bytes = ppm(1, 1, &[(200, 20, 20)]);
    let first = cache.colour_for_bytes(&url, &bytes).unwrap();
    assert_eq!(first, Rgb { r: 200, g: 20, b: 20 });
    let second = cache.colour_for_bytes(&url, &bytes).unwrap();
    assert_eq!(second, first);
}

#[test]
fn colour_cache_recomputes_when_the_artwork_changes() {
    // the same URL serving different bytes must not reuse the cached colour:
    // the digest of the content decides
    let mut cache = ColourCache::new();
    let url = "http://example.invalid/art".to_string();
    let red = ppm(1, 1, &[(200, 20, 20)]);
    let green = ppm(1, 1, &[(20, 200, 20)]);
    assert_eq!(
        cache.colour_for_bytes(&url, &red).unwrap(),
        Rgb { r: 200, g: 20, b: 20 }
    );
    assert_eq!(
        cache.colour_for_bytes(&url, &green).unwrap(),
        Rgb { r: 20, g: 200, b: 20 }
    );
}
