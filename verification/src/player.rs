//! Player state: the last known playback context and the rendered artwork.
//!
//! The artwork is only regenerated when the source URL or the rendering size
//! changes: the cache key is the (url, height, width) triple carried inside
//! the rendered image itself.

use crate::colour::{rgb_seq, PixelGrid};
use crate::config::ImageKind;
use crate::model::{PlaybackContext, PlayingItem};
use crate::WindowSize;
use vstd::prelude::*;

verus! {

/// Artwork rendered as ASCII characters, with the key it was rendered for.
pub struct AsciiImage {
    pub ascii: String,
    pub image_url: String,
    pub rendered_at_size: WindowSize,
}

/// What grayscale conversion of a pixel grid yields; it depends on the
/// pixels alone.
pub uninterp spec fn grayscale_of(pixels: Seq<(u8, u8, u8)>) -> Seq<(u8, u8, u8)>;

/// Relies on image::DynamicImage::grayscale: the image converted to its
/// luma values, with the dimensions kept.
#[verifier::external_body]
fn grayscale(grid: &PixelGrid) -> (r: PixelGrid)
    requires
        grid.wf(),
    ensures
        r.width == grid.width,
        r.height == grid.height,
        r.wf(),
        rgb_seq(r.pixels@) == grayscale_of(rgb_seq(grid.pixels@)),
{
    let mut raw: Vec<u8> = Vec::new();
    for p in &grid.pixels {
        raw.push(p.r);
        raw.push(p.g);
        raw.push(p.b);
    }
    let buf = image::RgbImage::from_raw(grid.width, grid.height, raw).unwrap();
    let grey = image::DynamicImage::ImageRgb8(buf).grayscale().to_rgb8();
    let pixels = grey.pixels().map(
        |p| crate::colour::Rgb { r: p[0], g: p[1], b: p[2] },
    ).collect();
    PixelGrid { width: grid.width, height: grid.height, pixels }
}

/// Artwork kept decoded for a true-pixel terminal protocol, which resizes it
/// on demand.
pub struct ResizableImage {
    pub grid: PixelGrid,
    pub is_black_and_white: bool,
}

impl ResizableImage {
    pub fn new(grid: PixelGrid) -> (r: ResizableImage)
        requires
            grid.wf(),
        ensures
            r.grid == grid,
            r.grid.wf(),
            r.is_black_and_white == false,
    {
        ResizableImage { grid, is_black_and_white: false }
    }

    /// Converts the kept artwork to grayscale.
    pub fn black_and_white(&mut self)
        requires
            old(self).grid.wf(),
        ensures
            final(self).is_black_and_white == true,
            final(self).grid.wf(),
            final(self).grid.width == old(self).grid.width,
            final(self).grid.height == old(self).grid.height,
            rgb_seq(final(self).grid.pixels@) == grayscale_of(rgb_seq(old(self).grid.pixels@)),
    {
        self.grid = grayscale(&self.grid);
        self.is_black_and_white = true;
    }

    pub fn is_black_and_white(&self) -> (r: bool)
        ensures
            r == self.is_black_and_white,
    {
        self.is_black_and_white
    }
}

/// The rendered artwork: ASCII art, or a decoded image for a true-pixel
/// protocol.
pub enum PlayerImage {
    Ascii(AsciiImage),
    Pixel(ResizableImage),
}

/// The last known playback context and the artwork rendered for it.
pub struct PlayerState {
    pub playing: Option<PlaybackContext>,
    pub image: PlayerImage,
}

/// Whether the kept artwork already matches the wanted source URL and
/// rendering size, so no fetch or re-render is needed. Only ASCII art
/// carries its key; a true-pixel image is always re-fetched.
pub open spec fn spec_image_cached(
    image: PlayerImage,
    url: Seq<char>,
    height: u16,
    width: u16,
    kind: ImageKind,
) -> bool {
    match kind {
        ImageKind::Ascii => match image {
            PlayerImage::Ascii(a) => a.rendered_at_size.height == height && a.rendered_at_size.width
                == width && a.image_url@ == url,
            PlayerImage::Pixel(_) => false,
        },
        ImageKind::Image => false,
    }
}

impl PlayerState {
    pub fn new() -> (r: PlayerState)
        ensures
            r.playing is None,
            r.image matches PlayerImage::Ascii(a) && a.ascii@ == Seq::<char>::empty()
                && a.image_url@ == Seq::<char>::empty() && a.rendered_at_size == (WindowSize {
                height: 0u16,
                width: 0u16,
            }),
    {
        PlayerState {
            playing: None,
            image: PlayerImage::Ascii(
                AsciiImage {
                    ascii: String::new(),
                    image_url: String::new(),
                    rendered_at_size: WindowSize { height: 0, width: 0 },
                },
            ),
        }
    }

    /// Whether the artwork must be fetched and re-rendered for this URL and
    /// size: exactly when the kept image does not already carry this key.
    pub fn needs_image_refresh(&self, url: &str, height: u16, width: u16, kind: &ImageKind) -> (r:
        bool)
        ensures
            r == !spec_image_cached(self.image, url@, height, width, *kind),
    {
        match kind {
            ImageKind::Ascii => match &self.image {
                PlayerImage::Ascii(current) => {
                    let same_size = current.rendered_at_size.height == height
                        && current.rendered_at_size.width == width;
                    let same_url: bool = crate::chars::str_eq(current.image_url.as_str(), url);
                    !(same_size && same_url)
                },
                PlayerImage::Pixel(_) => true,
            },
            ImageKind::Image => true,
        }
    }

    /// Stores freshly rendered ASCII art under its (url, size) key.
    pub fn set_ascii_image(&mut self, ascii: String, image_url: String, height: u16, width: u16)
        ensures
            final(self).playing == old(self).playing,
            final(self).image == PlayerImage::Ascii(
                AsciiImage {
                    ascii,
                    image_url,
                    rendered_at_size: WindowSize { height, width },
                },
            ),
    {
        self.image = PlayerImage::Ascii(
            AsciiImage { ascii, image_url, rendered_at_size: WindowSize { height, width } },
        );
    }

    /// Stores freshly decoded artwork for the true-pixel protocol.
    pub fn set_pixel_image(&mut self, grid: PixelGrid)
        requires
            grid.wf(),
        ensures
            final(self).playing == old(self).playing,
            final(self).image matches PlayerImage::Pixel(ri) && ri.grid == grid
                && ri.is_black_and_white == false,
    {
        self.image = PlayerImage::Pixel(ResizableImage::new(grid));
    }

    /// The first artist of the playing track, when a track with at least
    /// one artist is playing.
    pub open spec fn spec_artist_name(&self) -> Option<Seq<char>> {
        match self.playing {
            Some(p) => match p.item {
                Some(item) => match item.spec_as_track() {
                    Some(t) => if t.artists@.len() > 0 {
                        Some(t.artists@[0]@)
                    } else {
                        None
                    },
                    None => None,
                },
                None => None,
            },
            None => None,
        }
    }

    /// The playing track's first artist, and nothing exactly when no track
    /// with an artist is playing.
    pub fn get_artist_name(&self) -> (r: Option<&String>)
        ensures
            match r {
                Some(name) => self.spec_artist_name() == Some(name@),
                None => self.spec_artist_name() is None,
            },
    {
        let playing = match &self.playing {
            Some(p) => p,
            None => {
                return None;
            },
        };
        let item = match &playing.item {
            Some(i) => i,
            None => {
                return None;
            },
        };
        let track = match item.as_track() {
            Some(t) => t,
            None => {
                return None;
            },
        };
        if track.artists.len() > 0 {
            Some(&track.artists[0])
        } else {
            None
        }
    }

    /// Moves the local playback clock forward while the service reports
    /// playing, clamping at the track's duration and stopping there.
    pub fn tick_progress(&mut self, new_progress: u32)
        ensures
            final(self).image == old(self).image,
            final(self).playing == spec_ticked_playing(old(self).playing, new_progress),
    {
        let ctx = match &mut self.playing {
            Some(c) => c,
            None => {
                return ;
            },
        };
        if !ctx.is_playing {
            return ;
        }
        let pr = match ctx.progress_ms {
            Some(p) => p,
            None => {
                return ;
            },
        };
        let np = pr.saturating_add(new_progress);
        let duration = match &ctx.item {
            Some(item) => match item.as_track() {
                Some(t) => Some(t.duration_ms),
                None => None,
            },
            None => None,
        };
        match duration {
            Some(d) => {
                if np > d {
                    ctx.progress_ms = Some(d);
                    ctx.is_playing = false;
                } else {
                    ctx.progress_ms = Some(np);
                }
            },
            None => {
                ctx.progress_ms = Some(np);
            },
        }
    }
}

/// The playback context after the local clock moved `add` milliseconds: the
/// progress advances (saturating) while playing, stops at the track's end,
/// and clears the playing flag there.
pub open spec fn spec_ticked_playing(
    playing: Option<PlaybackContext>,
    add: u32,
) -> Option<PlaybackContext> {
    match playing {
        None => None,
        Some(ctx) => {
            if !ctx.is_playing {
                Some(ctx)
            } else {
                match ctx.progress_ms {
                    None => Some(ctx),
                    Some(pr) => {
                        let np: u32 = if pr + add <= u32::MAX {
                            (pr + add) as u32
                        } else {
                            u32::MAX
                        };
                        let duration = match ctx.item {
                            Some(item) => match item.spec_as_track() {
                                Some(t) => Some(t.duration_ms),
                                None => None,
                            },
                            None => None,
                        };
                        match duration {
                            Some(d) => if np > d {
                                Some(
                                    PlaybackContext {
                                        is_playing: false,
                                        progress_ms: Some(d),
                                        ..ctx
                                    },
                                )
                            } else {
                                Some(PlaybackContext { progress_ms: Some(np), ..ctx })
                            },
                            None => Some(PlaybackContext { progress_ms: Some(np), ..ctx }),
                        }
                    },
                }
            }
        },
    }
}

/// Rendering the artwork for a key and then asking again for the same key
/// reports nothing to fetch: with the ASCII renderer, a repeated (url, size)
/// never refetches.
pub proof fn lemma_ascii_image_cached(ps: PlayerState, ascii: String, url: String, h: u16, w: u16)
    ensures
        ({
            let stored = PlayerState {
                image: PlayerImage::Ascii(
                    AsciiImage { ascii, image_url: url, rendered_at_size: WindowSize {
                        height: h,
                        width: w,
                    } },
                ),
                ..ps
            };
            spec_image_cached(stored.image, url@, h, w, ImageKind::Ascii)
        }),
{
}


/// What transliterating text to ASCII yields; it depends on the characters
/// alone.
pub uninterp spec fn transliterated(s: Seq<char>) -> Seq<char>;

/// Relies on deunicode::deunicode: the text transliterated to ASCII.
#[verifier::external_body]
fn deunicode_str(s: &str) -> (r: String)
    ensures
        r@ == transliterated(s@),
{
    deunicode::deunicode(s)
}

/// The song title as the player pane shows it: kept as it is when it is
/// pure ASCII, transliterated otherwise.
pub fn display_song_name(name: &str) -> (r: String)
    ensures
        r@ == (if vstd::string::is_ascii(name) {
            name@
        } else {
            transliterated(name@)
        }),
{
    if name.is_ascii() {
        name.to_owned()
    } else {
        deunicode_str(name)
    }
}

} // verus!
