//! Accent-colour extraction from album artwork, and the ASCII thumbnail.
//!
//! The artwork is subsampled on a fixed stride; samples that are nearly
//! black or nearly white are discarded as borders and backgrounds. Each
//! remaining distinct colour is scored by `density × saturation +
//! brightness × weight`, where density is the inverse of the summed
//! Euclidean distance to the other retained colours, and a penalty applies
//! above a brightness threshold. All arithmetic is exact fixed-point on a
//! million-step scale; distances are scaled integer square roots.

use sha2::Digest;
use vstd::prelude::*;

verus! {

/// An RGB colour.
#[derive(Debug, Clone, Copy, PartialEq, Eq, Structural)]
pub struct Rgb {
    pub r: u8,
    pub g: u8,
    pub b: u8,
}

/// The fallback accent colour, used when no artwork sample survives
/// filtering.
pub open spec fn spec_default_primary() -> (u8, u8, u8) {
    (135u8, 75u8, 252u8)
}

impl Rgb {
    pub open spec fn triple(&self) -> (u8, u8, u8) {
        (self.r, self.g, self.b)
    }

    pub fn from_triple(t: (u8, u8, u8)) -> (r: Rgb)
        ensures
            r.triple() == t,
    {
        Rgb { r: t.0, g: t.1, b: t.2 }
    }
}

impl Default for Rgb {
    /// The fallback accent colour.
    fn default() -> (r: Rgb)
        ensures
            r.triple() == spec_default_primary(),
    {
        Rgb { r: 135, g: 75, b: 252 }
    }
}

/// A decoded image: `width * height` pixels in row-major order.
pub struct PixelGrid {
    pub width: u32,
    pub height: u32,
    pub pixels: Vec<Rgb>,
}

/// The pixels as plain triples.
pub open spec fn rgb_seq(pixels: Seq<Rgb>) -> Seq<(u8, u8, u8)> {
    pixels.map_values(|p: Rgb| (p.r, p.g, p.b))
}

impl PixelGrid {
    pub open spec fn wf(&self) -> bool {
        self.pixels@.len() == (self.width as nat) * (self.height as nat)
    }
}

/// The summed channel value of a colour, `0..=765`.
pub open spec fn spec_channel_sum(c: (u8, u8, u8)) -> int {
    c.0 + c.1 + c.2
}

/// Nearly black: average channel brightness below 0.15, that is a channel
/// sum at most 114.
pub open spec fn spec_near_black(c: (u8, u8, u8)) -> bool {
    spec_channel_sum(c) <= 114
}

/// Nearly white: average channel brightness above 0.6, that is a channel
/// sum of at least 460.
pub open spec fn spec_near_white(c: (u8, u8, u8)) -> bool {
    spec_channel_sum(c) >= 460
}

/// A sample worth scoring: neither nearly black nor nearly white.
pub open spec fn spec_retained(c: (u8, u8, u8)) -> bool {
    !spec_near_black(c) && !spec_near_white(c)
}

fn channel_sum(c: &Rgb) -> (r: u32)
    ensures
        r == spec_channel_sum(c.triple()),
{
    c.r as u32 + c.g as u32 + c.b as u32
}

pub fn retained(c: &Rgb) -> (r: bool)
    ensures
        r == spec_retained(c.triple()),
{
    let sum = channel_sum(c);
    sum > 114 && sum < 460
}

/// Brightness on a million-step scale: `(r + g + b) / (3 * 255)`.
pub open spec fn spec_brightness_q(c: (u8, u8, u8)) -> int {
    spec_channel_sum(c) * 1000000 / 765
}

/// Saturation on a million-step scale: `(max - min) / max`, zero for black.
pub open spec fn spec_saturation_q(c: (u8, u8, u8)) -> int {
    let hi = spec_max3(c.0 as int, c.1 as int, c.2 as int);
    let lo = spec_min3(c.0 as int, c.1 as int, c.2 as int);
    if hi == 0 {
        0
    } else {
        (hi - lo) * 1000000 / hi
    }
}

pub open spec fn spec_max3(a: int, b: int, c: int) -> int {
    if a >= b && a >= c {
        a
    } else if b >= c {
        b
    } else {
        c
    }
}

pub open spec fn spec_min3(a: int, b: int, c: int) -> int {
    if a <= b && a <= c {
        a
    } else if b <= c {
        b
    } else {
        c
    }
}

/// The integer square root: the largest `r` with `r * r <= x`.
pub open spec fn spec_isqrt(x: nat) -> nat
    decreases x,
{
    if x == 0 {
        0nat
    } else {
        let p = spec_isqrt((x - 1) as nat);
        if (p + 1) * (p + 1) <= x {
            p + 1
        } else {
            p
        }
    }
}

proof fn lemma_isqrt_bounds(x: nat)
    ensures
        spec_isqrt(x) * spec_isqrt(x) <= x,
        x < (spec_isqrt(x) + 1) * (spec_isqrt(x) + 1),
    decreases x,
{
    if x > 0 {
        lemma_isqrt_bounds((x - 1) as nat);
        let p = spec_isqrt((x - 1) as nat);
        if (p + 1) * (p + 1) <= x {
            assert(spec_isqrt(x) == p + 1);
            assert(x < (p + 2) * (p + 2)) by (nonlinear_arith)
                requires
                    x - 1 < (p + 1) * (p + 1),
                    p >= 0,
            ;
            assert((spec_isqrt(x) + 1) * (spec_isqrt(x) + 1) == (p + 2) * (p + 2))
                by (nonlinear_arith)
                requires
                    spec_isqrt(x) == p + 1,
            ;
            assert(x < (spec_isqrt(x) + 1) * (spec_isqrt(x) + 1));
        } else {
            assert(spec_isqrt(x) == p);
            assert(p * p <= x - 1);
            assert(x < (spec_isqrt(x) + 1) * (spec_isqrt(x) + 1));
        }
    } else {
        let s = spec_isqrt(x);
        assert(s == 0);
        assert((s + 1) * (s + 1) == 1) by (nonlinear_arith)
            requires
                s == 0,
        ;
    }
}

proof fn lemma_isqrt_unique(x: nat, r: nat)
    requires
        r * r <= x,
        x < (r + 1) * (r + 1),
    ensures
        r == spec_isqrt(x),
{
    lemma_isqrt_bounds(x);
    let s = spec_isqrt(x);
    if r < s {
        assert((r + 1) * (r + 1) <= s * s) by (nonlinear_arith)
            requires
                r + 1 <= s,
                r >= 0,
        ;
    }
    if s < r {
        assert((s + 1) * (s + 1) <= r * r) by (nonlinear_arith)
            requires
                s + 1 <= r,
                s >= 0,
        ;
    }
}

/// The integer square root, by binary search.
pub fn isqrt(x: u64) -> (r: u64)
    ensures
        r == spec_isqrt(x as nat),
{
    let mut lo: u64 = 0;
    let mut hi: u64 = if x < 0xffff_ffff {
        x
    } else {
        0xffff_ffff
    };
    // invariant: lo * lo <= x < (hi + 1) * (hi + 1)
    proof {
        if x < 0xffff_ffff {
            assert((x as nat) < ((x as nat) + 1) * ((x as nat) + 1)) by (nonlinear_arith);
        } else {
            assert((x as nat) < (0xffff_ffffnat + 1) * (0xffff_ffffnat + 1)) by (nonlinear_arith)
                requires
                    x <= 0xffff_ffff_ffff_ffffu64,
            ;
        }
    }
    while lo < hi
        invariant
            lo <= hi <= 0xffff_ffffu64,
            (lo as nat) * (lo as nat) <= x as nat,
            (x as nat) < ((hi as nat) + 1) * ((hi as nat) + 1),
        decreases hi - lo,
    {
        let mid = lo + (hi - lo + 1) / 2;
        proof {
            assert((mid as int) * (mid as int) <= 0xffff_ffff * 0xffff_ffff) by (nonlinear_arith)
                requires
                    0 <= mid <= 0xffff_ffffu64,
            ;
        }
        if mid * mid <= x {
            lo = mid;
        } else {
            hi = mid - 1;
            proof {
                assert((x as nat) < ((mid - 1) as nat + 1) * (((mid - 1) as nat) + 1));
            }
        }
    }
    proof {
        lemma_isqrt_unique(x as nat, lo as nat);
    }
    lo
}

/// The distance between two colours, scaled a thousandfold: the integer
/// square root of the squared Euclidean channel distance times a million.
pub open spec fn spec_dist_q(a: (u8, u8, u8), b: (u8, u8, u8)) -> nat {
    spec_isqrt((spec_sq_dist(a, b) * 1000000) as nat)
}

pub open spec fn spec_sq_dist(a: (u8, u8, u8), b: (u8, u8, u8)) -> int {
    (a.0 - b.0) * (a.0 - b.0) + (a.1 - b.1) * (a.1 - b.1) + (a.2 - b.2) * (a.2 - b.2)
}

fn abs_diff(a: u8, b: u8) -> (r: u32)
    ensures
        (r as int) * (r as int) == (a - b) * (a - b),
        r <= 255,
{
    if a >= b {
        (a - b) as u32
    } else {
        let d = (b - a) as u32;
        proof {
            assert((d as int) * (d as int) == (a - b) * (a - b)) by (nonlinear_arith)
                requires
                    d == b - a,
            ;
        }
        d
    }
}

fn dist_q(a: &Rgb, b: &Rgb) -> (r: u64)
    ensures
        r == spec_dist_q(a.triple(), b.triple()),
        r <= 441674,
{
    let dr = abs_diff(a.r, b.r);
    let dg = abs_diff(a.g, b.g);
    let db = abs_diff(a.b, b.b);
    proof {
        assert((dr as int) * (dr as int) <= 65025 && (dg as int) * (dg as int) <= 65025 && (
        db as int) * (db as int) <= 65025) by (nonlinear_arith)
            requires
                dr <= 255,
                dg <= 255,
                db <= 255,
        ;
    }
    let d2: u64 = (dr * dr + dg * dg + db * db) as u64;
    assert(d2 == spec_sq_dist(a.triple(), b.triple()));
    assert(d2 <= 195075) by (nonlinear_arith)
        requires
            d2 == (dr as int) * (dr as int) + (dg as int) * (dg as int) + (db as int) * (db as int),
            dr <= 255,
            dg <= 255,
            db <= 255,
    ;
    let r = isqrt(d2 * 1000000);
    proof {
        lemma_isqrt_bounds((d2 * 1000000) as nat);
        assert(441675 * 441675 > 195075000000) by (nonlinear_arith);
        if r > 441674 {
            assert((r as nat) * (r as nat) >= 441675 * 441675) by (nonlinear_arith)
                requires
                    r >= 441675,
            ;
        }
    }
    r
}

/// The summed scaled distance from `c` to every other colour in the list; a
/// colour equal to `c` contributes nothing.
pub open spec fn spec_total_dist(cs: Seq<(u8, u8, u8)>, c: (u8, u8, u8)) -> nat
    decreases cs.len(),
{
    if cs.len() == 0 {
        0nat
    } else {
        (if cs[0] == c {
            0nat
        } else {
            spec_dist_q(cs[0], c)
        }) + spec_total_dist(cs.drop_first(), c)
    }
}

/// The score of the colour at `i`, on the million-step scale:
/// `saturation / (total_distance + 1) + brightness / 5`, less a 0.3 penalty
/// when brightness exceeds 0.85 (a channel sum of at least 651).
pub open spec fn spec_score(cs: Seq<(u8, u8, u8)>, i: int) -> int {
    let c = cs[i];
    let total = spec_total_dist(cs, c);
    let density_term = spec_saturation_q(c) * 1000 / (total as int + 1000);
    let bright = spec_brightness_q(c);
    density_term + bright / 5 - (if spec_channel_sum(c) >= 651 {
        300000int
    } else {
        0int
    })
}

/// The best colour from `i` on, given the best seen so far: a strictly
/// higher score replaces the running choice.
pub open spec fn spec_best_from(
    cs: Seq<(u8, u8, u8)>,
    i: nat,
    best: (u8, u8, u8),
    best_score: int,
) -> (u8, u8, u8)
    decreases cs.len() - i,
{
    if i >= cs.len() {
        best
    } else {
        let sc = spec_score(cs, i as int);
        if sc > best_score {
            spec_best_from(cs, i + 1, cs[i as int], sc)
        } else {
            spec_best_from(cs, i + 1, best, best_score)
        }
    }
}

/// The accent choice over a list of retained colours: the first colour of
/// maximal positive score, or black when none scores above zero.
pub open spec fn spec_best_colour(cs: Seq<(u8, u8, u8)>) -> (u8, u8, u8) {
    spec_best_from(cs, 0, (0u8, 0u8, 0u8), 0)
}

fn total_dist(cs: &Vec<Rgb>, c: &Rgb) -> (r: u128)
    ensures
        r == spec_total_dist(rgb_seq(cs@), c.triple()),
        (r as int) <= 441674 * 0xffff_ffff_ffff_ffff,
{
    let ghost csv = rgb_seq(cs@);
    let mut acc: u128 = 0;
    let mut i: usize = 0;
    proof {
        assert(csv.subrange(0, csv.len() as int) =~= csv);
    }
    while i < cs.len()
        invariant
            i <= cs@.len(),
            csv == rgb_seq(cs@),
            csv.len() == cs@.len(),
            acc <= 441674 * (i as int),
            (i as int) <= 0xffff_ffff_ffff_ffff,
            acc + spec_total_dist(csv.subrange(i as int, csv.len() as int), c.triple())
                == spec_total_dist(csv, c.triple()),
        decreases cs@.len() - i,
    {
        proof {
            assert(csv[i as int] == (cs@[i as int].r, cs@[i as int].g, cs@[i as int].b));
            assert(csv.subrange(i as int, csv.len() as int).drop_first() =~= csv.subrange(
                i + 1 as int,
                csv.len() as int,
            ));
        }
        let same = cs[i].r == c.r && cs[i].g == c.g && cs[i].b == c.b;
        if !same {
            let d = dist_q(&cs[i], c);
            acc = acc + d as u128;
        }
        i += 1;
    }
    proof {
        assert(csv.subrange(csv.len() as int, csv.len() as int) =~= Seq::<(u8, u8, u8)>::empty());
    }
    acc
}

fn saturation_q(c: &Rgb) -> (r: u64)
    ensures
        r == spec_saturation_q(c.triple()),
        r <= 1000000,
{
    let hi = if c.r >= c.g && c.r >= c.b {
        c.r
    } else if c.g >= c.b {
        c.g
    } else {
        c.b
    };
    let lo = if c.r <= c.g && c.r <= c.b {
        c.r
    } else if c.g <= c.b {
        c.g
    } else {
        c.b
    };
    if hi == 0 {
        0
    } else {
        let num = ((hi - lo) as u64) * 1000000;
        let r = num / (hi as u64);
        proof {
            assert(((hi - lo) as int) * 1000000 / (hi as int) <= 1000000) by (nonlinear_arith)
                requires
                    0 < hi <= 255,
                    0 <= lo <= hi,
            ;
        }
        r
    }
}

fn brightness_q(c: &Rgb) -> (r: u64)
    ensures
        r == spec_brightness_q(c.triple()),
        r <= 1000000,
{
    let sum = channel_sum(c) as u64;
    let r = (sum * 1000000) / 765;
    proof {
        assert((sum as int) * 1000000 / 765 <= 1000000) by (nonlinear_arith)
            requires
                0 <= sum <= 765,
        ;
    }
    r
}

/// The score of `cs[i]` against the whole list.
fn score_colour(cs: &Vec<Rgb>, i: usize) -> (r: i128)
    requires
        i < cs@.len(),
    ensures
        r == spec_score(rgb_seq(cs@), i as int),
{
    proof {
        assert(rgb_seq(cs@)[i as int] == (cs@[i as int].r, cs@[i as int].g, cs@[i as int].b));
    }
    let c = Rgb { r: cs[i].r, g: cs[i].g, b: cs[i].b };
    let total = total_dist(cs, &c);
    let sat = saturation_q(&c);
    let density_term = ((sat as u128) * 1000) / (total + 1000);
    proof {
        assert((sat as int) * 1000 / ((total as int) + 1000) <= 1000000) by (nonlinear_arith)
            requires
                0 <= sat <= 1000000,
                total >= 0,
        ;
    }
    let bright = brightness_q(&c);
    let sum = channel_sum(&c);
    let penalty: i128 = if sum >= 651 {
        300000
    } else {
        0
    };
    (density_term as i128) + (bright / 5) as i128 - penalty
}

/// The first colour of maximal positive score, or black when none scores
/// above zero.
pub fn best_colour(cs: &Vec<Rgb>) -> (r: Rgb)
    ensures
        r.triple() == spec_best_colour(rgb_seq(cs@)),
{
    let ghost csv = rgb_seq(cs@);
    let mut best = Rgb { r: 0, g: 0, b: 0 };
    let mut best_score: i128 = 0;
    let mut i: usize = 0;
    while i < cs.len()
        invariant
            i <= cs@.len(),
            csv == rgb_seq(cs@),
            csv.len() == cs@.len(),
            spec_best_from(csv, i as nat, best.triple(), best_score as int) == spec_best_colour(
                csv,
            ),
        decreases cs@.len() - i,
    {
        proof {
            assert(csv[i as int] == (cs@[i as int].r, cs@[i as int].g, cs@[i as int].b));
        }
        let sc = score_colour(cs, i);
        if sc > best_score {
            best = Rgb { r: cs[i].r, g: cs[i].g, b: cs[i].b };
            best_score = sc;
        }
        i += 1;
    }
    best
}

/// Whether flat pixel index `i` lies on the sampling grid: both its column
/// and its row are multiples of the stride.
pub open spec fn spec_sampled(i: int, width: int, step: int) -> bool {
    (i % width) % step == 0 && (i / width) % step == 0
}

/// The distinct retained colours among the first `n` pixels that lie on the
/// sampling grid, in first-occurrence order.
pub open spec fn spec_sampled_colours(
    pixels: Seq<(u8, u8, u8)>,
    width: int,
    step: int,
    n: int,
) -> Seq<(u8, u8, u8)>
    decreases n,
{
    if n <= 0 {
        Seq::empty()
    } else {
        let prev = spec_sampled_colours(pixels, width, step, n - 1);
        let c = pixels[n - 1];
        if spec_sampled(n - 1, width, step) && spec_retained(c) && !prev.contains(c) {
            prev.push(c)
        } else {
            prev
        }
    }
}

/// Whether the colour already occurs in the list.
fn contains_colour(cs: &Vec<Rgb>, c: &Rgb) -> (r: bool)
    ensures
        r == rgb_seq(cs@).contains(c.triple()),
{
    let ghost csv = rgb_seq(cs@);
    let mut i: usize = 0;
    while i < cs.len()
        invariant
            i <= cs@.len(),
            csv == rgb_seq(cs@),
            csv.len() == cs@.len(),
            forall|k: int| 0 <= k < i ==> csv[k] != c.triple(),
        decreases cs@.len() - i,
    {
        proof {
            assert(csv[i as int] == (cs@[i as int].r, cs@[i as int].g, cs@[i as int].b));
        }
        if cs[i].r == c.r && cs[i].g == c.g && cs[i].b == c.b {
            return true;
        }
        i += 1;
    }
    false
}

/// The distinct retained colours of the sampling grid, in first-occurrence
/// order over the row-major pixels.
pub fn sampled_colours(grid: &PixelGrid, step: u32) -> (r: Vec<Rgb>)
    requires
        grid.wf(),
        step > 0,
        grid.width > 0,
    ensures
        rgb_seq(r@) == spec_sampled_colours(
            rgb_seq(grid.pixels@),
            grid.width as int,
            step as int,
            grid.pixels@.len() as int,
        ),
{
    let ghost pv = rgb_seq(grid.pixels@);
    let mut out: Vec<Rgb> = Vec::new();
    let mut i: usize = 0;
    let n = grid.pixels.len();
    while i < n
        invariant
            i <= n,
            n == grid.pixels@.len(),
            pv == rgb_seq(grid.pixels@),
            pv.len() == n,
            grid.width > 0,
            step > 0,
            rgb_seq(out@) == spec_sampled_colours(pv, grid.width as int, step as int, i as int),
        decreases n - i,
    {
        proof {
            assert(pv[i as int] == (grid.pixels@[i as int].r, grid.pixels@[i as int].g,
            grid.pixels@[i as int].b));
        }
        let x = i % (grid.width as usize);
        let y = i / (grid.width as usize);
        let c = Rgb { r: grid.pixels[i].r, g: grid.pixels[i].g, b: grid.pixels[i].b };
        if x % (step as usize) == 0 && y % (step as usize) == 0 && retained(&c) && !contains_colour(
            &out,
            &c,
        ) {
            out.push(c);
            proof {
                assert(rgb_seq(out@) =~= rgb_seq(out@.drop_last()).push(c.triple()));
            }
        }
        i += 1;
    }
    out
}

/// The accent colour of a decoded image, sampled on the given stride: the
/// best-scoring retained sample, or the fixed fallback when none survives
/// filtering.
pub open spec fn spec_accent_colour(pixels: Seq<(u8, u8, u8)>, width: int, step: int) -> (
    u8,
    u8,
    u8,
) {
    let cs = spec_sampled_colours(pixels, width, step, pixels.len() as int);
    if cs.len() == 0 {
        spec_default_primary()
    } else {
        spec_best_colour(cs)
    }
}

/// The sampling stride: every tenth pixel in both axes.
pub const COLOUR_SAMPLE_STEP: u32 = 10;

/// Derives the accent colour of a decoded image.
pub fn accent_colour(grid: &PixelGrid) -> (r: Rgb)
    requires
        grid.wf(),
    ensures
        grid.width > 0 ==> r.triple() == spec_accent_colour(
            rgb_seq(grid.pixels@),
            grid.width as int,
            COLOUR_SAMPLE_STEP as int,
        ),
        grid.width == 0 ==> r.triple() == spec_default_primary(),
{
    if grid.width == 0 {
        return Rgb::default();
    }
    let cs = sampled_colours(grid, COLOUR_SAMPLE_STEP);
    if cs.len() == 0 {
        Rgb::default()
    } else {
        best_colour(&cs)
    }
}

/// The character ramp of the ASCII thumbnail, from dark to light.
pub open spec fn spec_brightness_ascii(luma: u8) -> char {
    let idx = (14 * luma + 255) / 510;
    if idx == 0 {
        '#'
    } else if idx == 1 {
        '+'
    } else if idx == 2 {
        '='
    } else if idx == 3 {
        '-'
    } else if idx == 4 {
        '|'
    } else if idx == 5 {
        ':'
    } else if idx == 6 {
        '.'
    } else {
        ' '
    }
}

/// The ramp character nearest to the pixel's brightness: index
/// `round(luma / 255 * 7)` into the eight-step ramp.
pub fn brightness_to_ascii(luma: u8) -> (r: char)
    ensures
        r == spec_brightness_ascii(luma),
{
    let idx = (14 * (luma as u32) + 255) / 510;
    if idx == 0 {
        '#'
    } else if idx == 1 {
        '+'
    } else if idx == 2 {
        '='
    } else if idx == 3 {
        '-'
    } else if idx == 4 {
        '|'
    } else if idx == 5 {
        ':'
    } else if idx == 6 {
        '.'
    } else {
        ' '
    }
}

/// One row of the ASCII thumbnail: the ramp character of each pixel's first
/// channel.
pub open spec fn spec_ascii_row(pixels: Seq<(u8, u8, u8)>, width: int, y: int) -> Seq<char> {
    Seq::new(width as nat, |x: int| spec_brightness_ascii(pixels[y * width + x].0))
}

/// The ASCII thumbnail of the first `h` rows, each closed by a newline.
pub open spec fn spec_ascii_image(pixels: Seq<(u8, u8, u8)>, width: int, h: int) -> Seq<char>
    decreases h,
{
    if h <= 0 {
        Seq::empty()
    } else {
        spec_ascii_image(pixels, width, h - 1) + spec_ascii_row(pixels, width, h - 1) + seq!['\n']
    }
}

proof fn lemma_row_index_in_bounds(x: int, y: int, width: int, height: int)
    requires
        0 <= x < width,
        0 <= y < height,
    ensures
        0 <= y * width + x < width * height,
    decreases height,
{
    assert(y * width + x < width * height) by (nonlinear_arith)
        requires
            0 <= x < width,
            0 <= y < height,
    ;
    assert(y * width >= 0) by (nonlinear_arith)
        requires
            y >= 0,
            width > 0,
    ;
}

/// Renders the decoded image as one ASCII character per pixel, rows
/// separated by newlines.
pub fn image_to_ascii(grid: &PixelGrid) -> (r: String)
    requires
        grid.wf(),
    ensures
        r@ == spec_ascii_image(rgb_seq(grid.pixels@), grid.width as int, grid.height as int),
{
    let ghost pv = rgb_seq(grid.pixels@);
    let n = grid.pixels.len();
    let mut cs: Vec<char> = Vec::new();
    let mut y: u32 = 0;
    while y < grid.height
        invariant
            y <= grid.height,
            grid.wf(),
            pv == rgb_seq(grid.pixels@),
            pv.len() == grid.pixels@.len(),
            n == grid.pixels@.len(),
            cs@ == spec_ascii_image(pv, grid.width as int, y as int),
        decreases grid.height - y,
    {
        let ghost row_start = cs@;
        let mut x: u32 = 0;
        while x < grid.width
            invariant
                x <= grid.width,
                y < grid.height,
                grid.wf(),
                pv == rgb_seq(grid.pixels@),
                pv.len() == grid.pixels@.len(),
                n == grid.pixels@.len(),
                row_start == spec_ascii_image(pv, grid.width as int, y as int),
                cs@ == row_start + spec_ascii_row(pv, grid.width as int, y as int).subrange(
                    0,
                    x as int,
                ),
            decreases grid.width - x,
        {
            proof {
                lemma_row_index_in_bounds(x as int, y as int, grid.width as int, grid.height as int);
                assert((grid.width as nat) * (grid.height as nat) == (grid.width as int) * (
                grid.height as int));
                assert((y as int) * (grid.width as int) + (x as int) < n as int);
            }
            let idx: usize = (y as usize) * (grid.width as usize) + (x as usize);
            proof {
                assert(pv[idx as int] == (grid.pixels@[idx as int].r, grid.pixels@[idx as int].g,
                grid.pixels@[idx as int].b));
            }
            let c = brightness_to_ascii(grid.pixels[idx].r);
            cs.push(c);
            proof {
                assert(cs@ =~= row_start + spec_ascii_row(pv, grid.width as int, y as int).subrange(
                    0,
                    x + 1 as int,
                ));
            }
            x += 1;
        }
        cs.push('\n');
        proof {
            assert(spec_ascii_row(pv, grid.width as int, y as int).subrange(
                0,
                grid.width as int,
            ) =~= spec_ascii_row(pv, grid.width as int, y as int));
            assert(cs@ =~= spec_ascii_image(pv, grid.width as int, y + 1 as int));
        }
        y += 1;
    }
    crate::chars::chars_to_string(&cs)
}

/// Failure to decode image bytes into a pixel grid.
#[derive(Debug, Clone, Copy, PartialEq, Eq, Structural)]
pub struct DecodeError;

/// What the image bytes decode to, if anything: width, height, and the
/// row-major RGB pixels. Decoding depends on the bytes alone.
pub uninterp spec fn decoded_rgb(bytes: Seq<u8>) -> Option<(u32, u32, Seq<(u8, u8, u8)>)>;

/// Relies on image::load_from_memory and RgbImage's accessors: decodes the
/// bytes into an RGB pixel grid of width times height pixels, or fails on
/// malformed data.
#[verifier::external_body]
pub(crate) fn decode_image(bytes: &Vec<u8>) -> (r: Result<PixelGrid, DecodeError>)
    ensures
        match r {
            Ok(g) => decoded_rgb(bytes@) == Some((g.width, g.height, rgb_seq(g.pixels@)))
                && g.wf(),
            Err(_) => decoded_rgb(bytes@) is None,
        },
{
    let img = match image::load_from_memory(bytes) {
        Ok(img) => img,
        Err(_) => {
            return Err(DecodeError);
        },
    };
    let rgb = img.to_rgb8();
    let (width, height) = rgb.dimensions();
    let pixels = rgb.pixels().map(|p| Rgb { r: p[0], g: p[1], b: p[2] }).collect();
    Ok(PixelGrid { width, height, pixels })
}

/// What nearest-neighbour resampling of a pixel grid to the new dimensions
/// yields. It depends on the source pixels and the dimensions alone.
pub uninterp spec fn resized_nearest(
    pixels: Seq<(u8, u8, u8)>,
    width: u32,
    height: u32,
    new_width: u32,
    new_height: u32,
) -> Seq<(u8, u8, u8)>;

/// Relies on image::imageops::resize with the nearest-neighbour filter: the
/// grid resampled to the new dimensions, not preserving aspect ratio.
#[verifier::external_body]
pub(crate) fn resize_nearest(grid: &PixelGrid, new_width: u32, new_height: u32) -> (r: PixelGrid)
    requires
        grid.wf(),
    ensures
        r.width == new_width,
        r.height == new_height,
        r.wf(),
        rgb_seq(r.pixels@) == resized_nearest(
            rgb_seq(grid.pixels@),
            grid.width,
            grid.height,
            new_width,
            new_height,
        ),
{
    let mut raw: Vec<u8> = Vec::new();
    for p in &grid.pixels {
        raw.push(p.r);
        raw.push(p.g);
        raw.push(p.b);
    }
    let buf = image::RgbImage::from_raw(grid.width, grid.height, raw).unwrap();
    let out = image::imageops::resize(&buf, new_width, new_height, image::imageops::FilterType::Nearest);
    let pixels = out.pixels().map(|p| Rgb { r: p[0], g: p[1], b: p[2] }).collect();
    PixelGrid { width: new_width, height: new_height, pixels }
}

/// The SHA-256 digest of the bytes: 32 bytes, a function of the input alone.
pub uninterp spec fn sha256_of(bytes: Seq<u8>) -> Seq<u8>;

/// Relies on sha2::Sha256: computes the SHA-256 digest of the bytes.
#[verifier::external_body]
pub(crate) fn hash_bytes(bytes: &Vec<u8>) -> (r: Vec<u8>)
    ensures
        r@ == sha256_of(bytes@),
        r@.len() == 32,
{
    let mut hasher = sha2::Sha256::new();
    hasher.update(bytes.as_slice());
    hasher.finalize().to_vec()
}

/// Whether two byte strings are equal.
pub fn bytes_eq(a: &Vec<u8>, b: &Vec<u8>) -> (r: bool)
    ensures
        r == (a@ == b@),
{
    if a.len() != b.len() {
        return false;
    }
    let mut i: usize = 0;
    while i < a.len()
        invariant
            i <= a@.len(),
            a@.len() == b@.len(),
            forall|k: int| 0 <= k < i ==> a@[k] == b@[k],
        decreases a@.len() - i,
    {
        if a[i] != b[i] {
            return false;
        }
        i += 1;
    }
    proof {
        assert(a@ =~= b@);
    }
    true
}

#[verifier::external_type_specification]
#[verifier::external_body]
#[verifier::reject_recursive_types(K)]
#[verifier::reject_recursive_types(V)]
#[verifier::reject_recursive_types(S)]
pub struct ExDashMap<K, V, S>(dashmap::DashMap<K, V, S>);

/// One cache entry: the digest of the artwork bytes and the colour computed
/// from them.
pub type CachedColour = (Vec<u8>, (u8, u8, u8));

/// What the accent-colour cache holds: for each artwork URL, the digest of
/// the bytes the colour was computed from, and that colour.
pub uninterp spec fn cache_entries(
    m: dashmap::DashMap<String, CachedColour, std::collections::hash_map::RandomState>,
) -> Map<Seq<char>, (Seq<u8>, (u8, u8, u8))>;


/// An empty accent-colour cache view.
pub open spec fn empty_cache_view() -> Map<Seq<char>, (Seq<u8>, (u8, u8, u8))> {
    Map::empty()
}

/// Relies on dashmap::DashMap::new: the fresh map holds nothing.
#[verifier::external_body]
fn cache_new() -> (r: dashmap::DashMap<String, CachedColour>)
    ensures
        cache_entries(r) == empty_cache_view(),
{
    dashmap::DashMap::new()
}

/// Relies on dashmap::DashMap::get: the value stored under the key, if any.
#[verifier::external_body]
fn cache_get(m: &dashmap::DashMap<String, CachedColour>, url: &String) -> (r: Option<
    CachedColour,
>)
    ensures
        match r {
            Some(v) => cache_entries(*m).contains_key(url@) && cache_entries(*m)[url@] == (
                v.0@,
                v.1,
            ),
            None => !cache_entries(*m).contains_key(url@),
        },
{
    m.get(url).map(|e| e.value().clone())
}

/// Relies on dashmap::DashMap::insert: maps the key to the value, replacing
/// any earlier entry.
#[verifier::external_body]
fn cache_insert(
    m: &mut dashmap::DashMap<String, CachedColour>,
    url: String,
    value: CachedColour,
)
    ensures
        cache_entries(*final(m)) == cache_entries(*old(m)).insert(url@, (value.0@, value.1)),
{
    m.insert(url, value);
}

/// The accent-colour cache: remembers, per artwork URL, the digest of the
/// bytes an accent colour was computed from, so that the same artwork is
/// never re-scored.
pub struct ColourCache {
    cache: dashmap::DashMap<String, CachedColour>,
}

impl ColourCache {
    /// The cached (digest, colour) pair of each URL.
    pub closed spec fn entries(&self) -> Map<Seq<char>, (Seq<u8>, (u8, u8, u8))> {
        cache_entries(self.cache)
    }

    pub fn new() -> (r: ColourCache)
        ensures
            r.entries() == empty_cache_view(),
    {
        ColourCache { cache: cache_new() }
    }

    /// The accent colour of the artwork at `url` with the given content.
    /// When the cache holds this URL with the digest of these same bytes,
    /// the cached colour is returned and nothing is recomputed; otherwise
    /// the bytes are decoded, scored, and the result cached. Malformed bytes
    /// fail with `DecodeError` and leave the cache unchanged.
    pub fn colour_for_bytes(&mut self, url: &String, bytes: &Vec<u8>) -> (r: Result<
        Rgb,
        DecodeError,
    >)
        ensures
            ({
                let hit = old(self).entries().contains_key(url@) && old(self).entries()[url@].0
                    == sha256_of(bytes@);
                if hit {
                    &&& (match r {
                        Ok(c) => c.triple() == old(self).entries()[url@].1,
                        Err(_) => false,
                    })
                    &&& final(self).entries() == old(self).entries()
                } else {
                    match decoded_rgb(bytes@) {
                        Some(d) => match r {
                            Ok(c) => {
                                &&& c.triple() == (if d.0 > 0 {
                                    spec_accent_colour(d.2, d.0 as int, COLOUR_SAMPLE_STEP as int)
                                } else {
                                    spec_default_primary()
                                })
                                &&& final(self).entries() == old(self).entries().insert(
                                    url@,
                                    (sha256_of(bytes@), c.triple()),
                                )
                            },
                            Err(_) => false,
                        },
                        None => r is Err && final(self).entries() == old(self).entries(),
                    }
                }
            }),
    {
        let hash = hash_bytes(bytes);
        let cached = cache_get(&self.cache, url);
        if let Some(entry) = cached {
            if bytes_eq(&entry.0, &hash) {
                return Ok(Rgb::from_triple(entry.1));
            }
        }
        let grid = match decode_image(bytes) {
            Ok(g) => g,
            Err(e) => {
                return Err(e);
            },
        };
        let colour = accent_colour(&grid);
        cache_insert(&mut self.cache, url.clone(), (hash, (colour.r, colour.g, colour.b)));
        Ok(colour)
    }
}

/// The image resampled to the given dimensions with the nearest-neighbour
/// filter, for a renderer that needs one pixel per cell.
pub fn resize_grid(grid: &PixelGrid, new_width: u32, new_height: u32) -> (r: PixelGrid)
    requires
        grid.wf(),
    ensures
        r.width == new_width,
        r.height == new_height,
        r.wf(),
        rgb_seq(r.pixels@) == resized_nearest(
            rgb_seq(grid.pixels@),
            grid.width,
            grid.height,
            new_width,
            new_height,
        ),
{
    resize_nearest(grid, new_width, new_height)
}

/// The ASCII thumbnail of encoded image bytes: decoded, resampled to the
/// thumbnail bounds of the window, and rendered one ramp character per
/// pixel.
pub fn ascii_art_from_bytes(bytes: &Vec<u8>, window_width: u16, window_height: u16) -> (r: Result<
    String,
    DecodeError,
>)
    ensures
        match r {
            Ok(s) => match decoded_rgb(bytes@) {
                Some(d) => {
                    let w = window_width as u32 / 4;
                    let h = (if window_height >= 7 {
                        (window_height - 7) as u32 / 2
                    } else {
                        0u32
                    });
                    s@ == spec_ascii_image(
                        resized_nearest(d.2, d.0, d.1, w, h),
                        w as int,
                        h as int,
                    )
                },
                None => false,
            },
            Err(_) => decoded_rgb(bytes@) is None,
        },
{
    let grid = match decode_image(bytes) {
        Ok(g) => g,
        Err(e) => {
            return Err(e);
        },
    };
    let (w, h) = crate::window_width_height(window_width, window_height);
    let resized = resize_nearest(&grid, w, h);
    Ok(image_to_ascii(&resized))
}

} // verus!
