//! Glyph renderer: maps an 8×8 monochrome bitmap font onto sub-cell Unicode
//! block elements.
//!
//! A terminal cell can show one character; by choosing a block element whose
//! filled sub-cells mirror one, two, four or six bitmap pixels, more visual
//! detail is packed into each cell. `Size` selects how many bitmap pixels a
//! cell covers, and `symbol` picks the character for one cell of a glyph.

use font8x8::UnicodeFonts;
use vstd::prelude::*;

verus! {

/// How many bitmap pixels one terminal cell covers.
#[derive(Debug, Clone, Copy, PartialEq, Eq, Structural)]
pub enum Size {
    /// One pixel per cell.
    Full,
    /// One column, two rows per cell.
    HalfHeight,
    /// Two columns, one row per cell.
    HalfWidth,
    /// Two columns, two rows per cell.
    Quarter,
    /// Two columns, three rows per cell.
    Sixth,
}

impl Default for Size {
    fn default() -> (r: Size)
        ensures
            r == Size::Full,
    {
        Size::Full
    }
}

/// Whether bit `col` of one bitmap row is set.
pub open spec fn spec_glyph_bit(b: u8, col: u32) -> bool {
    ((b as u32) >> col) & 1 == 1
}

fn glyph_bit(b: u8, col: u32) -> (r: bool)
    requires
        col < 32,
    ensures
        r == spec_glyph_bit(b, col),
{
    ((b as u32) >> col) & 1 == 1
}

/// Bit `col` of row `row`, treating rows at or past the glyph's end as
/// empty.
pub open spec fn spec_glyph_bit_at(glyph: Seq<u8>, row: int, col: int) -> bool {
    if 0 <= row < glyph.len() && 0 <= col {
        spec_glyph_bit(glyph[row], col as u32)
    } else {
        false
    }
}

impl Size {
    /// The `(columns, rows)` of bitmap pixels that one terminal cell covers
    /// at this size.
    pub fn pixels_per_cell(&self) -> (r: (u16, u16))
        ensures
            r == match *self {
                Size::Full => (1u16, 1u16),
                Size::HalfHeight => (1u16, 2u16),
                Size::HalfWidth => (2u16, 1u16),
                Size::Quarter => (2u16, 2u16),
                Size::Sixth => (2u16, 3u16),
            },
    {
        match self {
            Size::Full => (1, 1),
            Size::HalfHeight => (1, 2),
            Size::HalfWidth => (2, 1),
            Size::Quarter => (2, 2),
            Size::Sixth => (2, 3),
        }
    }

    /// The rows and columns that `symbol` reads at this size, within the
    /// 8×8 glyph. The multi-row sizes bounds-check their second and third
    /// rows themselves and read rows past the glyph's end as empty, so only
    /// the first row is constrained.
    pub open spec fn spec_in_bounds(&self, row: int, col: int) -> bool {
        match *self {
            Size::Full => 0 <= row < 8 && 0 <= col < 8,
            Size::HalfHeight => 0 <= row < 8 && 0 <= col < 8,
            Size::HalfWidth => 0 <= row < 8 && 0 <= col && col + 1 < 8,
            Size::Quarter => 0 <= row < 8 && 0 <= col && col + 1 < 8,
            Size::Sixth => 0 <= row < 8 && 0 <= col && col + 1 < 8,
        }
    }

    /// The block element for the cell at `(row, col)` of the glyph.
    pub open spec fn spec_symbol(&self, glyph: Seq<u8>, row: int, col: int) -> char {
        match *self {
            Size::Full => if spec_glyph_bit_at(glyph, row, col) {
                '█'
            } else {
                ' '
            },
            Size::HalfHeight => spec_half_height_symbol(
                spec_glyph_bit_at(glyph, row, col),
                spec_glyph_bit_at(glyph, row + 1, col),
            ),
            Size::HalfWidth => spec_half_width_symbol(
                spec_glyph_bit_at(glyph, row, col),
                spec_glyph_bit_at(glyph, row, col + 1),
            ),
            Size::Quarter => spec_quadrant_symbol(
                bit_index(spec_glyph_bit_at(glyph, row, col)) + 2 * bit_index(
                    spec_glyph_bit_at(glyph, row, col + 1),
                ) + 4 * bit_index(spec_glyph_bit_at(glyph, row + 1, col)) + 8 * bit_index(
                    spec_glyph_bit_at(glyph, row + 1, col + 1),
                ),
            ),
            Size::Sixth => spec_sixth_symbol(
                bit_index(spec_glyph_bit_at(glyph, row, col)) + 2 * bit_index(
                    spec_glyph_bit_at(glyph, row, col + 1),
                ) + 4 * bit_index(spec_glyph_bit_at(glyph, row + 1, col)) + 8 * bit_index(
                    spec_glyph_bit_at(glyph, row + 1, col + 1),
                ) + 16 * bit_index(spec_glyph_bit_at(glyph, row + 2, col)) + 32 * bit_index(
                    spec_glyph_bit_at(glyph, row + 2, col + 1),
                ),
            ),
        }
    }

    /// Returns the block element for one cell: the glyph bits that the cell
    /// covers, mapped through the matching block-element table. Rows past
    /// the glyph's end count as empty.
    pub fn symbol(&self, glyph: &[u8; 8], row: usize, col: u32) -> (r: char)
        requires
            self.spec_in_bounds(row as int, col as int),
        ensures
            r == self.spec_symbol(glyph@, row as int, col as int),
    {
        match self {
            Size::Full => {
                if glyph_bit(glyph[row], col) {
                    '█'
                } else {
                    ' '
                }
            },
            Size::HalfHeight => {
                let top = glyph_bit(glyph[row], col);
                let bottom = if row + 1 < 8 {
                    glyph_bit(glyph[row + 1], col)
                } else {
                    false
                };
                half_height_symbol(top, bottom)
            },
            Size::HalfWidth => {
                let left = glyph_bit(glyph[row], col);
                let right = glyph_bit(glyph[row], col + 1);
                half_width_symbol(left, right)
            },
            Size::Quarter => {
                let tl = exec_bit_index(glyph_bit(glyph[row], col));
                let tr = exec_bit_index(glyph_bit(glyph[row], col + 1));
                let (bl, br) = if row + 1 < 8 {
                    (
                        exec_bit_index(glyph_bit(glyph[row + 1], col)),
                        exec_bit_index(glyph_bit(glyph[row + 1], col + 1)),
                    )
                } else {
                    (0, 0)
                };
                quadrant_symbol(tl + 2 * tr + 4 * bl + 8 * br)
            },
            Size::Sixth => {
                let tl = exec_bit_index(glyph_bit(glyph[row], col));
                let tr = exec_bit_index(glyph_bit(glyph[row], col + 1));
                let (ml, mr) = if row + 1 < 8 {
                    (
                        exec_bit_index(glyph_bit(glyph[row + 1], col)),
                        exec_bit_index(glyph_bit(glyph[row + 1], col + 1)),
                    )
                } else {
                    (0, 0)
                };
                let (bl, br) = if row + 2 < 8 {
                    (
                        exec_bit_index(glyph_bit(glyph[row + 2], col)),
                        exec_bit_index(glyph_bit(glyph[row + 2], col + 1)),
                    )
                } else {
                    (0, 0)
                };
                sixth_symbol(tl + 2 * tr + 4 * ml + 8 * mr + 16 * bl + 32 * br)
            },
        }
    }
}

/// 1 for a set bit, 0 for a clear one.
pub open spec fn bit_index(on: bool) -> int {
    if on {
        1
    } else {
        0
    }
}

fn exec_bit_index(on: bool) -> (r: usize)
    ensures
        r == bit_index(on),
{
    if on {
        1
    } else {
        0
    }
}

/// 1 when any bit of the sampled value is set. The glyph samplers hand whole
/// masked rows around; only zero against non-zero matters.
pub fn get_position_for_value(pos: u8) -> (r: usize)
    ensures
        r == bit_index(pos > 0),
{
    if pos > 0 {
        1
    } else {
        0
    }
}

/// The half-block for a top and a bottom sub-cell.
pub open spec fn spec_half_height_symbol(top: bool, bottom: bool) -> char {
    if top {
        if bottom {
            '█'
        } else {
            '▀'
        }
    } else {
        if bottom {
            '▄'
        } else {
            ' '
        }
    }
}

fn half_height_symbol(top: bool, bottom: bool) -> (r: char)
    ensures
        r == spec_half_height_symbol(top, bottom),
{
    if top {
        if bottom {
            '█'
        } else {
            '▀'
        }
    } else {
        if bottom {
            '▄'
        } else {
            ' '
        }
    }
}

/// Sampler interface over masked row values: any non-zero sample counts
/// as a set sub-cell.
pub fn symbol_for_half_height(top: u8, bottom: u8) -> (r: char)
    ensures
        r == spec_half_height_symbol(top > 0, bottom > 0),
{
    half_height_symbol(top > 0, bottom > 0)
}

/// The half-block for a left and a right sub-cell.
pub open spec fn spec_half_width_symbol(left: bool, right: bool) -> char {
    if left {
        if right {
            '█'
        } else {
            '▌'
        }
    } else {
        if right {
            '▐'
        } else {
            ' '
        }
    }
}

fn half_width_symbol(left: bool, right: bool) -> (r: char)
    ensures
        r == spec_half_width_symbol(left, right),
{
    if left {
        if right {
            '█'
        } else {
            '▌'
        }
    } else {
        if right {
            '▐'
        } else {
            ' '
        }
    }
}

pub fn symbol_for_half_width(left: u8, right: u8) -> (r: char)
    ensures
        r == spec_half_width_symbol(left > 0, right > 0),
{
    half_width_symbol(left > 0, right > 0)
}

/// The quadrant block for four sampled sub-cells.
pub fn symbol_for_quarter(top_left: u8, top_right: u8, bottom_left: u8, bottom_right: u8) -> (r:
    char)
    ensures
        r == spec_quadrant_symbol(
            bit_index(top_left > 0) + 2 * bit_index(top_right > 0) + 4 * bit_index(bottom_left > 0)
                + 8 * bit_index(bottom_right > 0),
        ),
{
    let tl = get_position_for_value(top_left);
    let tr = get_position_for_value(top_right);
    let bl = get_position_for_value(bottom_left);
    let br = get_position_for_value(bottom_right);
    quadrant_symbol(tl + 2 * tr + 4 * bl + 8 * br)
}

/// The sixth block for six sampled sub-cells.
pub fn symbol_for_sixth(
    top_left: u8,
    top_right: u8,
    mid_left: u8,
    mid_right: u8,
    bottom_left: u8,
    bottom_right: u8,
) -> (r: char)
    ensures
        r == spec_sixth_symbol(
            bit_index(top_left > 0) + 2 * bit_index(top_right > 0) + 4 * bit_index(mid_left > 0) + 8
                * bit_index(mid_right > 0) + 16 * bit_index(bottom_left > 0) + 32 * bit_index(
                bottom_right > 0,
            ),
        ),
{
    let tl = get_position_for_value(top_left);
    let tr = get_position_for_value(top_right);
    let ml = get_position_for_value(mid_left);
    let mr = get_position_for_value(mid_right);
    let bl = get_position_for_value(bottom_left);
    let br = get_position_for_value(bottom_right);
    sixth_symbol(tl + 2 * tr + 4 * ml + 8 * mr + 16 * bl + 32 * br)
}


/// The quadrant block element whose four sub-cells match the bit pattern
/// `i` (top-left is the lowest bit, bottom-right the highest).

pub open spec fn spec_quadrant_symbol(i: int) -> char {
    if i == 0 {
        ' '
    } else if i == 1 {
        '▘'
    } else if i == 2 {
        '▝'
    } else if i == 3 {
        '▀'
    } else if i == 4 {
        '▖'
    } else if i == 5 {
        '▌'
    } else if i == 6 {
        '▞'
    } else if i == 7 {
        '▛'
    } else if i == 8 {
        '▗'
    } else if i == 9 {
        '▚'
    } else if i == 10 {
        '▐'
    } else if i == 11 {
        '▜'
    } else if i == 12 {
        '▄'
    } else if i == 13 {
        '▙'
    } else if i == 14 {
        '▟'
    } else {
        '█'
    }
}

pub fn quadrant_symbol(i: usize) -> (r: char)
    requires
        i < 16,
    ensures
        r == spec_quadrant_symbol(i as int),
{
    match i {
        0 => ' ',
        1 => '▘',
        2 => '▝',
        3 => '▀',
        4 => '▖',
        5 => '▌',
        6 => '▞',
        7 => '▛',
        8 => '▗',
        9 => '▚',
        10 => '▐',
        11 => '▜',
        12 => '▄',
        13 => '▙',
        14 => '▟',
        15 => '█',
        _ => ' ',
    }
}

/// The sixth block element whose six sub-cells match the bit pattern `i`
/// (top-left is the lowest bit, bottom-right the highest).

pub open spec fn spec_sixth_symbol(i: int) -> char {
    if i == 0 {
        ' '
    } else if i == 1 {
        '🬀'
    } else if i == 2 {
        '🬁'
    } else if i == 3 {
        '🬂'
    } else if i == 4 {
        '🬃'
    } else if i == 5 {
        '🬄'
    } else if i == 6 {
        '🬅'
    } else if i == 7 {
        '🬆'
    } else if i == 8 {
        '🬇'
    } else if i == 9 {
        '🬈'
    } else if i == 10 {
        '🬉'
    } else if i == 11 {
        '🬊'
    } else if i == 12 {
        '🬋'
    } else if i == 13 {
        '🬌'
    } else if i == 14 {
        '🬍'
    } else if i == 15 {
        '🬎'
    } else if i == 16 {
        '🬏'
    } else if i == 17 {
        '🬐'
    } else if i == 18 {
        '🬑'
    } else if i == 19 {
        '🬒'
    } else if i == 20 {
        '🬓'
    } else if i == 21 {
        '▌'
    } else if i == 22 {
        '🬔'
    } else if i == 23 {
        '🬕'
    } else if i == 24 {
        '🬖'
    } else if i == 25 {
        '🬗'
    } else if i == 26 {
        '🬘'
    } else if i == 27 {
        '🬙'
    } else if i == 28 {
        '🬚'
    } else if i == 29 {
        '🬛'
    } else if i == 30 {
        '🬜'
    } else if i == 31 {
        '🬝'
    } else if i == 32 {
        '🬞'
    } else if i == 33 {
        '🬟'
    } else if i == 34 {
        '🬠'
    } else if i == 35 {
        '🬡'
    } else if i == 36 {
        '🬢'
    } else if i == 37 {
        '🬣'
    } else if i == 38 {
        '🬤'
    } else if i == 39 {
        '🬥'
    } else if i == 40 {
        '🬦'
    } else if i == 41 {
        '🬧'
    } else if i == 42 {
        '▐'
    } else if i == 43 {
        '🬨'
    } else if i == 44 {
        '🬩'
    } else if i == 45 {
        '🬪'
    } else if i == 46 {
        '🬫'
    } else if i == 47 {
        '🬬'
    } else if i == 48 {
        '🬭'
    } else if i == 49 {
        '🬮'
    } else if i == 50 {
        '🬯'
    } else if i == 51 {
        '🬰'
    } else if i == 52 {
        '🬱'
    } else if i == 53 {
        '🬲'
    } else if i == 54 {
        '🬳'
    } else if i == 55 {
        '🬴'
    } else if i == 56 {
        '🬵'
    } else if i == 57 {
        '🬶'
    } else if i == 58 {
        '🬷'
    } else if i == 59 {
        '🬸'
    } else if i == 60 {
        '🬹'
    } else if i == 61 {
        '🬺'
    } else if i == 62 {
        '🬻'
    } else {
        '█'
    }
}

pub fn sixth_symbol(i: usize) -> (r: char)
    requires
        i < 64,
    ensures
        r == spec_sixth_symbol(i as int),
{
    match i {
        0 => ' ',
        1 => '🬀',
        2 => '🬁',
        3 => '🬂',
        4 => '🬃',
        5 => '🬄',
        6 => '🬅',
        7 => '🬆',
        8 => '🬇',
        9 => '🬈',
        10 => '🬉',
        11 => '🬊',
        12 => '🬋',
        13 => '🬌',
        14 => '🬍',
        15 => '🬎',
        16 => '🬏',
        17 => '🬐',
        18 => '🬑',
        19 => '🬒',
        20 => '🬓',
        21 => '▌',
        22 => '🬔',
        23 => '🬕',
        24 => '🬖',
        25 => '🬗',
        26 => '🬘',
        27 => '🬙',
        28 => '🬚',
        29 => '🬛',
        30 => '🬜',
        31 => '🬝',
        32 => '🬞',
        33 => '🬟',
        34 => '🬠',
        35 => '🬡',
        36 => '🬢',
        37 => '🬣',
        38 => '🬤',
        39 => '🬥',
        40 => '🬦',
        41 => '🬧',
        42 => '▐',
        43 => '🬨',
        44 => '🬩',
        45 => '🬪',
        46 => '🬫',
        47 => '🬬',
        48 => '🬭',
        49 => '🬮',
        50 => '🬯',
        51 => '🬰',
        52 => '🬱',
        53 => '🬲',
        54 => '🬳',
        55 => '🬴',
        56 => '🬵',
        57 => '🬶',
        58 => '🬷',
        59 => '🬸',
        60 => '🬹',
        61 => '🬺',
        62 => '🬻',
        63 => '█',
        _ => ' ',
    }
}


/// The 8×8 bitmap of a character in the basic font, row by row, when the
/// font covers it. It depends on the character alone.
pub uninterp spec fn basic_glyph(c: char) -> Option<Seq<u8>>;

/// Relies on font8x8::BASIC_FONTS.get: the character's bitmap in the basic
/// 8×8 font, eight rows of eight bits.
#[verifier::external_body]
fn basic_font_glyph(c: char) -> (r: Option<[u8; 8]>)
    ensures
        match r {
            Some(g) => basic_glyph(c) == Some(g@) && g@.len() == 8,
            None => basic_glyph(c) is None,
        },
{
    font8x8::BASIC_FONTS.get(c)
}

/// The block element showing the cell at `(row, col)` of a character's
/// glyph, or nothing when the basic font does not cover the character.
pub fn char_symbol(c: char, size: &Size, row: usize, col: u32) -> (r: Option<char>)
    requires
        size.spec_in_bounds(row as int, col as int),
    ensures
        match r {
            Some(sym) => basic_glyph(c) matches Some(g) && sym == size.spec_symbol(
                g,
                row as int,
                col as int,
            ),
            None => basic_glyph(c) is None,
        },
{
    match basic_font_glyph(c) {
        Some(glyph) => Some(size.symbol(&glyph, row, col)),
        None => None,
    }
}

} // verus!
