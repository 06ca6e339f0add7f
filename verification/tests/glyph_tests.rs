use orpheus::glyph::{
    char_symbol, get_position_for_value, quadrant_symbol, sixth_symbol, symbol_for_half_height,
    symbol_for_half_width, symbol_for_quarter, symbol_for_sixth, Size,
};

#[test]
fn pixels_per_cell_per_size() {
    assert_eq!(Size::Full.pixels_per_cell(), (1, 1));
    assert_eq!(Size::HalfHeight.pixels_per_cell(), (1, 2));
    assert_eq!(Size::HalfWidth.pixels_per_cell(), (2, 1));
    assert_eq!(Size::Quarter.pixels_per_cell(), (2, 2));
    assert_eq!(Size::Sixth.pixels_per_cell(), (2, 3));
}

#[test]
fn full_size_reads_single_bits() {
    let glyph: [u8; 8] = [0b0000_0001, 0, 0, 0, 0, 0, 0, 0];
    assert_eq!(Size::Full.symbol(&glyph, 0, 0), '█');
    assert_eq!(Size::Full.symbol(&glyph, 0, 1), ' ');
    assert_eq!(Size::Full.symbol(&glyph, 1, 0), ' ');
}

#[test]
fn half_height_pairs_two_rows() {
    let glyph: [u8; 8] = [0b0000_0001, 0, 0b0000_0001, 0b0000_0001, 0, 0, 0, 0];
    assert_eq!(Size::HalfHeight.symbol(&glyph, 0, 0), '▀'); // top only
    assert_eq!(Size::HalfHeight.symbol(&glyph, 2, 0), '█'); // both
    assert_eq!(Size::HalfHeight.symbol(&glyph, 4, 0), ' '); // neither
}

#[test]
fn half_width_pairs_two_columns() {
    let glyph: [u8; 8] = [0b0000_0001, 0b0000_0010, 0b0000_0011, 0, 0, 0, 0, 0];
    assert_eq!(Size::HalfWidth.symbol(&glyph, 0, 0), '▌');
    assert_eq!(Size::HalfWidth.symbol(&glyph, 1, 0), '▐');
    assert_eq!(Size::HalfWidth.symbol(&glyph, 2, 0), '█');
    assert_eq!(Size::HalfWidth.symbol(&glyph, 3, 0), ' ');
}

#[test]
fn quarter_maps_four_bits_to_quadrants() {
    assert_eq!(symbol_for_quarter(0, 0, 0, 0), ' ');
    assert_eq!(symbol_for_quarter(1, 0, 0, 0), '▘');
    assert_eq!(symbol_for_quarter(0, 9, 0, 0), '▝');
    assert_eq!(symbol_for_quarter(0, 0, 4, 0), '▖');
    assert_eq!(symbol_for_quarter(0, 0, 0, 2), '▗');
    assert_eq!(symbol_for_quarter(1, 1, 1, 1), '█');
    assert_eq!(symbol_for_quarter(1, 0, 0, 2), '▚');
}

#[test]
fn sixth_maps_six_bits_to_sextants() {
    assert_eq!(symbol_for_sixth(0, 0, 0, 0, 0, 0), ' ');
    assert_eq!(symbol_for_sixth(1, 0, 0, 0, 0, 0), '🬀');
    assert_eq!(symbol_for_sixth(0, 1, 0, 0, 0, 0), '🬁');
    assert_eq!(symbol_for_sixth(1, 1, 1, 1, 1, 1), '█');
    // left column only: the left half block
    assert_eq!(symbol_for_sixth(1, 0, 1, 0, 1, 0), '▌');
    assert_eq!(symbol_for_sixth(0, 2, 0, 2, 0, 2), '▐');
}

#[test]
fn half_symbols_treat_any_nonzero_sample_as_set() {
    assert_eq!(symbol_for_half_height(0, 0), ' ');
    assert_eq!(symbol_for_half_height(128, 0), '▀');
    assert_eq!(symbol_for_half_height(0, 3), '▄');
    assert_eq!(symbol_for_half_height(7, 9), '█');
    assert_eq!(symbol_for_half_width(6, 0), '▌');
    assert_eq!(symbol_for_half_width(0, 6), '▐');
}

#[test]
fn position_for_value_is_a_bit() {
    assert_eq!(get_position_for_value(0), 0);
    assert_eq!(get_position_for_value(1), 1);
    assert_eq!(get_position_for_value(200), 1);
}

#[test]
fn table_lookups_match_their_indexes() {
    assert_eq!(quadrant_symbol(0), ' ');
    assert_eq!(quadrant_symbol(15), '█');
    assert_eq!(quadrant_symbol(5), '▌');
    assert_eq!(sixth_symbol(0), ' ');
    assert_eq!(sixth_symbol(21), '▌');
    assert_eq!(sixth_symbol(42), '▐');
    assert_eq!(sixth_symbol(63), '█');
}

#[test]
fn sixth_size_checks_rows_past_the_glyph_end() {
    // the bottom band of the glyph: rows 7 and 8 do not exist, so only the
    // sixth row contributes
    let glyph: [u8; 8] = [0, 0, 0, 0, 0, 0, 0b0000_0011, 0];
    let sym = Size::Sixth.symbol(&glyph, 6, 0);
    // top-left and top-right of the cell are set, the rest empty
    assert_eq!(sym, '🬂');
}

#[test]
fn multi_row_sizes_read_rows_past_the_glyph_end_as_empty() {
    // the bottom row of the glyph: the row below it does not exist and
    // counts as empty
    let glyph: [u8; 8] = [0, 0, 0, 0, 0, 0, 0, 0b0000_0011];
    assert_eq!(Size::HalfHeight.symbol(&glyph, 7, 0), '▀');
    assert_eq!(Size::Quarter.symbol(&glyph, 7, 0), '▀');
    assert_eq!(Size::Quarter.symbol(&glyph, 7, 2), ' ');
}

#[test]
fn basic_font_covers_ascii_but_not_block_elements() {
    // the space glyph is empty, so every cell renders blank
    assert_eq!(char_symbol(' ', &Size::Full, 0, 0), Some(' '));
    assert_eq!(char_symbol(' ', &Size::Quarter, 0, 0), Some(' '));
    // a printable letter has at least one set pixel somewhere
    let mut any_set = false;
    for row in 0..8 {
        for col in 0..8 {
            if char_symbol('A', &Size::Full, row, col) == Some('█') {
                any_set = true;
            }
        }
    }
    assert!(any_set);
    // characters outside the basic set have no glyph
    assert_eq!(char_symbol('█', &Size::Full, 0, 0), None);
}
