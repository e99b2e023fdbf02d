use hcs_12ss59t::font::{char_to_font_code, code_to_glyph, font_from_char, glyph_to_code};
use hcs_12ss59t::{Error, FontTable};

#[test]
fn code_round_trip_over_valid_range() {
    for b in 0x00..=0x4Fu8 {
        let g = code_to_glyph(b).unwrap();
        assert_eq!(glyph_to_code(g), b);
    }
}

#[test]
fn codes_above_valid_range_rejected() {
    for b in 0x50..=0xFFu8 {
        assert_eq!(code_to_glyph(b), Err(Error::InvalidInput));
    }
}

#[test]
fn unsupported_characters_map_to_replacement() {
    // Non-ASCII code points and the ASCII gaps around the supported ranges.
    for c in ['\u{00E9}', '\u{65E5}', '`', '{', '~', '\n', '\t', '\u{7F}', '\u{0}'] {
        assert_eq!(char_to_font_code(c), 0x4F);
    }
}

#[test]
fn comma_and_period_render_blank() {
    assert_eq!(char_to_font_code(','), 0x30);
    assert_eq!(char_to_font_code('.'), 0x30);
}

#[test]
fn characters_map_to_their_slots() {
    assert_eq!(char_to_font_code('@'), 0x10);
    assert_eq!(char_to_font_code('A'), 0x11);
    assert_eq!(char_to_font_code('Z'), 0x2A);
    assert_eq!(char_to_font_code('['), 0x2B);
    assert_eq!(char_to_font_code('_'), 0x2F);
    assert_eq!(char_to_font_code(' '), 0x30);
    assert_eq!(char_to_font_code('!'), 0x31);
    assert_eq!(char_to_font_code('/'), 0x3F);
    assert_eq!(char_to_font_code('0'), 0x40);
    assert_eq!(char_to_font_code('9'), 0x49);
    assert_eq!(char_to_font_code('?'), 0x4F);
}

#[test]
fn lowercase_letters_fold_onto_uppercase_glyphs() {
    assert_eq!(char_to_font_code('a'), char_to_font_code('A'));
    assert_eq!(char_to_font_code('m'), char_to_font_code('M'));
    assert_eq!(char_to_font_code('z'), char_to_font_code('Z'));
}

#[test]
fn from_char_converts_like_the_font_table() {
    assert_eq!(FontTable::from('A'), FontTable::CharA);
    assert_eq!(FontTable::from(','), FontTable::CharSpace);
    let g: FontTable = '7'.into();
    assert_eq!(g, FontTable::CharSeven);
}

#[test]
fn font_from_char_picks_the_named_entry() {
    assert_eq!(font_from_char('A'), FontTable::CharA);
    assert_eq!(font_from_char('?'), FontTable::CharQestMrk);
    assert_eq!(font_from_char(' '), FontTable::CharSpace);
    assert_eq!(font_from_char('\u{00E9}'), FontTable::CharQestMrk);
}

#[test]
fn glyph_codes_cover_ram_and_printables() {
    assert_eq!(glyph_to_code(FontTable::Ram0), 0x00);
    assert_eq!(glyph_to_code(FontTable::RamF), 0x0F);
    assert_eq!(glyph_to_code(FontTable::ChatAt), 0x10);
    assert_eq!(glyph_to_code(FontTable::CharQestMrk), 0x4F);
}
