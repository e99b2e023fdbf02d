//! Character-to-glyph mapping for the HCS-12SS59T font table.
//!
//! The controller recognizes byte codes in the closed range `0x00..=0x4F`:
//! sixteen custom-pattern (CGRAM) addresses `0x00..=0x0F` followed by the
//! printable glyphs `0x10..=0x4F`. Characters without a glyph map to the
//! replacement code `0x4F` (`?`); comma and period map to the blank code
//! `0x30` because the controller has no distinct glyph for them.

use vstd::prelude::*;

verus! {

use crate::Error;

/// The glyph code produced for a character.
///
/// Uppercase-range and symbol/digit-range characters shift by a fixed offset
/// into the controller's contiguous `0x10..=0x4F` code space; lowercase
/// letters fold onto the uppercase glyphs. Comma and period render as the
/// blank `0x30`; everything else unsupported becomes the replacement `0x4F`.
pub open spec fn spec_char_code(c: char) -> u8 {
    let u = c as u32;
    if c == ',' || c == '.' {
        0x30
    } else if 0x40 <= u && u <= 0x5F {
        (u - 0x30) as u8
    } else if 0x20 <= u && u <= 0x2F {
        (u + 0x10) as u8
    } else if 0x61 <= u && u <= 0x7A {
        (u - 0x50) as u8
    } else if 0x30 <= u && u <= 0x3F {
        (u + 0x10) as u8
    } else {
        0x4F
    }
}

/// Whether the font table has a glyph (or a documented blank) for `c`.
pub open spec fn spec_supported_char(c: char) -> bool {
    let u = c as u32;
    (0x20 <= u && u <= 0x5F) || (0x61 <= u && u <= 0x7A)
}

/// Converts a character to its controller glyph code.
///
/// Unsupported characters (including every non-ASCII code point) convert to
/// the replacement code `0x4F`.
pub fn char_to_font_code(c: char) -> (r: u8)
    ensures
        r == spec_char_code(c),
        0x10 <= r <= 0x4F,
{
    if c == ',' || c == '.' {
        return 0x30;
    }
    let u = c as u32;
    if 0x40 <= u && u <= 0x5F {
        (u - 0x30) as u8
    } else if 0x20 <= u && u <= 0x2F {
        (u + 0x10) as u8
    } else if 0x61 <= u && u <= 0x7A {
        (u - 0x50) as u8
    } else if 0x30 <= u && u <= 0x3F {
        (u + 0x10) as u8
    } else {
        0x4F
    }
}

/// One entry of the HCS-12SS59T font table.
///
/// Each variant stands for one controller byte code in `0x00..=0x4F`:
/// the printable glyphs `0x10..=0x4F` and the sixteen CGRAM addresses
/// `0x00..=0x0F` (custom patterns, written with
/// [`set_cgram_pattern`](crate::HCS12SS59T::set_cgram_pattern)).
#[derive(Clone, Copy, Debug, PartialEq, Eq, Structural)]
pub enum FontTable {
    /// Character `@` (code `0x10`)
    ChatAt,
    /// Character `A` (code `0x11`)
    CharA,
    /// Character `B` (code `0x12`)
    CharB,
    /// Character `C` (code `0x13`)
    CharC,
    /// Character `D` (code `0x14`)
    CharD,
    /// Character `E` (code `0x15`)
    CharE,
    /// Character `F` (code `0x16`)
    CharF,
    /// Character `G` (code `0x17`)
    CharG,
    /// Character `H` (code `0x18`)
    CharH,
    /// Character `I` (code `0x19`)
    CharI,
    /// Character `J` (code `0x1A`)
    CharJ,
    /// Character `K` (code `0x1B`)
    CharK,
    /// Character `L` (code `0x1C`)
    CharL,
    /// Character `M` (code `0x1D`)
    CharM,
    /// Character `N` (code `0x1E`)
    CharN,
    /// Character `O` (code `0x1F`)
    CharO,
    /// Character `P` (code `0x20`)
    CharP,
    /// Character `Q` (code `0x21`)
    CharQ,
    /// Character `R` (code `0x22`)
    CharR,
    /// Character `S` (code `0x23`)
    CharS,
    /// Character `T` (code `0x24`)
    CharT,
    /// Character `U` (code `0x25`)
    CharU,
    /// Character `V` (code `0x26`)
    CharV,
    /// Character `W` (code `0x27`)
    CharW,
    /// Character `X` (code `0x28`)
    CharX,
    /// Character `Y` (code `0x29`)
    CharY,
    /// Character `Z` (code `0x2A`)
    CharZ,
    /// Character `[` (code `0x2B`)
    CharSqBOpen,
    /// Character `\` (code `0x2C`)
    CharBackslash,
    /// Character `]` (code `0x2D`)
    CharSqBClose,
    /// Character `^` (code `0x2E`)
    CharCaret,
    /// Character `_` (code `0x2F`)
    CharUnderscore,
    /// Character SPACE (code `0x30`)
    CharSpace,
    /// Character `!` (code `0x31`)
    CharExcMrk,
    /// Character `"` (code `0x32`)
    CharQuoteMrk,
    /// Character `#` (code `0x33`)
    CharHash,
    /// Character `$` (code `0x34`)
    CharDollar,
    /// Character `%` (code `0x35`)
    CharPercent,
    /// Character `&` (code `0x36`)
    CharAmp,
    /// Character `'` (code `0x37`)
    CharApost,
    /// Character `(` (code `0x38`)
    CharRBOpen,
    /// Character `)` (code `0x39`)
    CharRBClose,
    /// Character `*` (code `0x3A`)
    CharAsterisk,
    /// Character `+` (code `0x3B`)
    CharPlus,
    /// Character `,` (code `0x3C`)
    CharComma,
    /// Character `-` (code `0x3D`)
    CharMinus,
    /// Character `.` (code `0x3E`)
    CharPeriod,
    /// Character `/` (code `0x3F`)
    CharSlash,
    /// Character `0` (code `0x40`)
    CharZero,
    /// Character `1` (code `0x41`)
    CharOne,
    /// Character `2` (code `0x42`)
    CharTwo,
    /// Character `3` (code `0x43`)
    CharThree,
    /// Character `4` (code `0x44`)
    CharFour,
    /// Character `5` (code `0x45`)
    CharFive,
    /// Character `6` (code `0x46`)
    CharSix,
    /// Character `7` (code `0x47`)
    CharSeven,
    /// Character `8` (code `0x48`)
    CharEight,
    /// Character `9` (code `0x49`)
    CharNine,
    /// Character `:` (code `0x4A`)
    CharColon,
    /// Character `;` (code `0x4B`)
    CharSColon,
    /// Character `<` (code `0x4C`)
    CharLess,
    /// Character `=` (code `0x4D`)
    CharEqual,
    /// Character `>` (code `0x4E`)
    CharLarger,
    /// Character `?` (code `0x4F`)
    CharQestMrk,
    /// CGRAM address `0x0`
    Ram0,
    /// CGRAM address `0x1`
    Ram1,
    /// CGRAM address `0x2`
    Ram2,
    /// CGRAM address `0x3`
    Ram3,
    /// CGRAM address `0x4`
    Ram4,
    /// CGRAM address `0x5`
    Ram5,
    /// CGRAM address `0x6`
    Ram6,
    /// CGRAM address `0x7`
    Ram7,
    /// CGRAM address `0x8`
    Ram8,
    /// CGRAM address `0x9`
    Ram9,
    /// CGRAM address `0xA`
    RamA,
    /// CGRAM address `0xB`
    RamB,
    /// CGRAM address `0xC`
    RamC,
    /// CGRAM address `0xD`
    RamD,
    /// CGRAM address `0xE`
    RamE,
    /// CGRAM address `0xF`
    RamF,
}

/// The byte code of a font-table entry.
pub open spec fn spec_glyph_code(g: FontTable) -> u8 {
    match g {
        FontTable::ChatAt => 0x10,
        FontTable::CharA => 0x11,
        FontTable::CharB => 0x12,
        FontTable::CharC => 0x13,
        FontTable::CharD => 0x14,
        FontTable::CharE => 0x15,
        FontTable::CharF => 0x16,
        FontTable::CharG => 0x17,
        FontTable::CharH => 0x18,
        FontTable::CharI => 0x19,
        FontTable::CharJ => 0x1A,
        FontTable::CharK => 0x1B,
        FontTable::CharL => 0x1C,
        FontTable::CharM => 0x1D,
        FontTable::CharN => 0x1E,
        FontTable::CharO => 0x1F,
        FontTable::CharP => 0x20,
        FontTable::CharQ => 0x21,
        FontTable::CharR => 0x22,
        FontTable::CharS => 0x23,
        FontTable::CharT => 0x24,
        FontTable::CharU => 0x25,
        FontTable::CharV => 0x26,
        FontTable::CharW => 0x27,
        FontTable::CharX => 0x28,
        FontTable::CharY => 0x29,
        FontTable::CharZ => 0x2A,
        FontTable::CharSqBOpen => 0x2B,
        FontTable::CharBackslash => 0x2C,
        FontTable::CharSqBClose => 0x2D,
        FontTable::CharCaret => 0x2E,
        FontTable::CharUnderscore => 0x2F,
        FontTable::CharSpace => 0x30,
        FontTable::CharExcMrk => 0x31,
        FontTable::CharQuoteMrk => 0x32,
        FontTable::CharHash => 0x33,
        FontTable::CharDollar => 0x34,
        FontTable::CharPercent => 0x35,
        FontTable::CharAmp => 0x36,
        FontTable::CharApost => 0x37,
        FontTable::CharRBOpen => 0x38,
        FontTable::CharRBClose => 0x39,
        FontTable::CharAsterisk => 0x3A,
        FontTable::CharPlus => 0x3B,
        FontTable::CharComma => 0x3C,
        FontTable::CharMinus => 0x3D,
        FontTable::CharPeriod => 0x3E,
        FontTable::CharSlash => 0x3F,
        FontTable::CharZero => 0x40,
        FontTable::CharOne => 0x41,
        FontTable::CharTwo => 0x42,
        FontTable::CharThree => 0x43,
        FontTable::CharFour => 0x44,
        FontTable::CharFive => 0x45,
        FontTable::CharSix => 0x46,
        FontTable::CharSeven => 0x47,
        FontTable::CharEight => 0x48,
        FontTable::CharNine => 0x49,
        FontTable::CharColon => 0x4A,
        FontTable::CharSColon => 0x4B,
        FontTable::CharLess => 0x4C,
        FontTable::CharEqual => 0x4D,
        FontTable::CharLarger => 0x4E,
        FontTable::CharQestMrk => 0x4F,
        FontTable::Ram0 => 0x00,
        FontTable::Ram1 => 0x01,
        FontTable::Ram2 => 0x02,
        FontTable::Ram3 => 0x03,
        FontTable::Ram4 => 0x04,
        FontTable::Ram5 => 0x05,
        FontTable::Ram6 => 0x06,
        FontTable::Ram7 => 0x07,
        FontTable::Ram8 => 0x08,
        FontTable::Ram9 => 0x09,
        FontTable::RamA => 0x0A,
        FontTable::RamB => 0x0B,
        FontTable::RamC => 0x0C,
        FontTable::RamD => 0x0D,
        FontTable::RamE => 0x0E,
        FontTable::RamF => 0x0F,
    }
}

/// Converts a font-table entry to its controller byte code.
pub fn glyph_to_code(g: FontTable) -> (r: u8)
    ensures
        r == spec_glyph_code(g),
        r <= 0x4F,
{
    match g {
        FontTable::ChatAt => 0x10,
        FontTable::CharA => 0x11,
        FontTable::CharB => 0x12,
        FontTable::CharC => 0x13,
        FontTable::CharD => 0x14,
        FontTable::CharE => 0x15,
        FontTable::CharF => 0x16,
        FontTable::CharG => 0x17,
        FontTable::CharH => 0x18,
        FontTable::CharI => 0x19,
        FontTable::CharJ => 0x1A,
        FontTable::CharK => 0x1B,
        FontTable::CharL => 0x1C,
        FontTable::CharM => 0x1D,
        FontTable::CharN => 0x1E,
        FontTable::CharO => 0x1F,
        FontTable::CharP => 0x20,
        FontTable::CharQ => 0x21,
        FontTable::CharR => 0x22,
        FontTable::CharS => 0x23,
        FontTable::CharT => 0x24,
        FontTable::CharU => 0x25,
        FontTable::CharV => 0x26,
        FontTable::CharW => 0x27,
        FontTable::CharX => 0x28,
        FontTable::CharY => 0x29,
        FontTable::CharZ => 0x2A,
        FontTable::CharSqBOpen => 0x2B,
        FontTable::CharBackslash => 0x2C,
        FontTable::CharSqBClose => 0x2D,
        FontTable::CharCaret => 0x2E,
        FontTable::CharUnderscore => 0x2F,
        FontTable::CharSpace => 0x30,
        FontTable::CharExcMrk => 0x31,
        FontTable::CharQuoteMrk => 0x32,
        FontTable::CharHash => 0x33,
        FontTable::CharDollar => 0x34,
        FontTable::CharPercent => 0x35,
        FontTable::CharAmp => 0x36,
        FontTable::CharApost => 0x37,
        FontTable::CharRBOpen => 0x38,
        FontTable::CharRBClose => 0x39,
        FontTable::CharAsterisk => 0x3A,
        FontTable::CharPlus => 0x3B,
        FontTable::CharComma => 0x3C,
        FontTable::CharMinus => 0x3D,
        FontTable::CharPeriod => 0x3E,
        FontTable::CharSlash => 0x3F,
        FontTable::CharZero => 0x40,
        FontTable::CharOne => 0x41,
        FontTable::CharTwo => 0x42,
        FontTable::CharThree => 0x43,
        FontTable::CharFour => 0x44,
        FontTable::CharFive => 0x45,
        FontTable::CharSix => 0x46,
        FontTable::CharSeven => 0x47,
        FontTable::CharEight => 0x48,
        FontTable::CharNine => 0x49,
        FontTable::CharColon => 0x4A,
        FontTable::CharSColon => 0x4B,
        FontTable::CharLess => 0x4C,
        FontTable::CharEqual => 0x4D,
        FontTable::CharLarger => 0x4E,
        FontTable::CharQestMrk => 0x4F,
        FontTable::Ram0 => 0x00,
        FontTable::Ram1 => 0x01,
        FontTable::Ram2 => 0x02,
        FontTable::Ram3 => 0x03,
        FontTable::Ram4 => 0x04,
        FontTable::Ram5 => 0x05,
        FontTable::Ram6 => 0x06,
        FontTable::Ram7 => 0x07,
        FontTable::Ram8 => 0x08,
        FontTable::Ram9 => 0x09,
        FontTable::RamA => 0x0A,
        FontTable::RamB => 0x0B,
        FontTable::RamC => 0x0C,
        FontTable::RamD => 0x0D,
        FontTable::RamE => 0x0E,
        FontTable::RamF => 0x0F,
    }
}

/// The font-table entry that carries a given valid byte code.
///
/// Meaningful for codes in `0x00..=0x4F`; any larger byte falls back to the
/// replacement entry (such a byte is rejected by [`code_to_glyph`] anyway).
pub open spec fn spec_glyph_of_code(b: u8) -> FontTable {
    if b == 0x00 {
        FontTable::Ram0
    } else if b == 0x01 {
        FontTable::Ram1
    } else if b == 0x02 {
        FontTable::Ram2
    } else if b == 0x03 {
        FontTable::Ram3
    } else if b == 0x04 {
        FontTable::Ram4
    } else if b == 0x05 {
        FontTable::Ram5
    } else if b == 0x06 {
        FontTable::Ram6
    } else if b == 0x07 {
        FontTable::Ram7
    } else if b == 0x08 {
        FontTable::Ram8
    } else if b == 0x09 {
        FontTable::Ram9
    } else if b == 0x0A {
        FontTable::RamA
    } else if b == 0x0B {
        FontTable::RamB
    } else if b == 0x0C {
        FontTable::RamC
    } else if b == 0x0D {
        FontTable::RamD
    } else if b == 0x0E {
        FontTable::RamE
    } else if b == 0x0F {
        FontTable::RamF
    } else if b == 0x10 {
        FontTable::ChatAt
    } else if b == 0x11 {
        FontTable::CharA
    } else if b == 0x12 {
        FontTable::CharB
    } else if b == 0x13 {
        FontTable::CharC
    } else if b == 0x14 {
        FontTable::CharD
    } else if b == 0x15 {
        FontTable::CharE
    } else if b == 0x16 {
        FontTable::CharF
    } else if b == 0x17 {
        FontTable::CharG
    } else if b == 0x18 {
        FontTable::CharH
    } else if b == 0x19 {
        FontTable::CharI
    } else if b == 0x1A {
        FontTable::CharJ
    } else if b == 0x1B {
        FontTable::CharK
    } else if b == 0x1C {
        FontTable::CharL
    } else if b == 0x1D {
        FontTable::CharM
    } else if b == 0x1E {
        FontTable::CharN
    } else if b == 0x1F {
        FontTable::CharO
    } else if b == 0x20 {
        FontTable::CharP
    } else if b == 0x21 {
        FontTable::CharQ
    } else if b == 0x22 {
        FontTable::CharR
    } else if b == 0x23 {
        FontTable::CharS
    } else if b == 0x24 {
        FontTable::CharT
    } else if b == 0x25 {
        FontTable::CharU
    } else if b == 0x26 {
        FontTable::CharV
    } else if b == 0x27 {
        FontTable::CharW
    } else if b == 0x28 {
        FontTable::CharX
    } else if b == 0x29 {
        FontTable::CharY
    } else if b == 0x2A {
        FontTable::CharZ
    } else if b == 0x2B {
        FontTable::CharSqBOpen
    } else if b == 0x2C {
        FontTable::CharBackslash
    } else if b == 0x2D {
        FontTable::CharSqBClose
    } else if b == 0x2E {
        FontTable::CharCaret
    } else if b == 0x2F {
        FontTable::CharUnderscore
    } else if b == 0x30 {
        FontTable::CharSpace
    } else if b == 0x31 {
        FontTable::CharExcMrk
    } else if b == 0x32 {
        FontTable::CharQuoteMrk
    } else if b == 0x33 {
        FontTable::CharHash
    } else if b == 0x34 {
        FontTable::CharDollar
    } else if b == 0x35 {
        FontTable::CharPercent
    } else if b == 0x36 {
        FontTable::CharAmp
    } else if b == 0x37 {
        FontTable::CharApost
    } else if b == 0x38 {
        FontTable::CharRBOpen
    } else if b == 0x39 {
        FontTable::CharRBClose
    } else if b == 0x3A {
        FontTable::CharAsterisk
    } else if b == 0x3B {
        FontTable::CharPlus
    } else if b == 0x3C {
        FontTable::CharComma
    } else if b == 0x3D {
        FontTable::CharMinus
    } else if b == 0x3E {
        FontTable::CharPeriod
    } else if b == 0x3F {
        FontTable::CharSlash
    } else if b == 0x40 {
        FontTable::CharZero
    } else if b == 0x41 {
        FontTable::CharOne
    } else if b == 0x42 {
        FontTable::CharTwo
    } else if b == 0x43 {
        FontTable::CharThree
    } else if b == 0x44 {
        FontTable::CharFour
    } else if b == 0x45 {
        FontTable::CharFive
    } else if b == 0x46 {
        FontTable::CharSix
    } else if b == 0x47 {
        FontTable::CharSeven
    } else if b == 0x48 {
        FontTable::CharEight
    } else if b == 0x49 {
        FontTable::CharNine
    } else if b == 0x4A {
        FontTable::CharColon
    } else if b == 0x4B {
        FontTable::CharSColon
    } else if b == 0x4C {
        FontTable::CharLess
    } else if b == 0x4D {
        FontTable::CharEqual
    } else if b == 0x4E {
        FontTable::CharLarger
    } else {
        FontTable::CharQestMrk
    }
}

/// Validates a byte and converts it to its font-table entry.
///
/// The code space `0x00..=0x4F` is fully and uniquely assigned, so every
/// valid byte converts to the entry that carries exactly that code, and any
/// byte above `0x4F` is rejected before it could ever be transmitted.
pub fn code_to_glyph(b: u8) -> (r: Result<FontTable, Error>)
    ensures
        b <= 0x4F ==> r == Ok::<FontTable, Error>(spec_glyph_of_code(b)),
        b <= 0x4F ==> (r matches Ok(g) && spec_glyph_code(g) == b),
        b > 0x4F ==> r == Err::<FontTable, Error>(Error::InvalidInput),
{
    match b {
        0x00 => Ok(FontTable::Ram0),
        0x01 => Ok(FontTable::Ram1),
        0x02 => Ok(FontTable::Ram2),
        0x03 => Ok(FontTable::Ram3),
        0x04 => Ok(FontTable::Ram4),
        0x05 => Ok(FontTable::Ram5),
        0x06 => Ok(FontTable::Ram6),
        0x07 => Ok(FontTable::Ram7),
        0x08 => Ok(FontTable::Ram8),
        0x09 => Ok(FontTable::Ram9),
        0x0A => Ok(FontTable::RamA),
        0x0B => Ok(FontTable::RamB),
        0x0C => Ok(FontTable::RamC),
        0x0D => Ok(FontTable::RamD),
        0x0E => Ok(FontTable::RamE),
        0x0F => Ok(FontTable::RamF),
        0x10 => Ok(FontTable::ChatAt),
        0x11 => Ok(FontTable::CharA),
        0x12 => Ok(FontTable::CharB),
        0x13 => Ok(FontTable::CharC),
        0x14 => Ok(FontTable::CharD),
        0x15 => Ok(FontTable::CharE),
        0x16 => Ok(FontTable::CharF),
        0x17 => Ok(FontTable::CharG),
        0x18 => Ok(FontTable::CharH),
        0x19 => Ok(FontTable::CharI),
        0x1A => Ok(FontTable::CharJ),
        0x1B => Ok(FontTable::CharK),
        0x1C => Ok(FontTable::CharL),
        0x1D => Ok(FontTable::CharM),
        0x1E => Ok(FontTable::CharN),
        0x1F => Ok(FontTable::CharO),
        0x20 => Ok(FontTable::CharP),
        0x21 => Ok(FontTable::CharQ),
        0x22 => Ok(FontTable::CharR),
        0x23 => Ok(FontTable::CharS),
        0x24 => Ok(FontTable::CharT),
        0x25 => Ok(FontTable::CharU),
        0x26 => Ok(FontTable::CharV),
        0x27 => Ok(FontTable::CharW),
        0x28 => Ok(FontTable::CharX),
        0x29 => Ok(FontTable::CharY),
        0x2A => Ok(FontTable::CharZ),
        0x2B => Ok(FontTable::CharSqBOpen),
        0x2C => Ok(FontTable::CharBackslash),
        0x2D => Ok(FontTable::CharSqBClose),
        0x2E => Ok(FontTable::CharCaret),
        0x2F => Ok(FontTable::CharUnderscore),
        0x30 => Ok(FontTable::CharSpace),
        0x31 => Ok(FontTable::CharExcMrk),
        0x32 => Ok(FontTable::CharQuoteMrk),
        0x33 => Ok(FontTable::CharHash),
        0x34 => Ok(FontTable::CharDollar),
        0x35 => Ok(FontTable::CharPercent),
        0x36 => Ok(FontTable::CharAmp),
        0x37 => Ok(FontTable::CharApost),
        0x38 => Ok(FontTable::CharRBOpen),
        0x39 => Ok(FontTable::CharRBClose),
        0x3A => Ok(FontTable::CharAsterisk),
        0x3B => Ok(FontTable::CharPlus),
        0x3C => Ok(FontTable::CharComma),
        0x3D => Ok(FontTable::CharMinus),
        0x3E => Ok(FontTable::CharPeriod),
        0x3F => Ok(FontTable::CharSlash),
        0x40 => Ok(FontTable::CharZero),
        0x41 => Ok(FontTable::CharOne),
        0x42 => Ok(FontTable::CharTwo),
        0x43 => Ok(FontTable::CharThree),
        0x44 => Ok(FontTable::CharFour),
        0x45 => Ok(FontTable::CharFive),
        0x46 => Ok(FontTable::CharSix),
        0x47 => Ok(FontTable::CharSeven),
        0x48 => Ok(FontTable::CharEight),
        0x49 => Ok(FontTable::CharNine),
        0x4A => Ok(FontTable::CharColon),
        0x4B => Ok(FontTable::CharSColon),
        0x4C => Ok(FontTable::CharLess),
        0x4D => Ok(FontTable::CharEqual),
        0x4E => Ok(FontTable::CharLarger),
        0x4F => Ok(FontTable::CharQestMrk),
        _ => Err(Error::InvalidInput),
    }
}


/// Converts a character to its font-table entry.
///
/// Unsupported characters convert to the replacement entry
/// [`CharQestMrk`](FontTable::CharQestMrk).
pub fn font_from_char(c: char) -> (r: FontTable)
    ensures
        r == spec_glyph_of_code(spec_char_code(c)),
        spec_glyph_code(r) == spec_char_code(c),
{
    match code_to_glyph(char_to_font_code(c)) {
        Ok(g) => g,
        Err(_) => FontTable::CharQestMrk,
    }
}

impl From<char> for FontTable {
    /// Converts a character to its font-table entry; characters without a
    /// glyph convert to the replacement entry.
    fn from(value: char) -> (r: FontTable) {
        font_from_char(value)
    }
}

impl vstd::std_specs::convert::FromSpecImpl<char> for FontTable {
    open spec fn obeys_from_spec() -> bool {
        true
    }

    open spec fn from_spec(c: char) -> FontTable {
        spec_glyph_of_code(spec_char_code(c))
    }
}

/// Round trip over the valid code range: every byte in `0x00..=0x4F` names a
/// font-table entry whose own code is that byte again.
pub proof fn lemma_code_round_trip(b: u8)
    requires
        b <= 0x4F,
    ensures
        spec_glyph_code(spec_glyph_of_code(b)) == b,
{
}

/// Round trip over the font table: every entry is named by its own code, so
/// distinct entries never share a byte code.
pub proof fn lemma_glyph_round_trip(g: FontTable)
    ensures
        spec_glyph_of_code(spec_glyph_code(g)) == g,
{
}

/// The glyph codes of a sequence of font-table entries, in order.
pub open spec fn spec_glyph_codes(data: Seq<FontTable>) -> Seq<u8> {
    data.map(|i: int, g: FontTable| spec_glyph_code(g))
}

/// The glyph codes of the characters of a text, in order.
pub open spec fn spec_char_codes(text: Seq<char>) -> Seq<u8> {
    text.map(|i: int, c: char| spec_char_code(c))
}

/// Every character outside the supported set maps to the replacement code.
pub proof fn lemma_unsupported_char_is_replacement(c: char)
    requires
        !spec_supported_char(c),
    ensures
        spec_char_code(c) == 0x4F,
{
}

} // verus!
