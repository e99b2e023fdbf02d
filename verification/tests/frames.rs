use hcs_12ss59t::protocol::{
    brightness_actions, cgram_frame, cmd_frame_actions, data_frame_actions,
    dcram_frame_from_glyphs, init_actions, set_char_frame, Action,
};
use hcs_12ss59t::{Error, FontTable};

use Action::{CsHigh, CsLow, DelayMicros, ResetHigh, ResetLow, SupplyOn, WriteByte};

fn cmd_frame(b: u8) -> Vec<Action> {
    vec![CsLow, DelayMicros(5), WriteByte(b), DelayMicros(20), CsHigh]
}

#[test]
fn command_frames_use_the_command_timing() {
    assert_eq!(
        cmd_frame_actions(0x6C),
        vec![CsLow, DelayMicros(5), WriteByte(0x6C), DelayMicros(20), CsHigh]
    );
}

#[test]
fn init_steps_have_the_fixed_order_and_bytes() {
    let mut expected = vec![ResetLow, DelayMicros(25), ResetHigh, DelayMicros(5), SupplyOn];
    expected.extend(cmd_frame(0x6C)); // digit count 12
    expected.extend(cmd_frame(0x57)); // display duty 7
    expected.extend(cmd_frame(0x70)); // lighting mode normal
    assert_eq!(init_actions(true), expected);
}

#[test]
fn init_without_supply_line_skips_the_supply_step() {
    let mut expected = vec![ResetLow, DelayMicros(25), ResetHigh, DelayMicros(5)];
    expected.extend(cmd_frame(0x6C));
    expected.extend(cmd_frame(0x57));
    expected.extend(cmd_frame(0x70));
    assert_eq!(init_actions(false), expected);
}

#[test]
fn brightness_zero_plans_no_bus_write() {
    assert_eq!(brightness_actions(true, 0), Ok(vec![Action::SupplyOff]));
    assert_eq!(brightness_actions(false, 0), Ok(vec![]));
}

#[test]
fn brightness_levels_plan_the_duty_command() {
    let mut expected = vec![SupplyOn];
    expected.extend(cmd_frame(0x55));
    assert_eq!(brightness_actions(true, 5), Ok(expected));
    assert_eq!(brightness_actions(false, 15), Ok(cmd_frame(0x5F)));
}

#[test]
fn brightness_above_fifteen_is_invalid() {
    assert_eq!(brightness_actions(true, 16), Err(Error::InvalidInput));
    assert_eq!(brightness_actions(false, 255), Err(Error::InvalidInput));
}

#[test]
fn data_frames_carry_each_byte_in_its_own_transaction() {
    assert_eq!(
        data_frame_actions(&[0xDE, 0xAD]),
        vec![
            CsLow,
            DelayMicros(1),
            WriteByte(0xDE),
            DelayMicros(8),
            WriteByte(0xAD),
            DelayMicros(8),
            DelayMicros(12),
            CsHigh,
        ]
    );
    assert_eq!(
        data_frame_actions(&[]),
        vec![CsLow, DelayMicros(1), DelayMicros(12), CsHigh]
    );
}

#[test]
fn dcram_frame_fills_back_to_front_with_blank_default() {
    let frame = dcram_frame_from_glyphs(&[FontTable::CharA, FontTable::CharB]);
    let mut expected = vec![0x10u8];
    expected.extend([0x30; 10]);
    expected.push(0x12); // `B`, second character, second-highest address
    expected.push(0x11); // `A`, first character, highest address
    assert_eq!(frame, expected);
}

#[test]
fn dcram_frame_drops_glyphs_beyond_the_display_width() {
    let glyphs = [FontTable::CharX; 13];
    let frame = dcram_frame_from_glyphs(&glyphs);
    assert_eq!(frame.len(), 13);
    assert_eq!(frame[0], 0x10);
    // All twelve digit positions carry `X`; the thirteenth glyph is gone.
    assert!(frame[1..].iter().all(|&b| b == 0x28));
}

#[test]
fn set_char_frame_masks_the_address_to_four_bits() {
    assert_eq!(set_char_frame(3, FontTable::CharA), vec![0x13, 0x11]);
    assert_eq!(set_char_frame(0xF3, FontTable::CharQestMrk), vec![0x13, 0x4F]);
}

#[test]
fn cgram_frame_accepts_only_ram_entries() {
    assert_eq!(
        cgram_frame(FontTable::Ram5, [0xAA, 0x55]),
        Ok(vec![0x25, 0xAA, 0x55])
    );
    assert_eq!(
        cgram_frame(FontTable::CharSpace, [0xAA, 0x55]),
        Err(Error::InvalidInput)
    );
}
