//! Byte-exact encodings: every command variant against the opcode table.

use sh1106_core::command::{Command, Page, PumpVoltage, VcomhLevel};

#[test]
fn contrast_encodes_opcode_then_value() {
    assert_eq!(Command::Contrast(0x42).encode(), vec![0x81, 0x42]);
    assert_eq!(Command::Contrast(0x00).encode(), vec![0x81, 0x00]);
    assert_eq!(Command::Contrast(0xFF).encode(), vec![0x81, 0xFF]);
}

#[test]
fn all_on_encodes_both_states() {
    assert_eq!(Command::AllOn(false).encode(), vec![0xA4]);
    assert_eq!(Command::AllOn(true).encode(), vec![0xA5]);
}

#[test]
fn invert_encodes_both_states() {
    assert_eq!(Command::Invert(false).encode(), vec![0xA6]);
    assert_eq!(Command::Invert(true).encode(), vec![0xA7]);
}

#[test]
fn display_on_encodes_both_states() {
    assert_eq!(Command::DisplayOn(false).encode(), vec![0xAE]);
    assert_eq!(Command::DisplayOn(true).encode(), vec![0xAF]);
}

#[test]
fn lower_col_start_masks_to_low_nibble() {
    assert_eq!(Command::LowerColStart(0x0A).encode(), vec![0x0A]);
    assert_eq!(Command::LowerColStart(0xFA).encode(), vec![0x0A]);
}

#[test]
fn upper_col_start_masks_and_sets_opcode() {
    assert_eq!(Command::UpperColStart(0x03).encode(), vec![0x13]);
    assert_eq!(Command::UpperColStart(0xF3).encode(), vec![0x13]);
}

#[test]
fn col_start_emits_lower_then_upper_nibble() {
    assert_eq!(Command::ColStart(0x1A).encode(), vec![0x0A, 0x11]);
    assert_eq!(Command::ColStart(0x00).encode(), vec![0x00, 0x10]);
    assert_eq!(Command::ColStart(0xFF).encode(), vec![0x0F, 0x1F]);
}

#[test]
fn page_start_oriented_on_page_ordinal() {
    assert_eq!(Command::PageStart(Page::Page0).encode(), vec![0xB0]);
    assert_eq!(Command::PageStart(Page::Page5).encode(), vec![0xB5]);
    assert_eq!(Command::PageStart(Page::Page7).encode(), vec![0xB7]);
}

#[test]
fn start_line_masks_high_bits_without_error() {
    assert_eq!(Command::StartLine(0x00).encode(), vec![0x40]);
    assert_eq!(Command::StartLine(0x3F).encode(), vec![0x7F]);
    assert_eq!(Command::StartLine(0xFF).encode(), vec![0x7F]);
    assert_eq!(Command::StartLine(0x41).encode(), vec![0x41]);
}

#[test]
fn segment_remap_encodes_both_states() {
    assert_eq!(Command::SegmentRemap(false).encode(), vec![0xA0]);
    assert_eq!(Command::SegmentRemap(true).encode(), vec![0xA1]);
}

#[test]
fn multiplex_passes_ratio_verbatim() {
    assert_eq!(Command::Multiplex(0x3F).encode(), vec![0xA8, 0x3F]);
    assert_eq!(Command::Multiplex(0xFF).encode(), vec![0xA8, 0xFF]);
}

#[test]
fn reverse_com_dir_sets_bit_three() {
    assert_eq!(Command::ReverseComDir(false).encode(), vec![0xC0]);
    assert_eq!(Command::ReverseComDir(true).encode(), vec![0xC8]);
}

#[test]
fn display_offset_passes_value_verbatim() {
    assert_eq!(Command::DisplayOffset(0x00).encode(), vec![0xD3, 0x00]);
    assert_eq!(Command::DisplayOffset(0x37).encode(), vec![0xD3, 0x37]);
}

#[test]
fn com_pin_config_sets_bit_four() {
    assert_eq!(Command::ComPinConfig(false).encode(), vec![0xDA, 0x02]);
    assert_eq!(Command::ComPinConfig(true).encode(), vec![0xDA, 0x12]);
}

#[test]
fn display_clock_div_packs_fosc_high_div_low() {
    assert_eq!(Command::DisplayClockDiv(0x8, 0x0).encode(), vec![0xD5, 0x80]);
    assert_eq!(Command::DisplayClockDiv(0xF1, 0xF2).encode(), vec![0xD5, 0x12]);
}

#[test]
fn precharge_packs_phase_two_high_phase_one_low() {
    assert_eq!(Command::PreChargePeriod(0x1, 0xF).encode(), vec![0xD9, 0xF1]);
    assert_eq!(Command::PreChargePeriod(0xF2, 0xF4).encode(), vec![0xD9, 0x42]);
}

#[test]
fn precharge_swapping_arguments_changes_output() {
    let a = Command::PreChargePeriod(0x1, 0x2).encode();
    let b = Command::PreChargePeriod(0x2, 0x1).encode();
    assert_eq!(a, vec![0xD9, 0x21]);
    assert_eq!(b, vec![0xD9, 0x12]);
    assert_ne!(a, b);
}

#[test]
fn vcomh_deselect_shifts_ordinal_left_four() {
    assert_eq!(Command::VcomhDeselect(VcomhLevel::V0430).encode(), vec![0xDB, 0x00]);
    assert_eq!(Command::VcomhDeselect(VcomhLevel::V0769).encode(), vec![0xDB, 0x50]);
    assert_eq!(Command::VcomhDeselect(VcomhLevel::V0834).encode(), vec![0xDB, 0xF0]);
}

#[test]
fn noop_encodes_single_byte() {
    assert_eq!(Command::Noop.encode(), vec![0xE3]);
}

#[test]
fn charge_pump_encodes_both_states() {
    assert_eq!(Command::ChargePump(false).encode(), vec![0xAD, 0x8A]);
    assert_eq!(Command::ChargePump(true).encode(), vec![0xAD, 0x8B]);
}

#[test]
fn set_pump_voltage_adds_ordinal() {
    assert_eq!(Command::SetPumpVoltage(PumpVoltage::V64).encode(), vec![0x30]);
    assert_eq!(Command::SetPumpVoltage(PumpVoltage::V74).encode(), vec![0x31]);
    assert_eq!(Command::SetPumpVoltage(PumpVoltage::V80).encode(), vec![0x32]);
    assert_eq!(Command::SetPumpVoltage(PumpVoltage::V90).encode(), vec![0x33]);
}

#[test]
fn read_modify_write_boundaries_encode_one_byte_each() {
    assert_eq!(Command::ReadModifyWriteStart.encode(), vec![0xE0]);
    assert_eq!(Command::ReadModifyWriteEnd.encode(), vec![0xEE]);
}

#[test]
fn encode_is_deterministic() {
    let cmds = [
        Command::Contrast(0x42),
        Command::ColStart(0x1A),
        Command::PreChargePeriod(0x1, 0xF),
        Command::Noop,
    ];
    for c in cmds {
        assert_eq!(c.encode(), c.encode());
    }
}

#[test]
fn page_from_row_divides_by_eight() {
    for row in 0u8..64 {
        assert_eq!(Page::from(row).value(), row / 8);
    }
}

#[test]
fn page_from_picks_expected_variant() {
    assert_eq!(Page::from(0), Page::Page0);
    assert_eq!(Page::from(7), Page::Page0);
    assert_eq!(Page::from(8), Page::Page1);
    assert_eq!(Page::from(37), Page::Page4);
    assert_eq!(Page::from(63), Page::Page7);
}

#[test]
fn vcomh_default_is_reset_value() {
    assert_eq!(VcomhLevel::default(), VcomhLevel::V0769);
    assert_eq!(VcomhLevel::default().value(), 0x35);
    assert_eq!(VcomhLevel::V1000.value(), 0x40);
}

#[test]
fn pump_voltage_default_is_eight_volts() {
    assert_eq!(PumpVoltage::default(), PumpVoltage::V80);
    assert_eq!(PumpVoltage::default().value(), 2);
}
