//! The sending step against in-memory sinks, and the builder.

use sh1106_core::builder::{Builder, DisplaySize};
use sh1106_core::command::{Command, Page};
use sh1106_core::sink::{FailingSink, RecordingSink, TransportError};

#[test]
fn send_hands_encoded_bytes_to_sink() {
    let mut sink = RecordingSink::new();
    assert_eq!(Command::Contrast(0x42).send(&mut sink), Ok(()));
    assert_eq!(sink.bytes, vec![0x81, 0x42]);
}

#[test]
fn send_appends_in_call_order() {
    let mut sink = RecordingSink::new();
    assert_eq!(Command::PageStart(Page::Page3).send(&mut sink), Ok(()));
    assert_eq!(Command::ColStart(0x1A).send(&mut sink), Ok(()));
    assert_eq!(sink.bytes, vec![0xB3, 0x0A, 0x11]);
}

#[test]
fn send_agrees_with_encode_for_every_variant() {
    let cmds = [
        Command::Contrast(0x42),
        Command::AllOn(true),
        Command::Invert(false),
        Command::DisplayOn(true),
        Command::LowerColStart(0xFA),
        Command::UpperColStart(0xF3),
        Command::ColStart(0x1A),
        Command::PageStart(Page::Page5),
        Command::StartLine(0xFF),
        Command::SegmentRemap(true),
        Command::Multiplex(0x3F),
        Command::ReverseComDir(true),
        Command::DisplayOffset(0x37),
        Command::ComPinConfig(true),
        Command::DisplayClockDiv(0xF1, 0xF2),
        Command::PreChargePeriod(0x1, 0xF),
        Command::VcomhDeselect(Default::default()),
        Command::Noop,
        Command::ChargePump(true),
        Command::SetPumpVoltage(Default::default()),
        Command::ReadModifyWriteStart,
        Command::ReadModifyWriteEnd,
    ];
    for c in cmds {
        let mut sink = RecordingSink::new();
        assert_eq!(c.send(&mut sink), Ok(()));
        assert_eq!(sink.bytes, c.encode());
    }
}

#[test]
fn rmw_session_is_two_separate_opcode_bytes() {
    let mut sink = RecordingSink::new();
    assert_eq!(Command::ReadModifyWriteStart.send(&mut sink), Ok(()));
    assert_eq!(sink.bytes, vec![0xE0]);
    assert_eq!(Command::ReadModifyWriteEnd.send(&mut sink), Ok(()));
    assert_eq!(sink.bytes, vec![0xE0, 0xEE]);
}

#[test]
fn failed_transport_surfaces_error_and_sends_nothing() {
    let mut sink = FailingSink::new();
    assert_eq!(Command::Contrast(0x42).send(&mut sink), Err(TransportError));
    assert_eq!(Command::Noop.send(&mut sink), Err(TransportError));
}

#[test]
fn builder_defaults_to_128_by_64() {
    assert_eq!(Builder::new().size(), DisplaySize::Display128x64);
    assert_eq!(DisplaySize::Display128x64.dimensions(), (128, 64));
    assert_eq!(DisplaySize::Display128x32.dimensions(), (128, 32));
    assert_eq!(DisplaySize::Display96x16.dimensions(), (96, 16));
}

#[test]
fn with_size_replaces_rather_than_composes() {
    let x = DisplaySize::Display128x32;
    let y = DisplaySize::Display96x16;
    assert_eq!(Builder::new().with_size(x).with_size(y), Builder::new().with_size(y));
    assert_eq!(Builder::new().with_size(x).with_size(y).size(), y);
    assert_eq!(Builder::new().with_size(x).size(), x);
}
