//! The controller's command set and its bit-exact encoding.

use vstd::prelude::*;

use crate::sink::CommandSink;
use crate::sink::TransportError;

verus! {

/// A display page: one 8-row horizontal band, addressed as a unit by the
/// controller's page-addressing mode.
#[derive(Clone, Copy, Debug, PartialEq, Eq, Structural)]
pub enum Page {
    /// Rows 0..=7
    Page0,
    /// Rows 8..=15
    Page1,
    /// Rows 16..=23
    Page2,
    /// Rows 24..=31
    Page3,
    /// Rows 32..=39
    Page4,
    /// Rows 40..=47
    Page5,
    /// Rows 48..=55
    Page6,
    /// Rows 56..=63
    Page7,
}

/// The register field value of a page: its index, 0..=7.
pub open spec fn page_value(p: Page) -> u8 {
    match p {
        Page::Page0 => 0,
        Page::Page1 => 1,
        Page::Page2 => 2,
        Page::Page3 => 3,
        Page::Page4 => 4,
        Page::Page5 => 5,
        Page::Page6 => 6,
        Page::Page7 => 7,
    }
}

impl Page {
    /// The raw register field value of this page, 0..=7.
    pub fn value(self) -> (r: u8)
        ensures
            r == page_value(self),
    {
        match self {
            Page::Page0 => 0,
            Page::Page1 => 1,
            Page::Page2 => 2,
            Page::Page3 => 3,
            Page::Page4 => 4,
            Page::Page5 => 5,
            Page::Page6 => 6,
            Page::Page7 => 7,
        }
    }

    /// The page that covers a raw row index: row 0..=63 lies on page row / 8.
    pub fn from(row: u8) -> (r: Page)
        requires
            row < 64,
        ensures
            page_value(r) == row / 8,
    {
        match row / 8 {
            0 => Page::Page0,
            1 => Page::Page1,
            2 => Page::Page2,
            3 => Page::Page3,
            4 => Page::Page4,
            5 => Page::Page5,
            6 => Page::Page6,
            _ => Page::Page7,
        }
    }
}

/// VCOM deselect level. The ordinal runs 0x00..=0x40 and names the fraction
/// of VREF, in thousandths, that the variant's name spells out (`V0769` is
/// 769 thousandths of VREF, the controller's reset default; `V1000` is VREF
/// itself).
#[derive(Clone, Copy, Debug, PartialEq, Eq, Structural)]
pub enum VcomhLevel {
    V0430,
    V0436,
    V0442,
    V0449,
    V0455,
    V0462,
    V0468,
    V0474,
    V0481,
    V0487,
    V0494,
    V0500,
    V0506,
    V0513,
    V0519,
    V0526,
    V0532,
    V0539,
    V0545,
    V0551,
    V0558,
    V0564,
    V0571,
    V0577,
    V0583,
    V0590,
    V0596,
    V0603,
    V0609,
    V0616,
    V0622,
    V0628,
    V0635,
    V0641,
    V0648,
    V0654,
    V0660,
    V0667,
    V0673,
    V0680,
    V0686,
    V0693,
    V0699,
    V0705,
    V0712,
    V0718,
    V0725,
    V0731,
    V0737,
    V0744,
    V0750,
    V0757,
    V0763,
    V0769,
    V0776,
    V0782,
    V0789,
    V0795,
    V0802,
    V0808,
    V0814,
    V0821,
    V0827,
    V0834,
    V1000,
}

/// The register field value of a VCOM deselect level: its ordinal,
/// 0x00..=0x40.
pub open spec fn vcomh_value(l: VcomhLevel) -> u8 {
    match l {
        VcomhLevel::V0430 => 0x00,
        VcomhLevel::V0436 => 0x01,
        VcomhLevel::V0442 => 0x02,
        VcomhLevel::V0449 => 0x03,
        VcomhLevel::V0455 => 0x04,
        VcomhLevel::V0462 => 0x05,
        VcomhLevel::V0468 => 0x06,
        VcomhLevel::V0474 => 0x07,
        VcomhLevel::V0481 => 0x08,
        VcomhLevel::V0487 => 0x09,
        VcomhLevel::V0494 => 0x0A,
        VcomhLevel::V0500 => 0x0B,
        VcomhLevel::V0506 => 0x0C,
        VcomhLevel::V0513 => 0x0D,
        VcomhLevel::V0519 => 0x0E,
        VcomhLevel::V0526 => 0x0F,
        VcomhLevel::V0532 => 0x10,
        VcomhLevel::V0539 => 0x11,
        VcomhLevel::V0545 => 0x12,
        VcomhLevel::V0551 => 0x13,
        VcomhLevel::V0558 => 0x14,
        VcomhLevel::V0564 => 0x15,
        VcomhLevel::V0571 => 0x16,
        VcomhLevel::V0577 => 0x17,
        VcomhLevel::V0583 => 0x18,
        VcomhLevel::V0590 => 0x19,
        VcomhLevel::V0596 => 0x1A,
        VcomhLevel::V0603 => 0x1B,
        VcomhLevel::V0609 => 0x1C,
        VcomhLevel::V0616 => 0x1D,
        VcomhLevel::V0622 => 0x1E,
        VcomhLevel::V0628 => 0x1F,
        VcomhLevel::V0635 => 0x20,
        VcomhLevel::V0641 => 0x21,
        VcomhLevel::V0648 => 0x22,
        VcomhLevel::V0654 => 0x23,
        VcomhLevel::V0660 => 0x24,
        VcomhLevel::V0667 => 0x25,
        VcomhLevel::V0673 => 0x26,
        VcomhLevel::V0680 => 0x27,
        VcomhLevel::V0686 => 0x28,
        VcomhLevel::V0693 => 0x29,
        VcomhLevel::V0699 => 0x2A,
        VcomhLevel::V0705 => 0x2B,
        VcomhLevel::V0712 => 0x2C,
        VcomhLevel::V0718 => 0x2D,
        VcomhLevel::V0725 => 0x2E,
        VcomhLevel::V0731 => 0x2F,
        VcomhLevel::V0737 => 0x30,
        VcomhLevel::V0744 => 0x31,
        VcomhLevel::V0750 => 0x32,
        VcomhLevel::V0757 => 0x33,
        VcomhLevel::V0763 => 0x34,
        VcomhLevel::V0769 => 0x35,
        VcomhLevel::V0776 => 0x36,
        VcomhLevel::V0782 => 0x37,
        VcomhLevel::V0789 => 0x38,
        VcomhLevel::V0795 => 0x39,
        VcomhLevel::V0802 => 0x3A,
        VcomhLevel::V0808 => 0x3B,
        VcomhLevel::V0814 => 0x3C,
        VcomhLevel::V0821 => 0x3D,
        VcomhLevel::V0827 => 0x3E,
        VcomhLevel::V0834 => 0x3F,
        VcomhLevel::V1000 => 0x40,
    }
}

impl VcomhLevel {
    /// The raw register field value of this level, 0x00..=0x40.
    pub fn value(self) -> (r: u8)
        ensures
            r == vcomh_value(self),
    {
        match self {
            VcomhLevel::V0430 => 0x00,
            VcomhLevel::V0436 => 0x01,
            VcomhLevel::V0442 => 0x02,
            VcomhLevel::V0449 => 0x03,
            VcomhLevel::V0455 => 0x04,
            VcomhLevel::V0462 => 0x05,
            VcomhLevel::V0468 => 0x06,
            VcomhLevel::V0474 => 0x07,
            VcomhLevel::V0481 => 0x08,
            VcomhLevel::V0487 => 0x09,
            VcomhLevel::V0494 => 0x0A,
            VcomhLevel::V0500 => 0x0B,
            VcomhLevel::V0506 => 0x0C,
            VcomhLevel::V0513 => 0x0D,
            VcomhLevel::V0519 => 0x0E,
            VcomhLevel::V0526 => 0x0F,
            VcomhLevel::V0532 => 0x10,
            VcomhLevel::V0539 => 0x11,
            VcomhLevel::V0545 => 0x12,
            VcomhLevel::V0551 => 0x13,
            VcomhLevel::V0558 => 0x14,
            VcomhLevel::V0564 => 0x15,
            VcomhLevel::V0571 => 0x16,
            VcomhLevel::V0577 => 0x17,
            VcomhLevel::V0583 => 0x18,
            VcomhLevel::V0590 => 0x19,
            VcomhLevel::V0596 => 0x1A,
            VcomhLevel::V0603 => 0x1B,
            VcomhLevel::V0609 => 0x1C,
            VcomhLevel::V0616 => 0x1D,
            VcomhLevel::V0622 => 0x1E,
            VcomhLevel::V0628 => 0x1F,
            VcomhLevel::V0635 => 0x20,
            VcomhLevel::V0641 => 0x21,
            VcomhLevel::V0648 => 0x22,
            VcomhLevel::V0654 => 0x23,
            VcomhLevel::V0660 => 0x24,
            VcomhLevel::V0667 => 0x25,
            VcomhLevel::V0673 => 0x26,
            VcomhLevel::V0680 => 0x27,
            VcomhLevel::V0686 => 0x28,
            VcomhLevel::V0693 => 0x29,
            VcomhLevel::V0699 => 0x2A,
            VcomhLevel::V0705 => 0x2B,
            VcomhLevel::V0712 => 0x2C,
            VcomhLevel::V0718 => 0x2D,
            VcomhLevel::V0725 => 0x2E,
            VcomhLevel::V0731 => 0x2F,
            VcomhLevel::V0737 => 0x30,
            VcomhLevel::V0744 => 0x31,
            VcomhLevel::V0750 => 0x32,
            VcomhLevel::V0757 => 0x33,
            VcomhLevel::V0763 => 0x34,
            VcomhLevel::V0769 => 0x35,
            VcomhLevel::V0776 => 0x36,
            VcomhLevel::V0782 => 0x37,
            VcomhLevel::V0789 => 0x38,
            VcomhLevel::V0795 => 0x39,
            VcomhLevel::V0802 => 0x3A,
            VcomhLevel::V0808 => 0x3B,
            VcomhLevel::V0814 => 0x3C,
            VcomhLevel::V0821 => 0x3D,
            VcomhLevel::V0827 => 0x3E,
            VcomhLevel::V0834 => 0x3F,
            VcomhLevel::V1000 => 0x40,
        }
    }
}

impl Default for VcomhLevel {
    /// The controller's reset default, 769 thousandths of VREF.
    fn default() -> (r: Self)
        ensures
            r == VcomhLevel::V0769,
    {
        VcomhLevel::V0769
    }
}

/// Charge-pump output voltage (VPP).
#[derive(Clone, Copy, Debug, PartialEq, Eq, Structural)]
pub enum PumpVoltage {
    /// 6400 mV
    V64,
    /// 7400 mV
    V74,
    /// 8000 mV
    V80,
    /// 9000 mV
    V90,
}

/// The register field value of a pump voltage: its ordinal, 0..=3.
pub open spec fn pump_value(v: PumpVoltage) -> u8 {
    match v {
        PumpVoltage::V64 => 0,
        PumpVoltage::V74 => 1,
        PumpVoltage::V80 => 2,
        PumpVoltage::V90 => 3,
    }
}

impl PumpVoltage {
    /// The raw register field value of this voltage, 0..=3.
    pub fn value(self) -> (r: u8)
        ensures
            r == pump_value(self),
    {
        match self {
            PumpVoltage::V64 => 0,
            PumpVoltage::V74 => 1,
            PumpVoltage::V80 => 2,
            PumpVoltage::V90 => 3,
        }
    }
}

impl Default for PumpVoltage {
    /// The controller's reset default, 8000 mV.
    fn default() -> (r: Self)
        ensures
            r == PumpVoltage::V80,
    {
        PumpVoltage::V80
    }
}

/// The register bit carried by a boolean payload: 1 for true, 0 for false.
pub open spec fn bit(b: bool) -> u8 {
    if b {
        1
    } else {
        0
    }
}

fn bool_bit(b: bool) -> (r: u8)
    ensures
        r == bit(b),
{
    if b {
        1
    } else {
        0
    }
}

/// One controller operation, with its payload. Adding a variant fails to
/// compile until the encoder below handles it, so every opcode the crate
/// knows is guaranteed an encoding.
///
/// Free-form `u8` payloads are masked to their register field width by the
/// encoder, matching the controller's own truncation behaviour; they are
/// never rejected.
#[derive(Clone, Copy, Debug, PartialEq, Eq, Structural)]
pub enum Command {
    /// 0x81: set contrast. Higher is higher contrast; reset default 0x80.
    Contrast(u8),
    /// 0xA4/0xA5: if set, light every pixel; if not, show memory contents.
    AllOn(bool),
    /// 0xA6/0xA7: invert the display.
    Invert(bool),
    /// 0xAE/0xAF: turn the display off or on.
    DisplayOn(bool),
    /// 0x00-0x0F: lower nibble of the column start address register, from
    /// the payload's low 4 bits. Page addressing mode only.
    LowerColStart(u8),
    /// 0x10-0x1F: upper nibble of the column start address register, from
    /// the payload's low 4 bits. Page addressing mode only.
    UpperColStart(u8),
    /// Set the whole column start address register: the two nibble commands
    /// above, emitted lower first.
    ColStart(u8),
    /// 0xB0-0xB7: set the page address.
    PageStart(Page),
    /// 0x40-0x7F: set the display start line, 0..=63.
    StartLine(u8),
    /// 0xA0/0xA1: remap the segment (column) scan direction.
    SegmentRemap(bool),
    /// 0xA8: set the multiplex ratio. The payload is ratio - 1.
    Multiplex(u8),
    /// 0xC0/0xC8: if set, scan commons from COM[N-1] down to COM0.
    ReverseComDir(bool),
    /// 0xD3: set the vertical shift, 0..=63.
    DisplayOffset(u8),
    /// 0xDA: COM pin hardware configuration, sequential (false) or
    /// alternative (true).
    ComPinConfig(bool),
    /// 0xD5: set the display clock. First payload is the oscillator
    /// frequency code, second is the divide ratio minus one; each is masked
    /// to its 4-bit field.
    DisplayClockDiv(u8, u8),
    /// 0xD9: set precharge phase 1 and phase 2 lengths, each nominally
    /// 1..=15 and masked to 4 bits. Phase 2 occupies the high nibble of the
    /// emitted byte even though it is the second argument.
    PreChargePeriod(u8, u8),
    /// 0xDB: set the VCOM deselect level.
    VcomhDeselect(VcomhLevel),
    /// 0xE3: no operation.
    Noop,
    /// 0xAD: enable or disable the charge pump.
    ChargePump(bool),
    /// 0x30-0x33: set the charge-pump output voltage.
    SetPumpVoltage(PumpVoltage),
    /// 0xE0: begin a read-modify-write session. The column address then
    /// advances only on data writes, until the matching end command.
    ReadModifyWriteStart,
    /// 0xEE: end a read-modify-write session and restore the column address
    /// recorded when it began.
    ReadModifyWriteEnd,
}

/// The controller's opcode table: the exact bytes that a command puts on
/// the bus, most significant bit first. This is the single specification
/// both the encoder and every sending path are held to.
pub open spec fn encode_spec(c: Command) -> Seq<u8> {
    match c {
        Command::Contrast(v) => seq![0x81u8, v],
        Command::AllOn(on) => seq![0xA4u8 | bit(on)],
        Command::Invert(inv) => seq![0xA6u8 | bit(inv)],
        Command::DisplayOn(on) => seq![0xAEu8 | bit(on)],
        Command::LowerColStart(addr) => seq![0xFu8 & addr],
        Command::UpperColStart(addr) => seq![0x10u8 | (0xFu8 & addr)],
        Command::ColStart(addr) => seq![0xFu8 & addr, 0x10u8 | (0xFu8 & (addr >> 4))],
        Command::PageStart(page) => seq![0xB0u8 | page_value(page)],
        Command::StartLine(line) => seq![0x40u8 | (0x3Fu8 & line)],
        Command::SegmentRemap(remap) => seq![0xA0u8 | bit(remap)],
        Command::Multiplex(ratio) => seq![0xA8u8, ratio],
        Command::ReverseComDir(rev) => seq![0xC0u8 | (bit(rev) << 3)],
        Command::DisplayOffset(offset) => seq![0xD3u8, offset],
        Command::ComPinConfig(alt) => seq![0xDAu8, 0x2u8 | (bit(alt) << 4)],
        Command::DisplayClockDiv(fosc, div) => seq![
            0xD5u8,
            ((0xFu8 & fosc) << 4) | (0xFu8 & div),
        ],
        Command::PreChargePeriod(phase1, phase2) => seq![
            0xD9u8,
            ((0xFu8 & phase2) << 4) | (0xFu8 & phase1),
        ],
        Command::VcomhDeselect(level) => seq![0xDBu8, vcomh_value(level) << 4],
        Command::Noop => seq![0xE3u8],
        Command::ChargePump(en) => seq![0xADu8, 0x8Au8 | bit(en)],
        Command::SetPumpVoltage(voltage) => seq![0x30u8 | pump_value(voltage)],
        Command::ReadModifyWriteStart => seq![0xE0u8],
        Command::ReadModifyWriteEnd => seq![0xEEu8],
    }
}

fn one_byte(b0: u8) -> (r: Vec<u8>)
    ensures
        r@ == seq![b0],
{
    let mut v: Vec<u8> = Vec::new();
    v.push(b0);
    proof {
        assert(v@ =~= seq![b0]);
    }
    v
}

fn two_bytes(b0: u8, b1: u8) -> (r: Vec<u8>)
    ensures
        r@ == seq![b0, b1],
{
    let mut v: Vec<u8> = Vec::new();
    v.push(b0);
    v.push(b1);
    proof {
        assert(v@ =~= seq![b0, b1]);
    }
    v
}

impl Command {
    /// Encode this command into the raw bytes of the opcode table. Pure and
    /// total: every variant encodes, payload bits outside a register field
    /// are masked off, and no input is rejected.
    pub fn encode(self) -> (r: Vec<u8>)
        ensures
            r@ == encode_spec(self),
            1 <= r@.len() <= 2,
    {
        match self {
            Command::Contrast(v) => two_bytes(0x81, v),
            Command::AllOn(on) => one_byte(0xA4 | bool_bit(on)),
            Command::Invert(inv) => one_byte(0xA6 | bool_bit(inv)),
            Command::DisplayOn(on) => one_byte(0xAE | bool_bit(on)),
            Command::LowerColStart(addr) => one_byte(0xF & addr),
            Command::UpperColStart(addr) => one_byte(0x10 | (0xF & addr)),
            Command::ColStart(addr) => two_bytes(0xF & addr, 0x10 | (0xF & (addr >> 4))),
            Command::PageStart(page) => one_byte(0xB0 | page.value()),
            Command::StartLine(line) => one_byte(0x40 | (0x3F & line)),
            Command::SegmentRemap(remap) => one_byte(0xA0 | bool_bit(remap)),
            Command::Multiplex(ratio) => two_bytes(0xA8, ratio),
            Command::ReverseComDir(rev) => one_byte(0xC0 | (bool_bit(rev) << 3)),
            Command::DisplayOffset(offset) => two_bytes(0xD3, offset),
            Command::ComPinConfig(alt) => two_bytes(0xDA, 0x2 | (bool_bit(alt) << 4)),
            Command::DisplayClockDiv(fosc, div) => {
                two_bytes(0xD5, ((0xF & fosc) << 4) | (0xF & div))
            },
            Command::PreChargePeriod(phase1, phase2) => {
                two_bytes(0xD9, ((0xF & phase2) << 4) | (0xF & phase1))
            },
            Command::VcomhDeselect(level) => two_bytes(0xDB, level.value() << 4),
            Command::Noop => one_byte(0xE3),
            Command::ChargePump(en) => two_bytes(0xAD, 0x8A | bool_bit(en)),
            Command::SetPumpVoltage(voltage) => one_byte(0x30 | voltage.value()),
            Command::ReadModifyWriteStart => one_byte(0xE0),
            Command::ReadModifyWriteEnd => one_byte(0xEE),
        }
    }

    /// Encode this command and hand the bytes to the sink in one call.
    ///
    /// On success the sink's trace grows by exactly the opcode table's bytes
    /// for this command; on a transport failure it does not grow at all, so
    /// no partial opcode is ever considered sent. The error is surfaced
    /// verbatim: this layer never retries.
    pub fn send<S: CommandSink>(self, sink: &mut S) -> (r: Result<(), TransportError>)
        ensures
            r is Ok ==> final(sink).sent() == old(sink).sent() + encode_spec(self),
            r is Err ==> final(sink).sent() == old(sink).sent(),
    {
        let bytes = self.encode();
        sink.write_command_bytes(bytes.as_slice())
    }
}

/// Masking is total: whatever the raw payload, the start-line command is a
/// single byte inside the opcode's own range 0x40..=0x7F. High payload
/// bits are discarded, never an error.
pub proof fn lemma_start_line_masked(line: u8)
    ensures
        encode_spec(Command::StartLine(line)).len() == 1,
        0x40 <= encode_spec(Command::StartLine(line))[0] <= 0x7F,
{
    assert(0x40u8 <= (0x40u8 | (0x3Fu8 & line)) && (0x40u8 | (0x3Fu8 & line)) <= 0x7Fu8)
        by (bit_vector);
}

/// The precharge byte's field order is load-bearing: phase 2 occupies the
/// high nibble of the emitted byte although it is the second argument.
/// Swapping two distinct in-range phases therefore changes the encoding.
pub proof fn lemma_precharge_swap_differs(phase1: u8, phase2: u8)
    requires
        1 <= phase1 <= 15,
        1 <= phase2 <= 15,
        phase1 != phase2,
    ensures
        encode_spec(Command::PreChargePeriod(phase1, phase2)) != encode_spec(
            Command::PreChargePeriod(phase2, phase1),
        ),
{
    assert((((0xFu8 & phase2) << 4) | (0xFu8 & phase1)) != (((0xFu8 & phase1) << 4) | (0xFu8
        & phase2))) by (bit_vector)
        requires
            1 <= phase1 <= 15,
            1 <= phase2 <= 15,
            phase1 != phase2,
    ;
    let s1 = encode_spec(Command::PreChargePeriod(phase1, phase2));
    let s2 = encode_spec(Command::PreChargePeriod(phase2, phase1));
    assert(s1[1] != s2[1]);
}

/// Session boundaries are never merged, reordered or elided: a start
/// command followed by an end command contributes exactly the opcode byte
/// 0xE0 and then the opcode byte 0xEE to a sink's trace, one byte from
/// each send.
pub proof fn lemma_rmw_pair(trace: Seq<u8>)
    ensures
        encode_spec(Command::ReadModifyWriteStart) == seq![0xE0u8],
        encode_spec(Command::ReadModifyWriteEnd) == seq![0xEEu8],
        (trace + encode_spec(Command::ReadModifyWriteStart)) + encode_spec(
            Command::ReadModifyWriteEnd,
        ) == trace + seq![0xE0u8, 0xEEu8],
{
    assert((trace + seq![0xE0u8]) + seq![0xEEu8] =~= trace + seq![0xE0u8, 0xEEu8]);
}

/// One specification, every sending shape: what a successful send appends
/// to a sink's trace is a function of the command alone, so two sinks that
/// accept the same command receive byte-for-byte identical data, whatever
/// their traces held before.
pub proof fn lemma_send_appends_command_bytes(c: Command, trace: Seq<u8>)
    ensures
        (trace + encode_spec(c)).subrange(
            trace.len() as int,
            (trace + encode_spec(c)).len() as int,
        ) == encode_spec(c),
{
    assert((trace + encode_spec(c)).subrange(
        trace.len() as int,
        (trace + encode_spec(c)).len() as int,
    ) =~= encode_spec(c));
}

} // verus!
