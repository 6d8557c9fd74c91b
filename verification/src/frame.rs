//! Command frames: how a power-down request or an output value is laid out in
//! the bytes that the converter shifts in.
//!
//! The first byte starts with a two-bit control selector. A power-down frame
//! carries the mode's code in the rest of that byte and zeros after it. A
//! write-through frame carries the output value: fourteen bits, right-aligned,
//! in the two-byte frame of the MAX5214, and sixteen bits, left-aligned behind
//! the selector, in the three-byte frame of the MAX5216.

use vstd::prelude::*;

verus! {

/// The control function that a frame selects, held in bits 7:6 of its first byte.
#[derive(Debug, Copy, Clone, PartialEq, Eq, Structural)]
pub enum ControlBits {
    PowerDown,
    WriteThrough,
}

/// Power down modes for the DAC outputs
#[derive(Debug, Copy, Clone, PartialEq, Eq, Structural)]
pub enum PowerDownMode {
    Normal,
    HighImpedance,
    Gnd100KOhm,
    Gnd1KOhm,
}

impl ControlBits {
    /// The selector as it stands in the first byte of a frame.
    pub open spec fn spec_bits(self) -> u8 {
        match self {
            ControlBits::PowerDown => 0x80,
            ControlBits::WriteThrough => 0x40,
        }
    }

    #[verifier::when_used_as_spec(spec_bits)]
    pub fn bits(self) -> (b: u8)
        ensures
            b == self.spec_bits(),
    {
        match self {
            ControlBits::PowerDown => 0x80,
            ControlBits::WriteThrough => 0x40,
        }
    }
}

impl PowerDownMode {
    /// The mode's code as it stands in the first byte of a power-down frame.
    pub open spec fn spec_code(self) -> u8 {
        match self {
            PowerDownMode::Normal => 0x0,
            PowerDownMode::HighImpedance => 0x4,
            PowerDownMode::Gnd100KOhm => 0x8,
            PowerDownMode::Gnd1KOhm => 0xC,
        }
    }

    #[verifier::when_used_as_spec(spec_code)]
    pub fn code(self) -> (c: u8)
        ensures
            c == self.spec_code(),
    {
        match self {
            PowerDownMode::Normal => 0x0,
            PowerDownMode::HighImpedance => 0x4,
            PowerDownMode::Gnd100KOhm => 0x8,
            PowerDownMode::Gnd1KOhm => 0xC,
        }
    }
}

/// The two-byte power-down frame of the MAX5214.
pub open spec fn narrow_power_down(mode: PowerDownMode) -> Seq<u8> {
    seq![(0x80 + mode.spec_code()) as u8, 0u8]
}

/// The three-byte power-down frame of the MAX5216.
pub open spec fn wide_power_down(mode: PowerDownMode) -> Seq<u8> {
    seq![(0x80 + mode.spec_code()) as u8, 0u8, 0u8]
}

/// The two-byte write-through frame of the MAX5214: the low fourteen bits of
/// `value`, the upper six of them behind the selector.
pub open spec fn narrow_write_through(value: u16) -> Seq<u8> {
    seq![(0x40 + (value / 0x100) % 0x40) as u8, (value % 0x100) as u8]
}

/// The three-byte write-through frame of the MAX5216: all sixteen bits of
/// `value`, starting right behind the selector, then six zero bits.
pub open spec fn wide_write_through(value: u16) -> Seq<u8> {
    seq![(0x40 + value / 0x400) as u8, ((value / 4) % 0x100) as u8, ((value % 4) * 0x40) as u8]
}

/// Bits 7:6 of a frame's first byte: the control selector.
pub open spec fn control_field(frame: Seq<u8>) -> u8 {
    frame[0] >> 6
}

/// Bits 5:2 of a frame's first byte, read in place: where the converter
/// looks for the power-down mode.
pub open spec fn mode_field(frame: Seq<u8>) -> u8 {
    frame[0] & 0x3c
}

/// The output value that the MAX5214 takes from a two-byte frame: bits 5:0 of
/// the first byte above the second byte.
pub open spec fn narrow_value(frame: Seq<u8>) -> u16 {
    ((frame[0] & 0x3f) as u16) << 8 | (frame[1] as u16)
}

/// The output value that the MAX5216 takes from a three-byte frame: bits 5:0
/// of the first byte, the second byte, and bits 7:6 of the third.
pub open spec fn wide_value(frame: Seq<u8>) -> u16 {
    ((frame[0] & 0x3f) as u16) << 10 | (frame[1] as u16) << 2 | ((frame[2] >> 6) as u16)
}

/// The twenty-two bits below the selector of a three-byte frame, as one number.
pub open spec fn wide_register(frame: Seq<u8>) -> u32 {
    ((frame[0] & 0x3f) as u32) << 16 | (frame[1] as u32) << 8 | (frame[2] as u32)
}

/// Packs a power-down request for the MAX5214.
pub fn encode_narrow_power_down(mode: PowerDownMode) -> (frame: [u8; 2])
    ensures
        frame@ == narrow_power_down(mode),
{
    let select: u8 = ControlBits::PowerDown.bits();
    let code: u8 = mode.code();
    assert(0x80u8 | code == 0x80u8 + code) by (bit_vector)
        requires
            code <= 0xCu8,
    ;
    let frame: [u8; 2] = [select | code, 0x00];
    assert(frame@ =~= narrow_power_down(mode));
    frame
}

/// Packs a power-down request for the MAX5216.
pub fn encode_wide_power_down(mode: PowerDownMode) -> (frame: [u8; 3])
    ensures
        frame@ == wide_power_down(mode),
{
    let select: u8 = ControlBits::PowerDown.bits();
    let code: u8 = mode.code();
    assert(0x80u8 | code == 0x80u8 + code) by (bit_vector)
        requires
            code <= 0xCu8,
    ;
    let frame: [u8; 3] = [select | code, 0x00, 0x00];
    assert(frame@ =~= wide_power_down(mode));
    frame
}

/// Packs an output value for the MAX5214. The two upper bits of `value` have
/// no place in the frame and are left out.
pub fn encode_narrow_write_through(value: u16) -> (frame: [u8; 2])
    ensures
        frame@ == narrow_write_through(value),
{
    let select: u8 = ControlBits::WriteThrough.bits();
    let upper: u8 = ((value >> 8) as u8) & 0x3f;
    let lower: u8 = #[verifier::truncate] (value as u8);
    assert(0x40u8 | (((value >> 8) as u8) & 0x3fu8) == 0x40 + (value / 0x100) % 0x40)
        by (bit_vector);
    assert(value as u8 == value % 0x100) by (bit_vector);
    let frame: [u8; 2] = [select | upper, lower];
    assert(frame@ =~= narrow_write_through(value));
    frame
}

/// Packs an output value for the MAX5216.
pub fn encode_wide_write_through(value: u16) -> (frame: [u8; 3])
    ensures
        frame@ == wide_write_through(value),
{
    let select: u8 = ControlBits::WriteThrough.bits();
    let upper: u8 = (value >> 10) as u8;
    let middle: u8 = #[verifier::truncate] ((value >> 2) as u8);
    let lower: u8 = #[verifier::truncate] ((value << 6) as u8);
    assert(0x40u8 | ((value >> 10) as u8) == 0x40 + value / 0x400) by (bit_vector);
    assert((value >> 2) as u8 == (value / 4) % 0x100) by (bit_vector);
    assert((value << 6) as u8 == (value % 4) * 0x40) by (bit_vector);
    let frame: [u8; 3] = [select | upper, middle, lower];
    assert(frame@ =~= wide_write_through(value));
    frame
}

/// A power-down frame of either width selects the power-down function in bits
/// 7:6 of its first byte, holds the mode's code in bits 5:2, leaves bits 1:0
/// clear, and is zero in every byte after the first.
pub proof fn lemma_power_down_layout(mode: PowerDownMode)
    ensures
        narrow_power_down(mode).len() == 2,
        wide_power_down(mode).len() == 3,
        wide_power_down(mode)[0] == narrow_power_down(mode)[0],
        control_field(narrow_power_down(mode)) == 0b10,
        control_field(narrow_power_down(mode)) == ControlBits::PowerDown.spec_bits() >> 6,
        mode_field(narrow_power_down(mode)) == mode.spec_code(),
        narrow_power_down(mode)[0] & 0x03 == 0,
        forall|i: int| 1 <= i < 2 ==> narrow_power_down(mode)[i] == 0,
        forall|i: int| 1 <= i < 3 ==> wide_power_down(mode)[i] == 0,
{
    let code: u8 = mode.spec_code();
    let head: u8 = narrow_power_down(mode)[0];
    assert(head == 0x80 + code);
    assert(head >> 6 == 0b10 && head & 0x3c == code && head & 0x03 == 0) by (bit_vector)
        requires
            head == 0x80 + code,
            code == 0x0 || code == 0x4 || code == 0x8 || code == 0xC,
    ;
    assert(0x80u8 >> 6 == 0b10) by (bit_vector);
}

/// The four power-down modes have four different frames: the mode can be read
/// back from bits 5:2 of the first byte.
pub proof fn lemma_power_down_modes_apart(a: PowerDownMode, b: PowerDownMode)
    requires
        a != b,
    ensures
        mode_field(narrow_power_down(a)) != mode_field(narrow_power_down(b)),
        mode_field(wide_power_down(a)) != mode_field(wide_power_down(b)),
{
    lemma_power_down_layout(a);
    lemma_power_down_layout(b);
    assert(mode_field(wide_power_down(a)) == mode_field(narrow_power_down(a)));
    assert(mode_field(wide_power_down(b)) == mode_field(narrow_power_down(b)));
}

/// What the MAX5214 reads back from a write-through frame is the value that
/// was packed, without its two upper bits.
pub proof fn lemma_narrow_round_trip(value: u16)
    ensures
        narrow_write_through(value).len() == 2,
        control_field(narrow_write_through(value)) == 0b01,
        control_field(narrow_write_through(value)) == ControlBits::WriteThrough.spec_bits() >> 6,
        narrow_value(narrow_write_through(value)) == value & 0x3fff,
{
    let head: u8 = narrow_write_through(value)[0];
    let tail: u8 = narrow_write_through(value)[1];
    assert(head == 0x40 + (value / 0x100) % 0x40);
    assert(tail == value % 0x100);
    assert(head >> 6 == 0b01 && ((head & 0x3f) as u16) << 8 | (tail as u16) == value & 0x3fff)
        by (bit_vector)
        requires
            head == 0x40 + (value / 0x100) % 0x40,
            tail == value % 0x100,
    ;
    assert(0x40u8 >> 6 == 0b01) by (bit_vector);
}

/// What the MAX5216 reads back from a write-through frame is the whole value
/// that was packed. Below the selector the frame is the value moved up by six
/// bits, so the six lowest bits of the third byte are clear.
pub proof fn lemma_wide_round_trip(value: u16)
    ensures
        wide_write_through(value).len() == 3,
        control_field(wide_write_through(value)) == 0b01,
        control_field(wide_write_through(value)) == ControlBits::WriteThrough.spec_bits() >> 6,
        wide_value(wide_write_through(value)) == value,
        wide_register(wide_write_through(value)) == (value as u32) << 6,
        wide_write_through(value)[2] & 0x3f == 0,
{
    let head: u8 = wide_write_through(value)[0];
    let middle: u8 = wide_write_through(value)[1];
    let tail: u8 = wide_write_through(value)[2];
    assert(head == 0x40 + value / 0x400);
    assert(middle == (value / 4) % 0x100);
    assert(tail == (value % 4) * 0x40);
    assert(head >> 6 == 0b01 && tail & 0x3f == 0 && ((head & 0x3f) as u16) << 10 | (middle as u16)
        << 2 | ((tail >> 6) as u16) == value && ((head & 0x3f) as u32) << 16 | (middle as u32) << 8
        | (tail as u32) == (value as u32) << 6) by (bit_vector)
        requires
            head == 0x40 + value / 0x400,
            middle == (value / 4) % 0x100,
            tail == (value % 4) * 0x40,
    ;
    assert(0x40u8 >> 6 == 0b01) by (bit_vector);
}

} // verus!
