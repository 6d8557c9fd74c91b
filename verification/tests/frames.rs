use max521x::frame::{
    encode_narrow_power_down, encode_narrow_write_through, encode_wide_power_down,
    encode_wide_write_through,
};
use max521x::{ControlBits, PowerDownMode};

fn all_modes() -> [PowerDownMode; 4] {
    [
        PowerDownMode::Normal,
        PowerDownMode::HighImpedance,
        PowerDownMode::Gnd100KOhm,
        PowerDownMode::Gnd1KOhm,
    ]
}

#[test]
fn control_bits_sit_in_the_top_two_bits() {
    assert_eq!(ControlBits::PowerDown.bits(), 0b1000_0000);
    assert_eq!(ControlBits::WriteThrough.bits(), 0b0100_0000);
}

#[test]
fn power_down_codes() {
    assert_eq!(PowerDownMode::Normal.code(), 0b0000);
    assert_eq!(PowerDownMode::HighImpedance.code(), 0b0100);
    assert_eq!(PowerDownMode::Gnd100KOhm.code(), 0b1000);
    assert_eq!(PowerDownMode::Gnd1KOhm.code(), 0b1100);
}

#[test]
fn narrow_power_down_frames() {
    assert_eq!(encode_narrow_power_down(PowerDownMode::Normal), [0x80, 0x00]);
    assert_eq!(encode_narrow_power_down(PowerDownMode::HighImpedance), [0x84, 0x00]);
    assert_eq!(encode_narrow_power_down(PowerDownMode::Gnd100KOhm), [0x88, 0x00]);
    assert_eq!(encode_narrow_power_down(PowerDownMode::Gnd1KOhm), [0x8C, 0x00]);
}

#[test]
fn wide_power_down_frames() {
    assert_eq!(encode_wide_power_down(PowerDownMode::Normal), [0x80, 0x00, 0x00]);
    assert_eq!(encode_wide_power_down(PowerDownMode::HighImpedance), [0x84, 0x00, 0x00]);
    assert_eq!(encode_wide_power_down(PowerDownMode::Gnd100KOhm), [0x88, 0x00, 0x00]);
    assert_eq!(encode_wide_power_down(PowerDownMode::Gnd1KOhm), [0x8C, 0x00, 0x00]);
}

#[test]
fn power_down_layout_holds_for_every_mode() {
    for mode in all_modes() {
        let narrow = encode_narrow_power_down(mode);
        let wide = encode_wide_power_down(mode);
        assert_eq!(narrow[0] >> 6, 0b10);
        assert_eq!(wide[0] >> 6, 0b10);
        assert_eq!(narrow[0] & 0x3C, mode.code());
        assert_eq!(wide[0] & 0x3C, mode.code());
        assert_eq!(narrow[0] & 0x03, 0);
        assert_eq!(wide[0] & 0x03, 0);
        assert_eq!(narrow[1], 0);
        assert_eq!(wide[1], 0);
        assert_eq!(wide[2], 0);
    }
}

#[test]
fn power_down_modes_have_different_frames() {
    let modes = all_modes();
    for a in 0..4 {
        for b in 0..4 {
            if a != b {
                assert_ne!(
                    encode_narrow_power_down(modes[a]),
                    encode_narrow_power_down(modes[b])
                );
                assert_ne!(encode_wide_power_down(modes[a]), encode_wide_power_down(modes[b]));
            }
        }
    }
}

#[test]
fn narrow_write_through_frames() {
    assert_eq!(encode_narrow_write_through(0x0000), [0x40, 0x00]);
    assert_eq!(encode_narrow_write_through(0x0001), [0x40, 0x01]);
    assert_eq!(encode_narrow_write_through(0x03FF), [0x43, 0xFF]);
    assert_eq!(encode_narrow_write_through(0x1234), [0x52, 0x34]);
    assert_eq!(encode_narrow_write_through(0x3FFF), [0x7F, 0xFF]);
}

#[test]
fn narrow_write_through_drops_the_two_upper_bits() {
    assert_eq!(encode_narrow_write_through(0x4000), [0x40, 0x00]);
    assert_eq!(encode_narrow_write_through(0x8000), [0x40, 0x00]);
    assert_eq!(encode_narrow_write_through(0xC3FF), [0x43, 0xFF]);
    assert_eq!(encode_narrow_write_through(0xFFFF), [0x7F, 0xFF]);
}

#[test]
fn wide_write_through_frames() {
    assert_eq!(encode_wide_write_through(0x0000), [0x40, 0x00, 0x00]);
    assert_eq!(encode_wide_write_through(0x0001), [0x40, 0x00, 0x40]);
    assert_eq!(encode_wide_write_through(0x0003), [0x40, 0x00, 0xC0]);
    assert_eq!(encode_wide_write_through(0x0004), [0x40, 0x01, 0x00]);
    assert_eq!(encode_wide_write_through(0x03FF), [0x40, 0xFF, 0xC0]);
    assert_eq!(encode_wide_write_through(0x0400), [0x41, 0x00, 0x00]);
    assert_eq!(encode_wide_write_through(0x1234), [0x44, 0x8D, 0x00]);
    assert_eq!(encode_wide_write_through(0xFFFF), [0x7F, 0xFF, 0xC0]);
}

#[test]
fn narrow_round_trip_for_every_value() {
    for value in 0..=u16::MAX {
        let frame = encode_narrow_write_through(value);
        assert_eq!(frame[0] >> 6, 0b01);
        let back = (((frame[0] & 0x3F) as u16) << 8) | frame[1] as u16;
        assert_eq!(back, value & 0x3FFF);
    }
}

#[test]
fn wide_round_trip_for_every_value() {
    for value in 0..=u16::MAX {
        let frame = encode_wide_write_through(value);
        assert_eq!(frame[0] >> 6, 0b01);
        assert_eq!(frame[2] & 0x3F, 0);
        let back = (((frame[0] & 0x3F) as u16) << 10)
            | ((frame[1] as u16) << 2)
            | (frame[2] >> 6) as u16;
        assert_eq!(back, value);
        let register =
            (((frame[0] & 0x3F) as u32) << 16) | ((frame[1] as u32) << 8) | frame[2] as u32;
        assert_eq!(register, (value as u32) << 6);
    }
}
