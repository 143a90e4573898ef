use colorspace::convert::{channel_to_fixed, channel_to_int8};
use colorspace::Rgb;

#[test]
fn channel_roundtrip_all_values() {
    for n in 0u16..=255 {
        let f: i64 = channel_to_fixed(n as u8);
        assert_eq!(channel_to_int8(f), n as u8);
    }
}

#[test]
fn rgb_roundtrip_through_fixed_point() {
    for n in 0u16..=255 {
        let v: Rgb<u8> = Rgb { r: n as u8, g: n as u8, b: n as u8 };
        assert_eq!(v.to_fixed().to_int8(), v);
    }
}

#[test]
fn fixed_image_is_exact() {
    // n / 255 at scale 255 * 256 is n * 256 exactly.
    let v: Rgb<u8> = Rgb { r: 255, g: 0, b: 128 };
    let f: Rgb<i64> = v.to_fixed();
    assert_eq!(f, Rgb { r: 65280, g: 0, b: 32768 });
}

#[test]
fn quantize_rounds_ties_away_from_zero() {
    // 128 / (255 * 256) scaled by 255 is exactly one half.
    assert_eq!(channel_to_int8(128), 1);
    // Just below the tie rounds down.
    assert_eq!(channel_to_int8(127), 0);
}

#[test]
fn quantize_clamps_out_of_range_channels() {
    assert_eq!(channel_to_int8(-77), 0);
    assert_eq!(channel_to_int8(70000), 255);
    let v: Rgb<i64> = Rgb { r: -1, g: 999999, b: 32768 };
    assert_eq!(v.to_int8(), Rgb { r: 0, g: 255, b: 128 });
}
