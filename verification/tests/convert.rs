use colorspace::{Lab, Rgb, Xyz};

#[test]
fn convert_maps_each_channel_in_order() {
    let rgb: Rgb<u8> = Rgb { r: 1, g: 2, b: 3 };
    let doubled: Rgb<i64> = rgb.convert(|n: u8| (n as i64) * 2);
    assert_eq!(doubled, Rgb { r: 2, g: 4, b: 6 });
}

#[test]
fn convert_keeps_channels_apart() {
    let rgb: Rgb<i64> = Rgb { r: 7, g: -7, b: 0 };
    let shifted: Rgb<i64> = rgb.convert(|n: i64| n + 1);
    assert_eq!(shifted.r, 8);
    assert_eq!(shifted.g, -6);
    assert_eq!(shifted.b, 1);
}

#[test]
fn values_compare_structurally() {
    let a: Xyz<i64> = Xyz { x: 1, y: 2, z: 3 };
    let b: Xyz<i64> = Xyz { x: 1, y: 2, z: 3 };
    assert_eq!(a, b);
    assert_ne!(a, Xyz { x: 1, y: 2, z: 4 });

    let c: Lab<i64> = Lab { l: 9, a: 8, b: 7 };
    let d: Lab<i64> = c;
    assert_eq!(c, d);
}
