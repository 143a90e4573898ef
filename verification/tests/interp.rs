use colorspace::{Interp, Lab, Lch, Rgb, Xyz};

#[test]
fn scalar_interp_endpoints() {
    let v0: i64 = 10;
    let v1: i64 = 20;
    assert_eq!(0i64.interp(v0, v1), 10);
    assert_eq!(1i64.interp(v0, v1), 20);
}

#[test]
fn scalar_interp_extrapolates() {
    // v0 * (1 - t) + v1 * t with t = 2: 10 * (-1) + 20 * 2 == 30.
    let v0: i64 = 10;
    let v1: i64 = 20;
    assert_eq!(2i64.interp(v0, v1), 30);
    // t = -1: 10 * 2 + 20 * (-1) == 0.
    assert_eq!((-1i64).interp(v0, v1), 0);
}

#[test]
fn rgb_interp_boundary() {
    let v0: Rgb<i64> = Rgb { r: 1, g: 2, b: 3 };
    let v1: Rgb<i64> = Rgb { r: 100, g: 200, b: 300 };
    assert_eq!(0i64.interp(v0, v1), v0);
    assert_eq!(1i64.interp(v0, v1), v1);
}

#[test]
fn rgb_interp_blends_each_channel() {
    let v0: Rgb<i64> = Rgb { r: 0, g: 10, b: -4 };
    let v1: Rgb<i64> = Rgb { r: 8, g: 30, b: 0 };
    let mid: Rgb<i64> = 2i64.interp(v0, v1);
    assert_eq!(mid, Rgb { r: 16, g: 50, b: 4 });
}

#[test]
fn xyz_interp_boundary() {
    let v0: Xyz<i64> = Xyz { x: 4, y: 5, z: 6 };
    let v1: Xyz<i64> = Xyz { x: -4, y: -5, z: -6 };
    assert_eq!(0i64.interp(v0, v1), v0);
    assert_eq!(1i64.interp(v0, v1), v1);
}

#[test]
fn lab_interp_boundary() {
    let v0: Lab<i64> = Lab { l: 50, a: -20, b: 35 };
    let v1: Lab<i64> = Lab { l: 70, a: 12, b: -8 };
    assert_eq!(0i64.interp(v0, v1), v0);
    assert_eq!(1i64.interp(v0, v1), v1);
}

#[test]
fn lch_values_are_plain_records() {
    let v0: Lch<i64> = Lch { l: 50, c: 10, h: 3 };
    let v1: Lch<i64> = Lch { l: 50, c: 10, h: 3 };
    assert_eq!(v0, v1);
    assert_ne!(v0, Lch { l: 50, c: 10, h: 4 });
}

#[test]
fn lch_interp_boundary() {
    let v0: Lch<i64> = Lch { l: 10, c: 20, h: 0 };
    let v1: Lch<i64> = Lch { l: 30, c: 40, h: 350 };
    assert_eq!(0i64.interp(v0, v1), v0);
    assert_eq!(1i64.interp(v0, v1), v1);
}

#[test]
fn lch_interp_takes_the_short_arc() {
    // From hue 0 toward hue 350 the short arc goes backward through 350,
    // so extrapolating one step past the far end lands at 340 — never
    // anywhere near the half-turn mark.
    let v0: Lch<i64> = Lch { l: 0, c: 0, h: 0 };
    let v1: Lch<i64> = Lch { l: 0, c: 0, h: 350 };
    let r: Lch<i64> = 2i64.interp(v0, v1);
    assert_eq!(r.h, 340);

    // The same from the other side: 350 toward 0 crosses zero upward.
    let w: Lch<i64> = 2i64.interp(v1, v0);
    assert_eq!(w.h, 10);
}

#[test]
fn lch_interp_blends_lightness_and_chroma_by_the_scalar_rule() {
    let v0: Lch<i64> = Lch { l: 10, c: 100, h: 90 };
    let v1: Lch<i64> = Lch { l: 20, c: 50, h: 100 };
    let r: Lch<i64> = 2i64.interp(v0, v1);
    assert_eq!(r, Lch { l: 30, c: 0, h: 110 });
}
