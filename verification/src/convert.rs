//! Channel-encoding helpers for `Rgb`.

use vstd::prelude::*;

use crate::Rgb;

verus! {

impl<T> Rgb<T> {
    /// Map `f` over the three channels independently, preserving channel
    /// order: the result's `r` comes from `self.r`, and so on.
    pub fn convert<U, F: Fn(T) -> U>(self, f: F) -> (r: Rgb<U>)
        requires
            call_requires(f, (self.r,)),
            call_requires(f, (self.g,)),
            call_requires(f, (self.b,)),
        ensures
            call_ensures(f, (self.r,), r.r),
            call_ensures(f, (self.g,), r.g),
            call_ensures(f, (self.b,), r.b),
    {
        Rgb { r: f(self.r), g: f(self.g), b: f(self.b) }
    }
}

/// Fixed-point channel scale: an integer-encoded normalized channel holds
/// its value as a numerator over `SCALE`, with `SCALE` standing for full
/// intensity. `SCALE` is a multiple of 255, so every 8-bit channel value
/// has an exact fixed-point image.
pub const SCALE: i64 = 255 * 256;

/// `num / den` rounded to the nearest integer, halves rounding up — for
/// the nonnegative values the quantizer feeds it, that is away from zero.
pub open spec fn round_nearest(num: int, den: int) -> int
    recommends
        0 < den,
{
    (2 * num + den) / (2 * den)
}

/// `v` clamped into `[lo, hi]`.
pub open spec fn clamp(v: int, lo: int, hi: int) -> int {
    if v < lo {
        lo
    } else if v > hi {
        hi
    } else {
        v
    }
}

/// What quantizing a fixed-point channel returns: the channel scaled by
/// 255, rounded to the nearest integer (ties away from zero), and clamped
/// into `[0, 255]`.
pub open spec fn quantize_spec(num: int) -> int {
    clamp(round_nearest(num * 255, SCALE as int), 0, 255)
}

/// The exact fixed-point image of an 8-bit channel: `n / 255` at scale
/// `SCALE`, so that `r / SCALE == n / 255` as an exact integer identity.
pub fn channel_to_fixed(n: u8) -> (r: i64)
    ensures
        r == n as int * 256,
        r * 255 == n as int * (SCALE as int),
{
    (n as i64) * 256
}

/// Quantize a fixed-point channel to 8 bits: scale into `[0, 255]`, round
/// to nearest (ties away from zero), and clamp.
pub fn channel_to_int8(num: i64) -> (r: u8)
    ensures
        r as int == quantize_spec(num as int),
{
    if num <= 0 {
        proof {
            vstd::arithmetic::div_mod::lemma_div_is_ordered(
                2 * (num as int) * 255 + SCALE as int,
                SCALE as int,
                2 * SCALE as int,
            );
        }
        0
    } else if num >= SCALE {
        proof {
            vstd::arithmetic::div_mod::lemma_div_is_ordered(
                511 * SCALE as int,
                2 * (num as int) * 255 + SCALE as int,
                2 * SCALE as int,
            );
        }
        255
    } else {
        let q: u64 = (510 * (num as u64) + 65280) / 130560;
        proof {
            vstd::arithmetic::div_mod::lemma_div_is_ordered(
                0,
                2 * (num as int) * 255 + SCALE as int,
                2 * SCALE as int,
            );
            vstd::arithmetic::div_mod::lemma_div_is_ordered(
                2 * (num as int) * 255 + SCALE as int,
                33423359,
                2 * SCALE as int,
            );
        }
        q as u8
    }
}

/// Integer round-trip law: an 8-bit channel sent to fixed point and
/// quantized back is unchanged, for every value of `n`.
pub proof fn lemma_channel_roundtrip(n: u8)
    ensures
        quantize_spec(n as int * 256) == n as int,
{
    assert(2 * ((n as int * 256) * 255) == n as int * 130560) by (nonlinear_arith);
    assert(SCALE as int == 65280);
    vstd::arithmetic::div_mod::lemma_fundamental_div_mod_converse(
        n as int * 130560 + 65280,
        130560,
        n as int,
        65280,
    );
}

impl Rgb<u8> {
    /// The exact fixed-point image of `self`: each channel `n` becomes
    /// `n / 255` at scale `SCALE`.
    pub fn to_fixed(self) -> (r: Rgb<i64>)
        ensures
            r.r == self.r as int * 256,
            r.g == self.g as int * 256,
            r.b == self.b as int * 256,
    {
        Rgb {
            r: channel_to_fixed(self.r),
            g: channel_to_fixed(self.g),
            b: channel_to_fixed(self.b),
        }
    }
}

impl Rgb<i64> {
    /// Quantize each fixed-point channel to 8 bits independently, per
    /// `quantize_spec`.
    pub fn to_int8(self) -> (r: Rgb<u8>)
        ensures
            r.r as int == quantize_spec(self.r as int),
            r.g as int == quantize_spec(self.g as int),
            r.b as int == quantize_spec(self.b as int),
    {
        Rgb {
            r: channel_to_int8(self.r),
            g: channel_to_int8(self.g),
            b: channel_to_int8(self.b),
        }
    }
}

} // verus!
