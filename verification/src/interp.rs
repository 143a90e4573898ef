//! Generic channel-wise interpolation.
//!
//! A blend parameter (the `self` of [`Interp::interp`]) combines two values
//! of the same color-space type into one. Each three-channel value type
//! blends by straightforward per-field delegation to the scalar blend of its
//! channel type, so one operation works uniformly across the record shapes;
//! only the cylindrical `Lch` gives its hue channel bespoke treatment, taking
//! the shorter arc around the hue circle instead of the plain scalar rule.

use vstd::prelude::*;

use crate::{Lab, Lch, Rgb, Xyz};

verus! {

/// The scalar blending rule: `v0 * (1 - t) + v1 * t`, over the integers.
/// No clamping of `t` is performed, so `t` outside `[0, 1]` extrapolates.
pub open spec fn lerp(t: int, v0: int, v1: int) -> int {
    v0 * (1 - t) + v1 * t
}

/// Blending capability: a blend parameter of type `Self` combines two
/// values of type `T` into a new value of type `T`.
pub trait Interp<T> {
    /// The domain on which blending is defined (for machine integers: the
    /// inputs on which the blending arithmetic stays in range).
    spec fn interp_req(self, v0: T, v1: T) -> bool;

    /// The value that blending returns.
    spec fn interp_spec(self, v0: T, v1: T) -> T;

    /// Blend `v0` and `v1` by the parameter `self`.
    fn interp(self, v0: T, v1: T) -> (r: T)
        requires
            self.interp_req(v0, v1),
        ensures
            r == self.interp_spec(v0, v1),
    ;
}

impl Interp<i64> for i64 {
    /// Every intermediate of the scalar rule fits in `i64`.
    open spec fn interp_req(self, v0: i64, v1: i64) -> bool {
        &&& i64::MIN <= 1 - self <= i64::MAX
        &&& i64::MIN <= v0 * (1 - self) <= i64::MAX
        &&& i64::MIN <= v1 * self <= i64::MAX
        &&& i64::MIN <= lerp(self as int, v0 as int, v1 as int) <= i64::MAX
    }

    open spec fn interp_spec(self, v0: i64, v1: i64) -> i64 {
        lerp(self as int, v0 as int, v1 as int) as i64
    }

    fn interp(self, v0: i64, v1: i64) -> (r: i64) {
        let u: i64 = 1 - self;
        v0 * u + v1 * self
    }
}

impl<T, X: Copy + Interp<T>> Interp<Rgb<T>> for X {
    open spec fn interp_req(self, v0: Rgb<T>, v1: Rgb<T>) -> bool {
        &&& self.interp_req(v0.r, v1.r)
        &&& self.interp_req(v0.g, v1.g)
        &&& self.interp_req(v0.b, v1.b)
    }

    open spec fn interp_spec(self, v0: Rgb<T>, v1: Rgb<T>) -> Rgb<T> {
        Rgb {
            r: self.interp_spec(v0.r, v1.r),
            g: self.interp_spec(v0.g, v1.g),
            b: self.interp_spec(v0.b, v1.b),
        }
    }

    fn interp(self, v0: Rgb<T>, v1: Rgb<T>) -> (r: Rgb<T>) {
        Rgb {
            r: self.interp(v0.r, v1.r),
            g: self.interp(v0.g, v1.g),
            b: self.interp(v0.b, v1.b),
        }
    }
}

impl<T, X: Copy + Interp<T>> Interp<Xyz<T>> for X {
    open spec fn interp_req(self, v0: Xyz<T>, v1: Xyz<T>) -> bool {
        &&& self.interp_req(v0.x, v1.x)
        &&& self.interp_req(v0.y, v1.y)
        &&& self.interp_req(v0.z, v1.z)
    }

    open spec fn interp_spec(self, v0: Xyz<T>, v1: Xyz<T>) -> Xyz<T> {
        Xyz {
            x: self.interp_spec(v0.x, v1.x),
            y: self.interp_spec(v0.y, v1.y),
            z: self.interp_spec(v0.z, v1.z),
        }
    }

    fn interp(self, v0: Xyz<T>, v1: Xyz<T>) -> (r: Xyz<T>) {
        Xyz {
            x: self.interp(v0.x, v1.x),
            y: self.interp(v0.y, v1.y),
            z: self.interp(v0.z, v1.z),
        }
    }
}

impl<T, X: Copy + Interp<T>> Interp<Lab<T>> for X {
    open spec fn interp_req(self, v0: Lab<T>, v1: Lab<T>) -> bool {
        &&& self.interp_req(v0.l, v1.l)
        &&& self.interp_req(v0.a, v1.a)
        &&& self.interp_req(v0.b, v1.b)
    }

    open spec fn interp_spec(self, v0: Lab<T>, v1: Lab<T>) -> Lab<T> {
        Lab {
            l: self.interp_spec(v0.l, v1.l),
            a: self.interp_spec(v0.a, v1.a),
            b: self.interp_spec(v0.b, v1.b),
        }
    }

    fn interp(self, v0: Lab<T>, v1: Lab<T>) -> (r: Lab<T>) {
        Lab {
            l: self.interp(v0.l, v1.l),
            a: self.interp(v0.a, v1.a),
            b: self.interp(v0.b, v1.b),
        }
    }
}

/// Scalar boundary law: blending by `0` is always defined and returns the
/// first operand exactly; blending by `1` returns the second exactly.
pub proof fn lemma_scalar_interp_boundary(v0: i64, v1: i64)
    ensures
        (0i64).interp_req(v0, v1),
        (0i64).interp_spec(v0, v1) == v0,
        (1i64).interp_req(v0, v1),
        (1i64).interp_spec(v0, v1) == v1,
{
    vstd::arithmetic::mul::lemma_mul_basics(v0 as int);
    vstd::arithmetic::mul::lemma_mul_basics(v1 as int);
}

/// Delegation law for `Rgb`: a blend parameter that returns the first
/// operand on every pair of channels returns the first value on whole
/// records, whatever the channel type.
pub proof fn lemma_rgb_interp_first<T, X: Copy + Interp<T>>(t: X, v0: Rgb<T>, v1: Rgb<T>)
    requires
        forall|a: T, b: T| #[trigger] t.interp_spec(a, b) == a,
    ensures
        <X as Interp<Rgb<T>>>::interp_spec(t, v0, v1) == v0,
{
    assert(t.interp_spec(v0.r, v1.r) == v0.r);
}

/// Delegation law for `Rgb`: a blend parameter that returns the second
/// operand on every pair of channels returns the second value on whole
/// records, whatever the channel type.
pub proof fn lemma_rgb_interp_second<T, X: Copy + Interp<T>>(t: X, v0: Rgb<T>, v1: Rgb<T>)
    requires
        forall|a: T, b: T| #[trigger] t.interp_spec(a, b) == b,
    ensures
        <X as Interp<Rgb<T>>>::interp_spec(t, v0, v1) == v1,
{
    assert(t.interp_spec(v0.r, v1.r) == v1.r);
}

/// Boundary law for `Rgb`: blending two integer-encoded values by `0`
/// returns the first value exactly, and by `1` the second, channel by
/// channel.
pub proof fn lemma_rgb_interp_boundary(v0: Rgb<i64>, v1: Rgb<i64>)
    ensures
        (0i64).interp_req(v0, v1),
        (0i64).interp_spec(v0, v1) == v0,
        (1i64).interp_req(v0, v1),
        (1i64).interp_spec(v0, v1) == v1,
{
    lemma_scalar_interp_boundary(v0.r, v1.r);
    lemma_scalar_interp_boundary(v0.g, v1.g);
    lemma_scalar_interp_boundary(v0.b, v1.b);
}

/// Delegation law for `Xyz`: a blend parameter that returns the first
/// operand on every pair of channels returns the first value on whole
/// records, whatever the channel type.
pub proof fn lemma_xyz_interp_first<T, X: Copy + Interp<T>>(t: X, v0: Xyz<T>, v1: Xyz<T>)
    requires
        forall|a: T, b: T| #[trigger] t.interp_spec(a, b) == a,
    ensures
        <X as Interp<Xyz<T>>>::interp_spec(t, v0, v1) == v0,
{
    assert(t.interp_spec(v0.x, v1.x) == v0.x);
}

/// Delegation law for `Xyz`: a blend parameter that returns the second
/// operand on every pair of channels returns the second value on whole
/// records, whatever the channel type.
pub proof fn lemma_xyz_interp_second<T, X: Copy + Interp<T>>(t: X, v0: Xyz<T>, v1: Xyz<T>)
    requires
        forall|a: T, b: T| #[trigger] t.interp_spec(a, b) == b,
    ensures
        <X as Interp<Xyz<T>>>::interp_spec(t, v0, v1) == v1,
{
    assert(t.interp_spec(v0.x, v1.x) == v1.x);
}

/// Boundary law for `Xyz`: blending two integer-encoded values by `0`
/// returns the first value exactly, and by `1` the second, channel by
/// channel.
pub proof fn lemma_xyz_interp_boundary(v0: Xyz<i64>, v1: Xyz<i64>)
    ensures
        (0i64).interp_req(v0, v1),
        (0i64).interp_spec(v0, v1) == v0,
        (1i64).interp_req(v0, v1),
        (1i64).interp_spec(v0, v1) == v1,
{
    lemma_scalar_interp_boundary(v0.x, v1.x);
    lemma_scalar_interp_boundary(v0.y, v1.y);
    lemma_scalar_interp_boundary(v0.z, v1.z);
}

/// Delegation law for `Lab`: a blend parameter that returns the first
/// operand on every pair of channels returns the first value on whole
/// records, whatever the channel type.
pub proof fn lemma_lab_interp_first<T, X: Copy + Interp<T>>(t: X, v0: Lab<T>, v1: Lab<T>)
    requires
        forall|a: T, b: T| #[trigger] t.interp_spec(a, b) == a,
    ensures
        <X as Interp<Lab<T>>>::interp_spec(t, v0, v1) == v0,
{
    assert(t.interp_spec(v0.l, v1.l) == v0.l);
}

/// Delegation law for `Lab`: a blend parameter that returns the second
/// operand on every pair of channels returns the second value on whole
/// records, whatever the channel type.
pub proof fn lemma_lab_interp_second<T, X: Copy + Interp<T>>(t: X, v0: Lab<T>, v1: Lab<T>)
    requires
        forall|a: T, b: T| #[trigger] t.interp_spec(a, b) == b,
    ensures
        <X as Interp<Lab<T>>>::interp_spec(t, v0, v1) == v1,
{
    assert(t.interp_spec(v0.l, v1.l) == v1.l);
}

/// Boundary law for `Lab`: blending two integer-encoded values by `0`
/// returns the first value exactly, and by `1` the second, channel by
/// channel.
pub proof fn lemma_lab_interp_boundary(v0: Lab<i64>, v1: Lab<i64>)
    ensures
        (0i64).interp_req(v0, v1),
        (0i64).interp_spec(v0, v1) == v0,
        (1i64).interp_req(v0, v1),
        (1i64).interp_spec(v0, v1) == v1,
{
    lemma_scalar_interp_boundary(v0.l, v1.l);
    lemma_scalar_interp_boundary(v0.a, v1.a);
    lemma_scalar_interp_boundary(v0.b, v1.b);
}

/// A full turn in the integer angle encoding: the hue channel of an
/// integer-encoded `Lch` value counts 360ths of a turn and lies in
/// `[0, FULL_TURN)`.
pub const FULL_TURN: i64 = 360;

/// Half a turn in the integer angle encoding.
pub const HALF_TURN: i64 = 180;

/// The conditional shift that precedes hue blending: whichever of the two
/// angles lies a half turn or more above the other is moved down a full
/// turn, so that the blend travels the shorter arc around the hue circle.
pub open spec fn hue_shift(h0: int, h1: int) -> (int, int) {
    if h1 - h0 >= HALF_TURN as int {
        (h0, h1 - FULL_TURN as int)
    } else if h0 - h1 >= HALF_TURN as int {
        (h0 - FULL_TURN as int, h1)
    } else {
        (h0, h1)
    }
}

/// The blended hue: the scalar rule on the shifted angles, renormalized
/// into `[0, FULL_TURN)` by adding a full turn if the blend is negative.
pub open spec fn hue_lerp(t: int, h0: int, h1: int) -> int {
    let s = hue_shift(h0, h1);
    if lerp(t, s.0, s.1) < 0 {
        lerp(t, s.0, s.1) + FULL_TURN as int
    } else {
        lerp(t, s.0, s.1)
    }
}

impl Interp<Lch<i64>> for i64 {
    /// Lightness and chroma blend by the scalar rule; both hues lie in
    /// `[0, FULL_TURN)` and the blend of the shifted hues stays in range.
    open spec fn interp_req(self, v0: Lch<i64>, v1: Lch<i64>) -> bool {
        &&& self.interp_req(v0.l, v1.l)
        &&& self.interp_req(v0.c, v1.c)
        &&& 0 <= v0.h < FULL_TURN
        &&& 0 <= v1.h < FULL_TURN
        &&& self.interp_req(
            hue_shift(v0.h as int, v1.h as int).0 as i64,
            hue_shift(v0.h as int, v1.h as int).1 as i64,
        )
    }

    open spec fn interp_spec(self, v0: Lch<i64>, v1: Lch<i64>) -> Lch<i64> {
        Lch {
            l: self.interp_spec(v0.l, v1.l),
            c: self.interp_spec(v0.c, v1.c),
            h: hue_lerp(self as int, v0.h as int, v1.h as int) as i64,
        }
    }

    fn interp(self, v0: Lch<i64>, v1: Lch<i64>) -> (r: Lch<i64>) {
        let l: i64 = self.interp(v0.l, v1.l);
        let c: i64 = self.interp(v0.c, v1.c);
        let mut h0: i64 = v0.h;
        let mut h1: i64 = v1.h;
        if h1 - h0 >= HALF_TURN {
            h1 = h1 - FULL_TURN;
        } else if h0 - h1 >= HALF_TURN {
            h0 = h0 - FULL_TURN;
        }
        assert((h0 as int, h1 as int) == hue_shift(v0.h as int, v1.h as int));
        let mut h: i64 = self.interp(h0, h1);
        if h < 0 {
            h = h + FULL_TURN;
        }
        Lch { l, c, h }
    }
}

/// Boundary law for `Lch`: with both hues in range, blending two
/// integer-encoded values by `0` is defined and returns the first value
/// exactly, and by `1` the second.
pub proof fn lemma_lch_interp_boundary(v0: Lch<i64>, v1: Lch<i64>)
    requires
        0 <= v0.h < FULL_TURN,
        0 <= v1.h < FULL_TURN,
    ensures
        (0i64).interp_req(v0, v1),
        (0i64).interp_spec(v0, v1) == v0,
        (1i64).interp_req(v0, v1),
        (1i64).interp_spec(v0, v1) == v1,
{
    lemma_scalar_interp_boundary(v0.l, v1.l);
    lemma_scalar_interp_boundary(v0.c, v1.c);
    let s = hue_shift(v0.h as int, v1.h as int);
    lemma_scalar_interp_boundary(s.0 as i64, s.1 as i64);
}

/// The shortest-arc rule: with both angles in `[0, FULL_TURN)`, the
/// conditional shift leaves them at most half a turn apart, and moves an
/// angle, if at all, by exactly one full turn down — so each shifted angle
/// stays congruent to its input modulo a full turn.
pub proof fn lemma_hue_shift_shortest(h0: int, h1: int)
    requires
        0 <= h0 < FULL_TURN,
        0 <= h1 < FULL_TURN,
    ensures
        -(HALF_TURN as int) <= hue_shift(h0, h1).1 - hue_shift(h0, h1).0 <= HALF_TURN as int,
        hue_shift(h0, h1).0 == h0 || hue_shift(h0, h1).0 == h0 - FULL_TURN,
        hue_shift(h0, h1).1 == h1 || hue_shift(h0, h1).1 == h1 - FULL_TURN,
{
}

/// Hue renormalization: for a blend parameter in `[0, 1]` — the endpoints,
/// in the integer encoding — the blended hue lies in `[0, FULL_TURN)`.
pub proof fn lemma_hue_lerp_in_range(t: int, h0: int, h1: int)
    requires
        0 <= t <= 1,
        0 <= h0 < FULL_TURN,
        0 <= h1 < FULL_TURN,
    ensures
        0 <= hue_lerp(t, h0, h1) < FULL_TURN,
{
    let s = hue_shift(h0, h1);
    vstd::arithmetic::mul::lemma_mul_basics(s.0);
    vstd::arithmetic::mul::lemma_mul_basics(s.1);
}

} // verus!
