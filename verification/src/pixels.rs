//! Lengths in whole pixels.
//!
//! A desktop reports its scale factor as a binary floating-point number of
//! double precision, and lengths are multiplied by it in that precision before
//! they are rounded to pixels. Here the same numbers are held as integers: a
//! scale factor as its 64 bits, a rounded product as a mantissa of 53 bits and
//! a power of two.

use vstd::arithmetic::power2::*;
use vstd::prelude::*;

verus! {

/// `n / d` rounded to the nearest integer, a tie to the even one.
pub open spec fn half_even(n: nat, d: nat) -> nat {
    let quotient = n / d;
    let rest = n % d;
    if 2 * rest < d || (2 * rest == d && quotient % 2 == 0) {
        quotient
    } else {
        quotient + 1
    }
}

/// `n / d` rounded to the nearest integer, a tie away from zero.
pub open spec fn half_up(n: nat, d: nat) -> nat {
    (2 * n + d) / (2 * d)
}

/// Two to the power of 52: the least mantissa of 53 bits.
pub const LEAST_MANTISSA: u64 = 0x10_0000_0000_0000;

/// Two to the power of 53: the first number that needs more than 53 bits.
pub const MANTISSA_END: u64 = 0x20_0000_0000_0000;

/// How often `n` is doubled until `n / d` has 53 bits before the binary point.
pub open spec fn doublings(n: nat, d: nat) -> nat
    decreases (if n < d * LEAST_MANTISSA { d * LEAST_MANTISSA - n } else { 0 }),
{
    if n == 0 || n >= d * LEAST_MANTISSA {
        0
    } else {
        1 + doublings(2 * n, d)
    }
}

/// How many low bits of `n` do not fit in a mantissa of 53 bits.
pub open spec fn excess_bits(n: nat) -> nat
    decreases n,
{
    if n < MANTISSA_END {
        0
    } else {
        1 + excess_bits(n / 2)
    }
}

/// A natural number in double precision: a mantissa of at most 53 bits, to be
/// multiplied by two to the power of [`excess_bits`].
pub open spec fn mantissa(n: nat) -> nat {
    half_even(n, pow2(excess_bits(n)))
}

/// The 64 bits of a natural number below two to the power of 64 in double
/// precision: its exponent field above the 52 lower bits of its mantissa.
pub open spec fn double_bits(n: nat) -> nat {
    if n == 0 {
        0
    } else {
        ((1075 + excess_bits(n) - doublings(n, 1)) * LEAST_MANTISSA + mantissa(n) * pow2(
            doublings(n, 1),
        ) - LEAST_MANTISSA) as nat
    }
}

/// `n / d` rounded to the nearest integer, a tie to the even one.
fn half_even_quotient(n: u64, d: u64) -> (r: u64)
    requires
        0 < d <= 0x7fff_ffff_ffff_ffff,
        d > 1 || n < u64::MAX,
    ensures
        r == half_even(n as nat, d as nat),
{
    let quotient: u64 = n / d;
    let rest: u64 = n % d;
    assert(d > 1 ==> quotient < u64::MAX) by (nonlinear_arith)
        requires
            d > 0,
            quotient == n / d,
            n <= u64::MAX,
    ;
    if 2 * rest < d || (2 * rest == d && quotient % 2 == 0) {
        quotient
    } else {
        quotient + 1
    }
}

/// The bounds that make [`excess_bits`] the right number of bits to drop.
proof fn lemma_excess_bits(n: nat)
    ensures
        n < MANTISSA_END * pow2(excess_bits(n)),
        excess_bits(n) > 0 ==> n >= LEAST_MANTISSA * pow2(excess_bits(n)),
    decreases n,
{
    if n < MANTISSA_END {
        lemma2_to64();
    } else {
        let half = n / 2;
        lemma_excess_bits(half);
        lemma_pow2_unfold(excess_bits(n));
        lemma2_to64();
        let power = pow2(excess_bits(half));
        assert(pow2(excess_bits(n)) == 2 * power);
        assert(n < MANTISSA_END * (2 * power)) by (nonlinear_arith)
            requires
                n / 2 < MANTISSA_END * power,
        ;
        if excess_bits(half) > 0 {
            assert(n >= LEAST_MANTISSA * (2 * power)) by (nonlinear_arith)
                requires
                    n / 2 >= LEAST_MANTISSA * power,
            ;
        }
    }
}

/// A rounded quotient is off by at most half the divisor.
proof fn lemma_half_even(n: nat, d: nat)
    requires
        d > 0,
    ensures
        2 * (half_even(n, d) * d - n) <= d,
        2 * (n - half_even(n, d) * d) <= d,
{
    let quotient = n / d;
    let rest = n % d;
    assert(n == quotient * d + rest && rest < d) by (nonlinear_arith)
        requires
            d > 0,
            quotient == n / d,
            rest == n % d,
    ;
    assert((quotient + 1) * d == quotient * d + d) by (nonlinear_arith);
}

/// A mantissa has 53 bits, or is the power of two just above; it has fewer only
/// where no bit was dropped.
proof fn lemma_mantissa(n: nat)
    ensures
        mantissa(n) <= MANTISSA_END,
        excess_bits(n) == 0 ==> mantissa(n) == n,
        excess_bits(n) > 0 ==> mantissa(n) >= LEAST_MANTISSA,
{
    lemma_excess_bits(n);
    let power = pow2(excess_bits(n));
    lemma_pow2_pos(excess_bits(n));
    assert(n / power < MANTISSA_END) by (nonlinear_arith)
        requires
            power > 0,
            n < MANTISSA_END * power,
    ;
    if excess_bits(n) == 0 {
        lemma2_to64();
        assert(power == 1);
        assert(n / 1 == n && n % 1 == 0);
    } else {
        assert(n / power >= LEAST_MANTISSA) by (nonlinear_arith)
            requires
                power > 0,
                n >= LEAST_MANTISSA * power,
        ;
    }
}

/// A natural number in double precision, as its mantissa and the number of
/// bits that were dropped.
fn rounded(n: u64) -> (r: (u64, u32))
    ensures
        r.0 == mantissa(n as nat),
        r.1 == excess_bits(n as nat),
        r.0 <= MANTISSA_END,
        r.1 <= 11,
{
    let mut top: u64 = n;
    let mut dropped: u32 = 0;
    let mut power: u64 = 1;
    proof {
        lemma2_to64();
    }
    while top >= MANTISSA_END
        invariant
            excess_bits(n as nat) == dropped + excess_bits(top as nat),
            power == pow2(dropped as nat),
            top * power <= n,
            dropped <= 11,
            power <= 2048,
            power >= 1,
            dropped == 11 ==> power == 2048,
        decreases top,
    {
        assert(power < 2048) by (nonlinear_arith)
            requires
                top >= MANTISSA_END,
                top * power <= n,
                n <= u64::MAX,
        ;
        proof {
            lemma_pow2_unfold((dropped + 1) as nat);
            lemma2_to64();
            if dropped > 10 {
                assert(false);
            }
        }
        assert((top / 2) * (power * 2) <= n) by (nonlinear_arith)
            requires
                top * power <= n,
        ;
        top = top / 2;
        power = power * 2;
        dropped = dropped + 1;
        assert(power <= 2048) by {
            lemma2_to64();
            if dropped <= 10 {
                if dropped < 10 {
                    lemma_pow2_strictly_increases(dropped as nat, 10);
                }
            }
        }
    }
    proof {
        lemma_mantissa(n as nat);
        assert(n <= 0x7fff_ffff_ffff_ffff || power > 1);
    }
    (half_even_quotient(n, power), dropped)
}

/// Two to the power of `n`.
fn power_of_two(n: u32) -> (power: u64)
    requires
        n <= 63,
    ensures
        power == pow2(n as nat),
{
    let mut power: u64 = 1;
    let mut i: u32 = 0;
    proof {
        lemma2_to64();
    }
    while i < n
        invariant
            i <= n <= 63,
            power == pow2(i as nat),
        decreases n - i,
    {
        proof {
            lemma_pow2_unfold((i + 1) as nat);
            lemma2_to64();
            lemma2_to64_rest();
            if i < 62 {
                lemma_pow2_strictly_increases(i as nat, 62);
            }
        }
        power = power * 2;
        i = i + 1;
    }
    power
}

/// The scale factor of a monitor: the 64 bits of a number in double precision.
#[derive(Debug, Clone, Copy, PartialEq, Eq, Structural)]
pub struct ScaleFactor {
    /// One sign bit, eleven bits of exponent, 52 bits of fraction.
    pub bits: u64,
}

impl ScaleFactor {
    /// Whether the sign bit is set.
    pub open spec fn is_negative(self) -> bool {
        self.bits >= 0x8000_0000_0000_0000
    }

    /// The exponent field.
    pub open spec fn field(self) -> nat {
        ((self.bits / LEAST_MANTISSA) % 2048) as nat
    }

    /// The fraction field.
    pub open spec fn fraction(self) -> nat {
        (self.bits % LEAST_MANTISSA) as nat
    }

    /// Whether the bits stand for no number.
    pub open spec fn is_nan(self) -> bool {
        self.field() == 2047 && self.fraction() > 0
    }

    /// Whether the bits stand for an infinite value.
    pub open spec fn is_infinite(self) -> bool {
        self.field() == 2047 && self.fraction() == 0
    }

    /// The significand: the value's size is this times two to the power of
    /// [`Self::exponent`].
    pub open spec fn significand(self) -> nat {
        if self.field() == 0 {
            self.fraction()
        } else {
            LEAST_MANTISSA as nat + self.fraction()
        }
    }

    /// The exponent that goes with the significand.
    pub open spec fn exponent(self) -> int {
        if self.field() == 0 {
            -1074
        } else {
            self.field() - 1075
        }
    }
}

/// The size in pixels of `logical` units at a size of `significand` times two
/// to the power of `exponent`: the product in double precision, halved
/// `halvings` times, rounded to the nearest integer, a tie away from zero.
pub open spec fn product_size(logical: nat, significand: nat, exponent: int, halvings: nat) -> nat {
    let product = logical * significand;
    let power = exponent + excess_bits(product) - halvings;
    if power >= 0 {
        mantissa(product) * pow2(power as nat)
    } else {
        half_up(mantissa(product), pow2((-power) as nat))
    }
}

/// The size in pixels of `logical` units on a monitor; larger than any
/// coordinate where the scale factor is infinite.
pub open spec fn pixel_size(logical: nat, scale: ScaleFactor, halvings: nat) -> nat {
    if scale.is_infinite() {
        pow2(64)
    } else {
        product_size(logical, scale.significand(), scale.exponent(), halvings)
    }
}

/// `n`, or `limit` where that is smaller.
pub open spec fn at_most(n: nat, limit: nat) -> nat {
    if n < limit {
        n
    } else {
        limit
    }
}

/// `logical` units in pixels as a signed number of 32 bits: zero where the
/// scale factor is no number, the nearest bound where the size does not fit.
pub open spec fn signed_pixels(logical: nat, scale: ScaleFactor, halvings: nat) -> int {
    if scale.is_nan() {
        0
    } else if scale.is_negative() {
        -(at_most(pixel_size(logical, scale, halvings), 0x8000_0000) as int)
    } else {
        at_most(pixel_size(logical, scale, halvings), 0x7fff_ffff) as int
    }
}

/// `logical` units in pixels as an unsigned number of 32 bits: zero where the
/// scale factor is no number or negative, the largest number where the size
/// does not fit.
pub open spec fn unsigned_pixels(logical: nat, scale: ScaleFactor) -> nat {
    if scale.is_nan() || scale.is_negative() {
        0
    } else {
        at_most(pixel_size(logical, scale, 0), 0xffff_ffff)
    }
}

/// A mantissa far below one half rounds to zero.
proof fn lemma_tiny(m: nat, places: nat)
    requires
        m <= MANTISSA_END,
        places >= 55,
    ensures
        half_up(m, pow2(places)) == 0,
{
    lemma2_to64();
    lemma2_to64_rest();
    if places > 55 {
        lemma_pow2_strictly_increases(55, places);
    }
    let power = pow2(places);
    assert(2 * m + power < 2 * power);
    assert((2 * m + power) / (2 * power) == 0) by (nonlinear_arith)
        requires
            2 * m + power < 2 * power,
    ;
}

impl ScaleFactor {
    /// The size in pixels of `logical` units, as far as it fits in 33 bits.
    fn size(self, logical: u32, halvings: u32) -> (size: u64)
        requires
            0 < logical <= 1023,
            halvings <= 1,
        ensures
            size == at_most(pixel_size(logical as nat, self, halvings as nat), 0x1_0000_0000),
    {
        let field: u64 = (self.bits / LEAST_MANTISSA) % 2048;
        let fraction: u64 = self.bits % LEAST_MANTISSA;
        if field == 2047 && fraction == 0 {
            proof {
                lemma2_to64();
            }
            return 0x1_0000_0000;
        }
        let significand: u64 = if field == 0 {
            fraction
        } else {
            LEAST_MANTISSA + fraction
        };
        let exponent: i64 = if field == 0 {
            -1074
        } else {
            field as i64 - 1075
        };
        assert(logical * significand <= 1023 * MANTISSA_END) by (nonlinear_arith)
            requires
                logical <= 1023,
                significand <= MANTISSA_END,
        ;
        let product: u64 = logical as u64 * significand;
        let (m, dropped) = rounded(product);
        let power: i64 = exponent + dropped as i64 - halvings as i64;
        if power >= 0 {
            proof {
                lemma_mantissa(product as nat);
                assert(logical * significand >= LEAST_MANTISSA) by (nonlinear_arith)
                    requires
                        logical >= 1,
                        significand >= LEAST_MANTISSA,
                ;
                assert(m >= LEAST_MANTISSA);
                lemma_pow2_pos(power as nat);
                let factor = pow2(power as nat);
                assert(m * factor >= LEAST_MANTISSA) by (nonlinear_arith)
                    requires
                        m >= LEAST_MANTISSA,
                        factor >= 1,
                ;
            }
            return 0x1_0000_0000;
        }
        let places: i64 = -power;
        if places >= 55 {
            proof {
                lemma_tiny(m as nat, places as nat);
            }
            return 0;
        }
        let unit: u64 = power_of_two(places as u32);
        proof {
            lemma2_to64();
            lemma2_to64_rest();
            if places < 54 {
                lemma_pow2_strictly_increases(places as nat, 54);
            }
            lemma_pow2_pos(places as nat);
        }
        let size: u64 = (2 * m + unit) / (2 * unit);
        if size < 0x1_0000_0000 {
            size
        } else {
            0x1_0000_0000
        }
    }

    /// `logical` units in pixels, rounded to the nearest and kept within the
    /// range of a signed coordinate.
    pub fn scaled(self, logical: u32) -> (pixels: i32)
        requires
            0 < logical <= 1023,
        ensures
            pixels == signed_pixels(logical as nat, self, 0),
    {
        self.signed(logical, 0)
    }

    /// Half of `logical` units in pixels, rounded to the nearest and kept
    /// within the range of a signed coordinate.
    pub fn scaled_half(self, logical: u32) -> (pixels: i32)
        requires
            0 < logical <= 1023,
        ensures
            pixels == signed_pixels(logical as nat, self, 1),
    {
        self.signed(logical, 1)
    }

    /// `logical` units in pixels, rounded to the nearest and kept within the
    /// range of an unsigned length.
    pub fn scaled_length(self, logical: u32) -> (pixels: u32)
        requires
            0 < logical <= 1023,
        ensures
            pixels == unsigned_pixels(logical as nat, self),
    {
        if self.no_number() || self.bits >= 0x8000_0000_0000_0000 {
            return 0;
        }
        let size: u64 = self.size(logical, 0);
        if size <= 0xffff_ffff {
            size as u32
        } else {
            0xffff_ffff
        }
    }

    fn no_number(self) -> (nan: bool)
        ensures
            nan == self.is_nan(),
    {
        (self.bits / LEAST_MANTISSA) % 2048 == 2047 && self.bits % LEAST_MANTISSA > 0
    }

    fn signed(self, logical: u32, halvings: u32) -> (pixels: i32)
        requires
            0 < logical <= 1023,
            halvings <= 1,
        ensures
            pixels == signed_pixels(logical as nat, self, halvings as nat),
    {
        if self.no_number() {
            return 0;
        }
        let size: u64 = self.size(logical, halvings);
        if self.bits >= 0x8000_0000_0000_0000 {
            if size < 0x8000_0000 {
                -(size as i32)
            } else {
                i32::MIN
            }
        } else if size <= 0x7fff_ffff {
            size as i32
        } else {
            i32::MAX
        }
    }
}

/// The share `part / whole` of a length, in pixels: the quotient and then the
/// product in double precision, rounded to the nearest integer, a tie away from
/// zero.
pub open spec fn share(part: nat, whole: nat, length: nat) -> nat {
    let places = doublings(length, whole);
    let quotient = half_even(length * pow2(places), whole);
    let product = part * quotient;
    half_up(mantissa(product) * pow2(excess_bits(product)), pow2(places))
}

/// [`share`] of a length with a sign.
pub open spec fn signed_share(part: nat, whole: nat, length: int) -> int {
    if length < 0 {
        -(share(part, whole, (-length) as nat) as int)
    } else {
        share(part, whole, length as nat) as int
    }
}

/// Doubling stops with a quotient of exactly 53 bits.
proof fn lemma_doublings(n: nat, d: nat)
    requires
        0 < n < 2 * d * LEAST_MANTISSA,
    ensures
        d * LEAST_MANTISSA <= n * pow2(doublings(n, d)) < 2 * d * LEAST_MANTISSA,
    decreases (if n < d * LEAST_MANTISSA { d * LEAST_MANTISSA - n } else { 0 }),
{
    lemma2_to64();
    if n < d * LEAST_MANTISSA {
        lemma_doublings(2 * n, d);
        let rest = doublings(2 * n, d);
        lemma_pow2_unfold(rest + 1);
        let power = pow2(rest);
        assert((2 * n) * power == n * (2 * power)) by (nonlinear_arith);
        assert(pow2(doublings(n, d)) == 2 * power);
    } else {
        assert(doublings(n, d) == 0);
        assert(n * pow2(0) == n);
    }
}

/// A length rounded with ties away from zero is off by at most half a unit.
proof fn lemma_half_up(n: nat, d: nat)
    requires
        d > 0,
    ensures
        2 * (half_up(n, d) * d - n) <= d,
        2 * (n - half_up(n, d) * d) <= d,
{
    let r = half_up(n, d);
    let e = 2 * d;
    let t = 2 * n + d;
    assert(r * e <= t < r * e + e) by (nonlinear_arith)
        requires
            e > 0,
            r == t / e,
    ;
    assert(r * e == 2 * (r * d)) by (nonlinear_arith)
        requires
            e == 2 * d,
    ;
}

/// The pixel that a share of a length is rounded to is a nearest one: rounding
/// in double precision on the way never moves it further than half a pixel
/// from the exact share.
pub proof fn share_is_a_nearest_pixel(part: nat, whole: nat, length: nat)
    requires
        0 < part <= 1023,
        0 < whole <= 1023,
        length <= 0x8000_0000,
    ensures
        2 * (whole * share(part, whole, length) - part * length) <= whole,
        2 * (part * length - whole * share(part, whole, length)) <= whole,
{
    lemma2_to64();
    if length == 0 {
        assert(0 * pow2(0) == 0);
        assert(0nat / whole == 0 && 0nat % whole == 0) by (nonlinear_arith)
            requires
                whole > 0,
        ;
        assert(part * 0 == 0);
        assert(half_even(0, 1) == 0);
        assert(mantissa(0) * pow2(excess_bits(0)) == 0);
        assert(half_up(0, 1) == 0) by (nonlinear_arith);
        assert(doublings(0, whole) == 0);
        assert(half_even(0 * pow2(0), whole) == 0);
        assert(share(part, whole, length) == 0);
        assert(whole * 0 == 0);
        return ;
    }
    let places = doublings(length, whole);
    let power = pow2(places);
    let widened = length * power;
    lemma_doublings(length, whole);
    let quotient = half_even(widened, whole);
    lemma_half_even(widened, whole);
    let product = part * quotient;
    let dropped = pow2(excess_bits(product));
    lemma_pow2_pos(excess_bits(product));
    lemma_pow2_pos(places);
    lemma_half_even(product, dropped);
    let value = mantissa(product) * dropped;
    lemma_half_up(value, power);
    let r = share(part, whole, length);
    // The quotient has at most 53 bits, or is the power of two just above.
    assert(quotient <= MANTISSA_END) by (nonlinear_arith)
        requires
            2 * (quotient * whole - widened) <= whole,
            widened < 2 * whole * LEAST_MANTISSA,
            whole > 0,
    ;
    assert(product <= 1023 * MANTISSA_END) by (nonlinear_arith)
        requires
            product == part * quotient,
            part <= 1023,
            quotient <= MANTISSA_END,
    ;
    lemma_excess_bits(product);
    assert(dropped <= 2048) by {
        if excess_bits(product) > 0 {
            assert(dropped <= 2048) by (nonlinear_arith)
                requires
                    product <= 1023 * MANTISSA_END,
                    product >= LEAST_MANTISSA * dropped,
            ;
        }
    }
    // The power of two is far larger than the error in units of it.
    assert(whole * (dropped + part) < power) by (nonlinear_arith)
        requires
            whole * LEAST_MANTISSA <= length * power,
            length <= 0x8000_0000,
            dropped <= 2048,
            0 < part <= 1023,
            0 < whole <= 1023,
    ;
    let exact: int = (part * length) as int;
    let found: int = (whole * r) as int;
    assert(2 * (found * power - whole * value) <= whole * power) by (nonlinear_arith)
        requires
            found == whole * r,
            2 * (r * power - value) <= power,
    ;
    assert(2 * (whole * value - found * power) <= whole * power) by (nonlinear_arith)
        requires
            found == whole * r,
            2 * (value - r * power) <= power,
    ;
    assert(2 * (whole * value - whole * product) <= whole * dropped) by (nonlinear_arith)
        requires
            2 * (value - product) <= dropped,
    ;
    assert(2 * (whole * product - whole * value) <= whole * dropped) by (nonlinear_arith)
        requires
            2 * (product - value) <= dropped,
    ;
    assert(2 * (whole * product - exact * power) <= part * whole && 2 * (exact * power - whole
        * product) <= part * whole) by (nonlinear_arith)
        requires
            product == part * quotient,
            exact == part * length,
            widened == length * power,
            2 * (quotient * whole - widened) <= whole,
            2 * (widened - quotient * whole) <= whole,
    ;
    assert(whole * (dropped + part) == whole * dropped + part * whole) by (nonlinear_arith);
    assert(2 * (found - exact) <= whole) by (nonlinear_arith)
        requires
            2 * (found * power - exact * power) < whole * power + power,
            power > 0,
    ;
    assert(2 * (exact - found) <= whole) by (nonlinear_arith)
        requires
            2 * (exact * power - found * power) < whole * power + power,
            power > 0,
    ;
}

/// The share `part / whole` of a length, rounded to the nearest pixel.
pub fn share_of_length(part: u32, whole: u32, length: i32) -> (pixels: i32)
    requires
        0 < part < whole <= 1023,
    ensures
        pixels == signed_share(part as nat, whole as nat, length as int),
{
    let size: u64 = if length < 0 {
        (-(length as i64)) as u64
    } else {
        length as u64
    };
    proof {
        lemma2_to64();
        share_is_a_nearest_pixel(part as nat, whole as nat, size as nat);
    }
    if size == 0 {
        assert(share(part as nat, whole as nat, 0) == 0) by (nonlinear_arith)
            requires
                2 * (whole * share(part as nat, whole as nat, 0) - part * 0) <= whole,
                whole > 0,
        ;
        return 0;
    }
    let mut widened: u64 = size;
    let mut power: u64 = 1;
    let limit: u64 = whole as u64 * LEAST_MANTISSA;
    let ghost mut places: nat = 0;
    while widened < limit
        invariant
            limit == whole * LEAST_MANTISSA,
            whole <= 1023,
            0 < widened < 2 * limit,
            widened == size * power,
            power == pow2(places),
            size > 0,
            doublings(size as nat, whole as nat) == places + doublings(
                widened as nat,
                whole as nat,
            ),
        decreases (if widened < limit { limit - widened } else { 0 }),
    {
        assert(power <= widened) by (nonlinear_arith)
            requires
                widened == size * power,
                size >= 1,
        ;
        assert(2 * (size * power) == size * (2 * power)) by (nonlinear_arith);
        proof {
            lemma_pow2_unfold(places + 1);
            places = places + 1;
        }
        widened = 2 * widened;
        power = 2 * power;
    }
    assert(doublings(size as nat, whole as nat) == places);
    let quotient: u64 = half_even_quotient(widened, whole as u64);
    proof {
        lemma_half_even(widened as nat, whole as nat);
    }
    assert(quotient <= MANTISSA_END) by (nonlinear_arith)
        requires
            2 * (quotient * whole - widened) <= whole,
            widened < 2 * (whole * LEAST_MANTISSA),
            whole > 0,
    ;
    assert(part * quotient <= 1023 * MANTISSA_END) by (nonlinear_arith)
        requires
            part <= 1023,
            quotient <= MANTISSA_END,
    ;
    let product: u64 = part as u64 * quotient;
    let (m, dropped) = rounded(product);
    let unit: u64 = power_of_two(dropped);
    proof {
        if dropped < 11 {
            lemma_pow2_strictly_increases(dropped as nat, 11);
        }
        lemma_pow2_pos(places);
    }
    assert(m * unit <= MANTISSA_END * 2048) by (nonlinear_arith)
        requires
            m <= MANTISSA_END,
            unit <= 2048,
    ;
    let value: u128 = m as u128 * unit as u128;
    let pixels: u128 = (2 * value + power as u128) / (2 * power as u128);
    assert(pixels == share(part as nat, whole as nat, size as nat));
    assert(pixels < 0x8000_0000) by (nonlinear_arith)
        requires
            2 * (whole * pixels - part * size) <= whole,
            0 < part < whole <= 1023,
            size <= 0x8000_0000,
    ;
    if length < 0 {
        -(pixels as i32)
    } else {
        pixels as i32
    }
}

/// The size in pixels of some logical units is a nearest integer to their exact
/// size, or off by no more than rounding the product in double precision can
/// move it: with the value of the scale factor written as `significand` over
/// two to the power of `places`, by half of that power and half of the bits
/// that a product of 63 bits loses.
pub proof fn lengths_are_nearest_pixels(logical: nat, significand: nat, places: nat, halvings: nat)
    requires
        logical <= 1023,
        significand < MANTISSA_END,
        places >= halvings,
    ensures
        ({
            let pixels = product_size(logical, significand, halvings - places, halvings);
            let exact = logical * significand;
            &&& 2 * (pixels * pow2(places) - exact) <= pow2(places) + 1024
            &&& 2 * (exact - pixels * pow2(places)) <= pow2(places) + 1024
        }),
{
    lemma2_to64();
    let product = logical * significand;
    let dropped_bits = excess_bits(product);
    let dropped = pow2(dropped_bits);
    let m = mantissa(product);
    let whole = pow2(places);
    let pixels = product_size(logical, significand, halvings - places, halvings);
    lemma_pow2_pos(dropped_bits);
    lemma_pow2_pos(places);
    lemma_half_even(product, dropped);
    lemma_excess_bits(product);
    assert(product < 1023 * MANTISSA_END) by (nonlinear_arith)
        requires
            product == logical * significand,
            logical <= 1023,
            significand < MANTISSA_END,
    ;
    assert(dropped <= 1024) by {
        if dropped_bits > 10 {
            if dropped_bits > 11 {
                lemma_pow2_strictly_increases(11, dropped_bits);
            }
            assert(dropped >= 2048);
            assert(product >= LEAST_MANTISSA * 2048) by (nonlinear_arith)
                requires
                    product >= LEAST_MANTISSA * dropped,
                    dropped >= 2048,
            ;
        } else if dropped_bits < 10 {
            lemma_pow2_strictly_increases(dropped_bits, 10);
        }
    }
    if dropped_bits >= places {
        let power = (dropped_bits - places) as nat;
        lemma_pow2_adds(power, places);
        assert(pixels == m * pow2(power));
        assert((m * pow2(power)) * whole == m * dropped) by (nonlinear_arith)
            requires
                pow2(power) * whole == dropped,
        ;
    } else {
        let rest = (places - dropped_bits) as nat;
        let unit = pow2(rest);
        lemma_pow2_adds(rest, dropped_bits);
        lemma_pow2_pos(rest);
        lemma_half_up(m, unit);
        assert(pixels == half_up(m, unit));
        assert(2 * (pixels * whole - m * dropped) <= whole && 2 * (m * dropped - pixels * whole)
            <= whole) by (nonlinear_arith)
            requires
                unit * dropped == whole,
                2 * (pixels * unit - m) <= unit,
                2 * (m - pixels * unit) <= unit,
                dropped > 0,
        ;
    }
}

/// The number that the bits of a scale factor stand for is not negative where
/// the sign bit is not set. Its pixels are then the size as far as a number of
/// 32 bits holds it; below zero they are the same size with the other sign, and
/// an unsigned length is none.
pub proof fn pixels_have_the_sign_of_the_scale(logical: nat, scale: ScaleFactor, halvings: nat)
    requires
        !(scale.field() == 2047 && scale.fraction() > 0),
    ensures
        ({
            let size = pixel_size(logical, scale, halvings);
            &&& scale.bits < 0x8000_0000_0000_0000 && size <= i32::MAX ==> signed_pixels(
                logical,
                scale,
                halvings,
            ) == size
            &&& scale.bits < 0x8000_0000_0000_0000 && size > i32::MAX ==> signed_pixels(
                logical,
                scale,
                halvings,
            ) == i32::MAX
            &&& scale.bits >= 0x8000_0000_0000_0000 && size <= i32::MAX ==> signed_pixels(
                logical,
                scale,
                halvings,
            ) == -size
            &&& scale.bits >= 0x8000_0000_0000_0000 && size > i32::MAX ==> signed_pixels(
                logical,
                scale,
                halvings,
            ) == i32::MIN
            &&& scale.bits >= 0x8000_0000_0000_0000 ==> unsigned_pixels(logical, scale) == 0
            &&& scale.bits < 0x8000_0000_0000_0000 && pixel_size(logical, scale, 0) <= u32::MAX
                ==> unsigned_pixels(logical, scale) == pixel_size(logical, scale, 0)
        }),
{
}

/// At a scale factor of a power of two from one on, and so at one itself, some
/// logical units are that many times as many pixels, and at one the half of
/// them is rounded up.
pub proof fn whole_scales_multiply(logical: nat, exponent: nat)
    requires
        0 < logical <= 1023,
        exponent <= 10,
    ensures
        ({
            let scale = ScaleFactor { bits: ((1023 + exponent) * LEAST_MANTISSA) as u64 };
            &&& signed_pixels(logical, scale, 0) == logical * pow2(exponent)
            &&& unsigned_pixels(logical, scale) == logical * pow2(exponent)
            &&& exponent == 0 ==> signed_pixels(logical, scale, 1) == (logical + 1) / 2
        }),
{
    lemma2_to64();
    lemma2_to64_rest();
    let bits: u64 = ((1023 + exponent) * LEAST_MANTISSA) as u64;
    let scale = ScaleFactor { bits };
    assert(bits / LEAST_MANTISSA == 1023 + exponent && bits % LEAST_MANTISSA == 0);
    assert(scale.field() == 1023 + exponent && scale.fraction() == 0);
    let places = (52 - exponent) as nat;
    let significand = LEAST_MANTISSA as nat;
    lemma_pow2_adds(exponent, places);
    lemma_pow2_pos(places);
    assert(scale.exponent() == 0 - places);
    lengths_are_nearest_pixels(logical, significand, places, 0);
    let pixels = product_size(logical, significand, 0 - places, 0);
    let power = pow2(places);
    assert(power >= 0x400_0000_0000) by {
        if places > 42 {
            lemma_pow2_strictly_increases(42, places);
        }
    }
    let factor = pow2(exponent);
    assert(logical * significand == (logical * factor) * power) by (nonlinear_arith)
        requires
            significand == factor * power,
    ;
    let wanted = logical * factor;
    assert(pixels == wanted) by (nonlinear_arith)
        requires
            2 * (pixels * power - wanted * power) <= power + 1024,
            2 * (wanted * power - pixels * power) <= power + 1024,
            power > 1024,
    ;
    assert(factor <= 1024) by {
        if exponent < 10 {
            lemma_pow2_strictly_increases(exponent, 10);
        }
    }
    assert(wanted <= 1023 * 1024) by (nonlinear_arith)
        requires
            wanted == logical * factor,
            logical <= 1023,
            factor <= 1024,
    ;
    if exponent == 0 {
        lemma_half_of_scale_one(logical);
    }
}

/// Half of some logical units at a scale factor of one.
proof fn lemma_half_of_scale_one(logical: nat)
    requires
        0 < logical <= 1023,
    ensures
        product_size(logical, LEAST_MANTISSA as nat, -52, 1) == (logical + 1) / 2,
{
    lemma2_to64();
    lemma2_to64_rest();
    let product = logical * (LEAST_MANTISSA as nat);
    let dropped_bits = excess_bits(product);
    let dropped = pow2(dropped_bits);
    lemma_pow2_pos(dropped_bits);
    lemma_excess_bits(product);
    if dropped_bits > 10 {
        if dropped_bits > 11 {
            lemma_pow2_strictly_increases(11, dropped_bits);
        }
        assert(product >= LEAST_MANTISSA * 2048) by (nonlinear_arith)
            requires
                product >= LEAST_MANTISSA * dropped,
                dropped >= 2048,
        ;
    }
    // No bit that is dropped is set, so the mantissa is the product itself.
    let low = (52 - dropped_bits) as nat;
    lemma_pow2_adds(low, dropped_bits);
    let quotient = logical * pow2(low);
    assert(product == quotient * dropped) by (nonlinear_arith)
        requires
            product == logical * (LEAST_MANTISSA as nat),
            pow2(low) * dropped == LEAST_MANTISSA,
            quotient == logical * pow2(low),
    ;
    assert(product / dropped == quotient && product % dropped == 0) by (nonlinear_arith)
        requires
            product == quotient * dropped,
            dropped > 0,
    ;
    assert(mantissa(product) == quotient);
    let unit = pow2(low + 1);
    lemma_pow2_unfold(low + 1);
    lemma_pow2_pos(low);
    let half = pow2(low);
    assert(unit == 2 * half);
    assert((-(-52 + dropped_bits - 1)) as nat == low + 1);
    assert((2 * (logical * half) + 2 * half) / (2 * (2 * half)) == (logical + 1) / 2)
        by (nonlinear_arith)
        requires
            half > 0,
    ;
}

} // verus!
