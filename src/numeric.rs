//! Fixed-point decimals whose arithmetic is performed by scrypto's `Decimal`
//! (18 decimal places in 192 bits) and `PreciseDecimal` (36 decimal places in
//! 256 bits).
//!
//! Each library type holds the little-endian two's complement bytes of the
//! scaled integer ("attos"), the same bytes that scrypto's `to_vec` yields.
//! Contracts speak of `value()`, that scaled integer.

use scrypto::math::Decimal as ScryptoDecimal;
use scrypto::math::PreciseDecimal as ScryptoPreciseDecimal;
use scrypto::math::{CheckedAdd, CheckedDiv, CheckedMul, CheckedNeg, CheckedSub, RoundingMode};
use vstd::prelude::*;

verus! {

/// Attos in one unit of `Decimal`.
pub open spec fn dec_unit() -> int {
    1_000_000_000_000_000_000
}

/// Attos in one unit of `PreciseDecimal`.
pub open spec fn pdec_unit() -> int {
    dec_unit() * dec_unit()
}

/// 2^191: the attos of a `Decimal` lie in `[-2^191, 2^191)`.
pub open spec fn dec_half_range() -> int {
    0x8000_0000_0000_0000_0000_0000_0000_0000_0000_0000_0000_0000int
}

/// 2^255: the attos of a `PreciseDecimal` lie in `[-2^255, 2^255)`.
pub open spec fn pdec_half_range() -> int {
    0x8000_0000_0000_0000_0000_0000_0000_0000_0000_0000_0000_0000_0000_0000_0000_0000int
}

pub open spec fn dec_fits(x: int) -> bool {
    -dec_half_range() <= x < dec_half_range()
}

pub open spec fn pdec_fits(x: int) -> bool {
    -pdec_half_range() <= x < pdec_half_range()
}

/// `Some(x)` where `x` is representable as a `Decimal`.
pub open spec fn dec_checked(x: int) -> Option<int> {
    if dec_fits(x) { Some(x) } else { None }
}

/// `Some(x)` where `x` is representable as a `PreciseDecimal`.
pub open spec fn pdec_checked(x: int) -> Option<int> {
    if pdec_fits(x) { Some(x) } else { None }
}

pub open spec fn abs(a: int) -> int {
    if a < 0 { -a } else { a }
}

/// Integer division rounding toward zero, as Rust's `/` on signed integers.
pub open spec fn tdiv(a: int, b: int) -> int {
    if (a < 0) == (b < 0) { abs(a) / abs(b) } else { -(abs(a) / abs(b)) }
}

/// `x` rounded to a multiple of `unit` (positive), to the nearest one, ties to
/// the even multiple.
pub open spec fn round_half_even(x: int, unit: int) -> int {
    let q = x / unit;
    let r = x % unit;
    if r * 2 < unit {
        q * unit
    } else if r * 2 > unit {
        (q + 1) * unit
    } else if q % 2 == 0 {
        q * unit
    } else {
        (q + 1) * unit
    }
}

/// scrypto's `Decimal` product: the attos' product divided by 10^18 toward
/// zero, when it fits.
pub open spec fn dec_mul_model(a: int, b: int) -> Option<int> {
    dec_checked(tdiv(a * b, dec_unit()))
}

/// scrypto's `Decimal` quotient: the attos times 10^18 divided toward zero by
/// the divisor's attos, when the divisor is not zero and the result fits.
pub open spec fn dec_div_model(a: int, b: int) -> Option<int> {
    if b == 0 { None } else { dec_checked(tdiv(a * dec_unit(), b)) }
}

/// scrypto's `PreciseDecimal` product.
pub open spec fn pdec_mul_model(a: int, b: int) -> Option<int> {
    pdec_checked(tdiv(a * b, pdec_unit()))
}

/// scrypto's `PreciseDecimal` quotient.
pub open spec fn pdec_div_model(a: int, b: int) -> Option<int> {
    if b == 0 { None } else { pdec_checked(tdiv(a * pdec_unit(), b)) }
}

/// scrypto's `PreciseDecimal` rounding to `places` decimal places, half to
/// even.
pub open spec fn pdec_round_model(x: int, places: nat) -> Option<int> {
    pdec_checked(round_half_even(x, pow10((36 - places) as nat)))
}

/// `x` rounded to a multiple of `unit` (positive), to the nearest one, ties
/// toward zero.
pub open spec fn round_half_toward_zero(x: int, unit: int) -> int {
    let q = x / unit;
    let r = x % unit;
    if r * 2 < unit {
        q * unit
    } else if r * 2 > unit {
        (q + 1) * unit
    } else if x > 0 {
        q * unit
    } else {
        (q + 1) * unit
    }
}

/// scrypto's `PreciseDecimal` rounding to `places` decimal places, half
/// toward zero.
pub open spec fn pdec_round_toward_zero_model(x: int, places: nat) -> Option<int> {
    pdec_checked(round_half_toward_zero(x, pow10((36 - places) as nat)))
}

/// `10^n`.
pub open spec fn pow10(n: nat) -> int
    decreases n,
{
    if n == 0 { 1 } else { 10 * pow10((n - 1) as nat) }
}

/// The unsigned little-endian integer of `b`.
pub open spec fn le_magnitude(b: Seq<u8>) -> int
    decreases b.len(),
{
    if b.len() == 0 {
        0
    } else {
        b[0] as int + 256 * le_magnitude(b.drop_first())
    }
}

/// The two's complement little-endian integer of `b`, read at the width whose
/// sign bit has weight `half`.
pub open spec fn le_signed(b: Seq<u8>, half: int) -> int {
    let u = le_magnitude(b);
    if u >= half { u - 2 * half } else { u }
}

/// A number with 18 decimal places, the precision of resource amounts.
#[derive(Clone, Copy, Debug, PartialEq, Eq)]
pub struct Decimal {
    le: [u8; 24],
}

/// A number with 36 decimal places, used for intermediate curve arithmetic.
#[derive(Clone, Copy, Debug, PartialEq, Eq)]
pub struct PreciseDecimal {
    le: [u8; 32],
}

pub open spec fn dec_opt(d: Option<Decimal>) -> Option<int> {
    match d {
        Some(v) => Some(v.value()),
        None => None,
    }
}

pub open spec fn pdec_opt(d: Option<PreciseDecimal>) -> Option<int> {
    match d {
        Some(v) => Some(v.value()),
        None => None,
    }
}

impl Decimal {
    /// The number of attos (units of 10^-18) this value holds.
    pub closed spec fn value(&self) -> int {
        le_signed(self.le@, dec_half_range())
    }

    /// The value whose two's complement little-endian attos are `le`, the
    /// layout of scrypto's `Decimal::to_vec`.
    pub fn from_le_bytes(le: [u8; 24]) -> (r: Decimal)
        ensures
            r.value() == le_signed(le@, dec_half_range()),
    {
        Decimal { le }
    }

    /// The two's complement little-endian attos of this value.
    pub fn to_le_bytes(&self) -> (r: [u8; 24])
        ensures
            le_signed(r@, dec_half_range()) == self.value(),
    {
        self.le
    }

    /// Relies on scrypto's `From<i64> for Decimal`: `n` whole units.
    #[verifier::external_body]
    pub fn from_int(n: i64) -> (r: Decimal)
        ensures
            r.value() == n * dec_unit(),
    {
        Decimal { le: ScryptoDecimal::from(n).to_vec().try_into().unwrap() }
    }

    /// Relies on scrypto's `CheckedAdd for Decimal`: the exact sum when it fits.
    #[verifier::external_body]
    pub fn checked_add(&self, other: &Decimal) -> (r: Option<Decimal>)
        ensures
            dec_opt(r) == dec_checked(self.value() + other.value()),
    {
        let a = ScryptoDecimal::try_from(&self.le[..]).unwrap();
        let b = ScryptoDecimal::try_from(&other.le[..]).unwrap();
        a.checked_add(b).map(|c| Decimal { le: c.to_vec().try_into().unwrap() })
    }

    /// Relies on scrypto's `CheckedSub for Decimal`: the exact difference when
    /// it fits.
    #[verifier::external_body]
    pub fn checked_sub(&self, other: &Decimal) -> (r: Option<Decimal>)
        ensures
            dec_opt(r) == dec_checked(self.value() - other.value()),
    {
        let a = ScryptoDecimal::try_from(&self.le[..]).unwrap();
        let b = ScryptoDecimal::try_from(&other.le[..]).unwrap();
        a.checked_sub(b).map(|c| Decimal { le: c.to_vec().try_into().unwrap() })
    }

    /// Relies on scrypto's `CheckedMul for Decimal`: the product of the attos
    /// (taken in 256 bits) divided by 10^18 toward zero, when it fits in 192
    /// bits. A product beyond 256 bits would not fit after the division either.
    #[verifier::external_body]
    pub fn checked_mul(&self, other: &Decimal) -> (r: Option<Decimal>)
        ensures
            dec_opt(r) == dec_mul_model(self.value(), other.value()),
    {
        let a = ScryptoDecimal::try_from(&self.le[..]).unwrap();
        let b = ScryptoDecimal::try_from(&other.le[..]).unwrap();
        a.checked_mul(b).map(|c| Decimal { le: c.to_vec().try_into().unwrap() })
    }

    /// Relies on scrypto's `CheckedDiv for Decimal`: the attos times 10^18
    /// divided toward zero by the divisor's attos; `None` for a zero divisor or
    /// a quotient beyond 192 bits.
    #[verifier::external_body]
    pub fn checked_div(&self, other: &Decimal) -> (r: Option<Decimal>)
        ensures
            dec_opt(r) == dec_div_model(self.value(), other.value()),
    {
        let a = ScryptoDecimal::try_from(&self.le[..]).unwrap();
        let b = ScryptoDecimal::try_from(&other.le[..]).unwrap();
        a.checked_div(b).map(|c| Decimal { le: c.to_vec().try_into().unwrap() })
    }

    /// Relies on scrypto's `Decimal::is_negative`.
    #[verifier::external_body]
    pub fn is_negative(&self) -> (r: bool)
        ensures
            r == (self.value() < 0),
    {
        ScryptoDecimal::try_from(&self.le[..]).unwrap().is_negative()
    }

    /// Relies on scrypto's derived `PartialOrd for Decimal`, which orders by
    /// the signed attos.
    #[verifier::external_body]
    pub fn lt(&self, other: &Decimal) -> (r: bool)
        ensures
            r == (self.value() < other.value()),
    {
        let a = ScryptoDecimal::try_from(&self.le[..]).unwrap();
        let b = ScryptoDecimal::try_from(&other.le[..]).unwrap();
        a < b
    }

    /// Relies on scrypto's `From<Decimal> for PreciseDecimal`: the same number
    /// with 36 decimal places, which always fits.
    #[verifier::external_body]
    pub fn to_precise(&self) -> (r: PreciseDecimal)
        ensures
            r.value() == self.value() * dec_unit(),
    {
        let a = ScryptoDecimal::try_from(&self.le[..]).unwrap();
        PreciseDecimal { le: ScryptoPreciseDecimal::from(a).to_vec().try_into().unwrap() }
    }

    /// Relies on scrypto's `Decimal::from_attos` and `I192::from(i128)`: the
    /// value with exactly `attos` attos.
    #[verifier::external_body]
    pub fn from_attos(attos: i128) -> (r: Decimal)
        ensures
            r.value() == attos,
    {
        let d = ScryptoDecimal::from_attos(scrypto::math::I192::from(attos));
        Decimal { le: d.to_vec().try_into().unwrap() }
    }
}

impl PreciseDecimal {
    /// The number of units of 10^-36 this value holds.
    pub closed spec fn value(&self) -> int {
        le_signed(self.le@, pdec_half_range())
    }

    /// The value whose two's complement little-endian scaled integer is `le`,
    /// the layout of scrypto's `PreciseDecimal::to_vec`.
    pub fn from_le_bytes(le: [u8; 32]) -> (r: PreciseDecimal)
        ensures
            r.value() == le_signed(le@, pdec_half_range()),
    {
        PreciseDecimal { le }
    }

    /// The two's complement little-endian scaled integer of this value.
    pub fn to_le_bytes(&self) -> (r: [u8; 32])
        ensures
            le_signed(r@, pdec_half_range()) == self.value(),
    {
        self.le
    }

    /// Relies on scrypto's `PreciseDecimal::from_precise_subunits` and `I256::from(i128)`:
    /// the value with exactly `attos` units of 10^-36.
    #[verifier::external_body]
    pub fn from_attos(attos: i128) -> (r: PreciseDecimal)
        ensures
            r.value() == attos,
    {
        let d = ScryptoPreciseDecimal::from_precise_subunits(scrypto::math::I256::from(attos));
        PreciseDecimal { le: d.to_vec().try_into().unwrap() }
    }

    /// Relies on scrypto's `From<i64> for PreciseDecimal`: `n` whole units.
    #[verifier::external_body]
    pub fn from_int(n: i64) -> (r: PreciseDecimal)
        ensures
            r.value() == n * pdec_unit(),
    {
        PreciseDecimal { le: ScryptoPreciseDecimal::from(n).to_vec().try_into().unwrap() }
    }

    /// Relies on scrypto's `CheckedAdd for PreciseDecimal`: the exact sum when
    /// it fits.
    #[verifier::external_body]
    pub fn checked_add(&self, other: &PreciseDecimal) -> (r: Option<PreciseDecimal>)
        ensures
            pdec_opt(r) == pdec_checked(self.value() + other.value()),
    {
        let a = ScryptoPreciseDecimal::try_from(&self.le[..]).unwrap();
        let b = ScryptoPreciseDecimal::try_from(&other.le[..]).unwrap();
        a.checked_add(b).map(|c| PreciseDecimal { le: c.to_vec().try_into().unwrap() })
    }

    /// Relies on scrypto's `CheckedSub for PreciseDecimal`: the exact
    /// difference when it fits.
    #[verifier::external_body]
    pub fn checked_sub(&self, other: &PreciseDecimal) -> (r: Option<PreciseDecimal>)
        ensures
            pdec_opt(r) == pdec_checked(self.value() - other.value()),
    {
        let a = ScryptoPreciseDecimal::try_from(&self.le[..]).unwrap();
        let b = ScryptoPreciseDecimal::try_from(&other.le[..]).unwrap();
        a.checked_sub(b).map(|c| PreciseDecimal { le: c.to_vec().try_into().unwrap() })
    }

    /// Relies on scrypto's `CheckedMul for PreciseDecimal`: the product of the
    /// scaled integers (taken in 384 bits) divided by 10^36 toward zero, when
    /// it fits in 256 bits. A product beyond 384 bits would not fit after the
    /// division either.
    #[verifier::external_body]
    pub fn checked_mul(&self, other: &PreciseDecimal) -> (r: Option<PreciseDecimal>)
        ensures
            pdec_opt(r) == pdec_mul_model(self.value(), other.value()),
    {
        let a = ScryptoPreciseDecimal::try_from(&self.le[..]).unwrap();
        let b = ScryptoPreciseDecimal::try_from(&other.le[..]).unwrap();
        a.checked_mul(b).map(|c| PreciseDecimal { le: c.to_vec().try_into().unwrap() })
    }

    /// Relies on scrypto's `CheckedDiv for PreciseDecimal`: the scaled integer
    /// times 10^36 divided toward zero by the divisor's; `None` for a zero
    /// divisor or a quotient beyond 256 bits.
    #[verifier::external_body]
    pub fn checked_div(&self, other: &PreciseDecimal) -> (r: Option<PreciseDecimal>)
        ensures
            pdec_opt(r) == pdec_div_model(self.value(), other.value()),
    {
        let a = ScryptoPreciseDecimal::try_from(&self.le[..]).unwrap();
        let b = ScryptoPreciseDecimal::try_from(&other.le[..]).unwrap();
        a.checked_div(b).map(|c| PreciseDecimal { le: c.to_vec().try_into().unwrap() })
    }

    /// Relies on scrypto's `CheckedNeg for PreciseDecimal`: the negation, which
    /// fails only for the minimum.
    #[verifier::external_body]
    pub fn checked_neg(&self) -> (r: Option<PreciseDecimal>)
        ensures
            pdec_opt(r) == pdec_checked(-self.value()),
    {
        let a = ScryptoPreciseDecimal::try_from(&self.le[..]).unwrap();
        a.checked_neg().map(|c| PreciseDecimal { le: c.to_vec().try_into().unwrap() })
    }

    /// Relies on scrypto's `PreciseDecimal::checked_abs`: the magnitude, which
    /// fails only for the minimum.
    #[verifier::external_body]
    pub fn checked_abs(&self) -> (r: Option<PreciseDecimal>)
        ensures
            pdec_opt(r) == pdec_checked(abs(self.value())),
    {
        let a = ScryptoPreciseDecimal::try_from(&self.le[..]).unwrap();
        a.checked_abs().map(|c| PreciseDecimal { le: c.to_vec().try_into().unwrap() })
    }

    /// Relies on scrypto's `PreciseDecimal::checked_round` with
    /// `RoundingMode::ToNearestMidpointToEven`: the nearest multiple of
    /// 10^-decimal_places, ties to the even one, when it fits. It panics for
    /// more than 36 places.
    #[verifier::external_body]
    pub fn checked_round_half_even(&self, decimal_places: u8) -> (r: Option<PreciseDecimal>)
        requires
            decimal_places <= 36,
        ensures
            pdec_opt(r) == pdec_round_model(self.value(), decimal_places as nat),
    {
        let a = ScryptoPreciseDecimal::try_from(&self.le[..]).unwrap();
        a.checked_round(decimal_places, RoundingMode::ToNearestMidpointToEven)
            .map(|c| PreciseDecimal { le: c.to_vec().try_into().unwrap() })
    }

    /// Relies on scrypto's `PreciseDecimal::checked_round` with
    /// `RoundingMode::ToNearestMidpointTowardZero`: the nearest multiple of
    /// 10^-decimal_places, ties toward zero, when it fits. It panics for more
    /// than 36 places.
    #[verifier::external_body]
    pub fn checked_round_half_toward_zero(&self, decimal_places: u8) -> (r: Option<PreciseDecimal>)
        requires
            decimal_places <= 36,
        ensures
            pdec_opt(r) == pdec_round_toward_zero_model(self.value(), decimal_places as nat),
    {
        let a = ScryptoPreciseDecimal::try_from(&self.le[..]).unwrap();
        a.checked_round(decimal_places, RoundingMode::ToNearestMidpointTowardZero)
            .map(|c| PreciseDecimal { le: c.to_vec().try_into().unwrap() })
    }

    /// Relies on scrypto's `PreciseDecimal::is_negative`.
    #[verifier::external_body]
    pub fn is_negative(&self) -> (r: bool)
        ensures
            r == (self.value() < 0),
    {
        ScryptoPreciseDecimal::try_from(&self.le[..]).unwrap().is_negative()
    }

    /// Relies on scrypto's derived `PartialOrd for PreciseDecimal`, which
    /// orders by the signed scaled integer.
    #[verifier::external_body]
    pub fn lt(&self, other: &PreciseDecimal) -> (r: bool)
        ensures
            r == (self.value() < other.value()),
    {
        let a = ScryptoPreciseDecimal::try_from(&self.le[..]).unwrap();
        let b = ScryptoPreciseDecimal::try_from(&other.le[..]).unwrap();
        a < b
    }

    /// Relies on scrypto's `TryFrom<PreciseDecimal> for Decimal`: truncation
    /// toward zero to 18 decimal places, when the result fits in 192 bits.
    #[verifier::external_body]
    pub fn to_decimal(&self) -> (r: Option<Decimal>)
        ensures
            dec_opt(r) == dec_checked(tdiv(self.value(), dec_unit())),
    {
        let a = ScryptoPreciseDecimal::try_from(&self.le[..]).unwrap();
        ScryptoDecimal::try_from(a).ok().map(|c| Decimal { le: c.to_vec().try_into().unwrap() })
    }
}

} // verus!
