//! Readings such as temperatures and coordinates arrive as IEEE-754 doubles.
//! The library carries each one as its bit pattern and orders readings by a
//! key on those bits; arithmetic and decimal rendering of them happen outside
//! the library.
use vstd::prelude::*;

verus! {

/// A double, held as its IEEE-754 bit pattern.
#[derive(Clone, Copy, Debug, PartialEq, Eq, Structural)]
pub struct FloatBits(pub u64);

/// The sign bit of a double.
pub const SIGN_BIT: u64 = 0x8000_0000_0000_0000;

/// The bits of 80.0, the temperature at which the heat index applies.
pub const BITS_80: u64 = 0x4054_0000_0000_0000;
/// The bits of 50.0, the temperature at or below which wind chill applies.
pub const BITS_50: u64 = 0x4049_0000_0000_0000;
/// The bits of 3.0, the wind speed above which wind chill applies.
pub const BITS_3: u64 = 0x4008_0000_0000_0000;
/// The bits of 85.0, the heat index above which an alert is raised.
pub const BITS_85: u64 = 0x4055_4000_0000_0000;
/// The bits of 32.0, the wind chill below which an alert is raised.
pub const BITS_32: u64 = 0x4040_0000_0000_0000;

/// The order key of a double: its magnitude bits, negated when the sign bit is
/// set. For doubles that are not NaN, `a < b` as doubles exactly when
/// `order_key(a) < order_key(b)`, and both zeros share the key 0; a NaN is
/// ordered with nothing, which `float_le` and `float_lt` check first.
pub open spec fn order_key(x: FloatBits) -> int {
    if x.0 >= SIGN_BIT {
        -((x.0 - SIGN_BIT) as int)
    } else {
        x.0 as int
    }
}

/// Computes `order_key`.
pub fn key(x: FloatBits) -> (k: i64)
    ensures
        k == order_key(x),
{
    if x.0 >= SIGN_BIT {
        let mag: u64 = x.0 - SIGN_BIT;
        -(mag as i64)
    } else {
        x.0 as i64
    }
}

/// The bits of positive infinity: every magnitude above it is a NaN.
pub const INFINITY_BITS: u64 = 0x7FF0_0000_0000_0000;

/// The double is a NaN: all exponent bits set and a nonzero fraction, that is,
/// a magnitude (the bits without the sign) above infinity's.
pub open spec fn float_is_nan(x: FloatBits) -> bool {
    if x.0 >= SIGN_BIT {
        x.0 - SIGN_BIT > INFINITY_BITS
    } else {
        x.0 > INFINITY_BITS
    }
}

/// Computes `float_is_nan`.
pub fn is_nan(x: FloatBits) -> (r: bool)
    ensures
        r == float_is_nan(x),
{
    if x.0 >= SIGN_BIT {
        x.0 - SIGN_BIT > INFINITY_BITS
    } else {
        x.0 > INFINITY_BITS
    }
}

/// `a <= b` as doubles: false whenever either is a NaN.
pub open spec fn float_le(a: FloatBits, b: FloatBits) -> bool {
    !float_is_nan(a) && !float_is_nan(b) && order_key(a) <= order_key(b)
}

/// `a < b` as doubles: false whenever either is a NaN.
pub open spec fn float_lt(a: FloatBits, b: FloatBits) -> bool {
    !float_is_nan(a) && !float_is_nan(b) && order_key(a) < order_key(b)
}

/// Computes `float_le`.
pub fn le(a: FloatBits, b: FloatBits) -> (r: bool)
    ensures
        r == float_le(a, b),
{
    !is_nan(a) && !is_nan(b) && key(a) <= key(b)
}

/// Computes `float_lt`.
pub fn lt(a: FloatBits, b: FloatBits) -> (r: bool)
    ensures
        r == float_lt(a, b),
{
    !is_nan(a) && !is_nan(b) && key(a) < key(b)
}

} // verus!
