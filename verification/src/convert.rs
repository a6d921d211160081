//! Unit converter: the sensor's linear transfer functions from raw 20-bit
//! fixed-point counts to physical units.
//!
//! The sensor publishes `humidity% = raw / 2^20 * 100` and
//! `tempC = raw / 2^20 * 200 - 50`. Results are carried in thousandths of a
//! unit (milli-percent relative humidity, milli-degrees Celsius), rounded
//! toward zero, so the whole transfer function stays in exact integer
//! arithmetic.

use vstd::prelude::*;
use vstd::arithmetic::div_mod::lemma_div_is_ordered;
use vstd::arithmetic::mul::lemma_mul_inequality;

verus! {

/// One past the largest raw count: the fields are 20 bits wide, and the
/// transfer functions are also defined at the full-scale point `2^20` itself.
pub const RAW_FULL_SCALE: u32 = 0x100000;

/// Relative humidity in thousandths of a percent: `raw / 2^20 * 100`,
/// carried as `raw * 100000 / 2^20` rounded toward zero.
pub open spec fn humidity_milli_spec(raw: u32) -> int {
    raw * 100000 / 0x100000
}

/// Temperature in thousandths of a degree Celsius: `raw / 2^20 * 200 - 50`,
/// carried as `raw * 200000 / 2^20 - 50000` with the division rounded toward
/// zero.
pub open spec fn temperature_milli_spec(raw: u32) -> int {
    raw * 200000 / 0x100000 - 50000
}

/// Converts a raw humidity count to thousandths of a percent relative
/// humidity.
pub fn humidity_milli_percent(raw: u32) -> (r: u32)
    requires
        raw <= RAW_FULL_SCALE,
    ensures
        r == humidity_milli_spec(raw),
        r <= 100000,
{
    proof {
        lemma_mul_inequality(raw as int, RAW_FULL_SCALE as int, 100000);
        lemma_div_is_ordered(raw * 100000, RAW_FULL_SCALE * 100000, 0x100000);
    }
    ((raw as u64) * 100000 / 0x100000) as u32
}

/// Converts a raw temperature count to thousandths of a degree Celsius.
pub fn temperature_milli_celsius(raw: u32) -> (r: i32)
    requires
        raw <= RAW_FULL_SCALE,
    ensures
        r == temperature_milli_spec(raw),
        -50000 <= r <= 150000,
{
    proof {
        lemma_mul_inequality(raw as int, RAW_FULL_SCALE as int, 200000);
        lemma_div_is_ordered(raw * 200000, RAW_FULL_SCALE * 200000, 0x100000);
    }
    let scaled: u64 = (raw as u64) * 200000 / 0x100000;
    (scaled as i64 - 50000) as i32
}

/// The humidity transfer function is monotonic non-decreasing over the full
/// 20-bit domain.
pub proof fn lemma_humidity_monotone(a: u32, b: u32)
    requires
        a <= b,
    ensures
        humidity_milli_spec(a) <= humidity_milli_spec(b),
{
    lemma_mul_inequality(a as int, b as int, 100000);
    lemma_div_is_ordered(a * 100000, b * 100000, 0x100000);
}

/// The temperature transfer function is monotonic non-decreasing over the
/// full 20-bit domain.
pub proof fn lemma_temperature_monotone(a: u32, b: u32)
    requires
        a <= b,
    ensures
        temperature_milli_spec(a) <= temperature_milli_spec(b),
{
    lemma_mul_inequality(a as int, b as int, 200000);
    lemma_div_is_ordered(a * 200000, b * 200000, 0x100000);
}

} // verus!
