//! The thermal model: how much heat a batch needs, and how fast a furnace
//! sheds heat.
//!
//! The required heat is
//!
//! ```text
//! round(base + pressure * coefficient + normalized_entropy * multiplier * base)
//! ```
//!
//! Kelvin, with base 2000, coefficient 8.5 and multiplier 0.15. All three
//! terms are fractions with the denominator `HEAT_DENOMINATOR`, so the sum is
//! rounded exactly, halves upward.

use vstd::prelude::*;
use crate::entropy::{
    calculate_entropy,
    lemma_entropy_of_constant_hash,
    lemma_entropy_of_distinct_hash,
    lemma_normalized_entropy_range,
    normalized_entropy,
    ENTROPY_ONE,
    HASH_LEN,
};

verus! {

/// Base temperature required for any sintering, in Kelvin.
pub const BASE_TEMP: u64 = 2000;

/// Heat per pressure unit, in tenths of a Kelvin: 8.5 K.
pub const PRESSURE_COEFFICIENT_TENTHS: u64 = 85;

/// Share of the base temperature that a hash of full entropy adds, in
/// percent: 0.15.
pub const ENTROPY_MULTIPLIER_PERCENT: u64 = 15;

/// The common denominator of the three terms of the required heat:
/// 10 for the coefficient, 100 for the multiplier, `ENTROPY_ONE` for the
/// normalised entropy.
pub const HEAT_DENOMINATOR: u64 = 160_000_000_000_000;

/// The slowest a furnace cools, in Kelvin per cycle.
pub const MIN_COOLDOWN_RATE: u64 = 10;

/// Thermal configuration constants for sintering operations, as integers.
#[derive(Debug, Clone, Copy, PartialEq, Eq, Structural)]
pub struct ThermalConfig {
    /// Base temperature required for any sintering (Kelvin).
    pub base_temp: u64,
    /// Temperature coefficient per pressure unit, in tenths of a Kelvin.
    pub pressure_coefficient_tenths: u64,
    /// Entropy factor from the data hash, in percent of the base temperature.
    pub entropy_multiplier_percent: u64,
}

impl ThermalConfig {
    /// The configuration every furnace runs with.
    pub open spec fn standard() -> ThermalConfig {
        ThermalConfig {
            base_temp: BASE_TEMP,
            pressure_coefficient_tenths: PRESSURE_COEFFICIENT_TENTHS,
            entropy_multiplier_percent: ENTROPY_MULTIPLIER_PERCENT,
        }
    }
}

impl Default for ThermalConfig {
    fn default() -> (config: Self)
        ensures
            config == ThermalConfig::standard(),
    {
        ThermalConfig {
            base_temp: BASE_TEMP,
            pressure_coefficient_tenths: PRESSURE_COEFFICIENT_TENTHS,
            entropy_multiplier_percent: ENTROPY_MULTIPLIER_PERCENT,
        }
    }
}

/// The fraction `numerator / denominator`, rounded to the nearest integer,
/// halves upward.
pub open spec fn round_half_up(numerator: int, denominator: int) -> int {
    (2 * numerator + denominator) / (2 * denominator)
}

/// The unrounded required heat as a multiple of `1 / HEAT_DENOMINATOR`
/// Kelvin: the base, plus 8.5 K per pressure unit, plus 15 % of the base
/// scaled by the normalised entropy of the hash.
pub open spec fn heat_numerator(hash: Seq<u8>, pressure: u8) -> int {
    BASE_TEMP * HEAT_DENOMINATOR + pressure * PRESSURE_COEFFICIENT_TENTHS * (100 * ENTROPY_ONE)
        + normalized_entropy(hash) * ENTROPY_MULTIPLIER_PERCENT * (10 * BASE_TEMP)
}

/// The heat in Kelvin that fusing a block with this hash at this pressure
/// requires.
pub open spec fn required_heat(hash: Seq<u8>, pressure: u8) -> int {
    round_half_up(heat_numerator(hash, pressure), HEAT_DENOMINATOR as int)
}

/// The heat in Kelvin that a furnace sheds in one cycle: 5 % of its excess
/// over the ambient temperature, rounded, and never less than
/// `MIN_COOLDOWN_RATE`. A furnace below ambient has no excess.
pub open spec fn cooldown_rate(current_temp: u64, ambient_temp: u64) -> int {
    let delta = if current_temp >= ambient_temp {
        current_temp - ambient_temp
    } else {
        0
    };
    let rate = round_half_up(5 * delta, 100);
    if rate >= MIN_COOLDOWN_RATE {
        rate
    } else {
        MIN_COOLDOWN_RATE as int
    }
}

/// For a fixed hash the required heat never falls when the pressure rises.
pub proof fn lemma_required_heat_monotonic(hash: Seq<u8>, low: u8, high: u8)
    requires
        low <= high,
    ensures
        required_heat(hash, low) <= required_heat(hash, high),
{
}

/// Whatever the hash and the pressure, the required heat is at least the
/// base temperature plus the pressure's share, and at most 300 K more.
pub proof fn lemma_required_heat_range(hash: Seq<u8>, pressure: u8)
    requires
        hash.len() == HASH_LEN,
    ensures
        required_heat(hash, pressure) >= BASE_TEMP + (17 * pressure + 1) / 2,
        required_heat(hash, pressure) <= BASE_TEMP + (17 * pressure + 1) / 2 + 300,
        BASE_TEMP <= required_heat(hash, pressure) <= 4468,
{
    lemma_normalized_entropy_range(hash);
}

/// A hash that repeats one byte adds nothing for entropy: the required heat
/// is the base temperature plus 8.5 K per pressure unit, rounded.
pub proof fn lemma_required_heat_of_constant_hash(hash: Seq<u8>, value: u8, pressure: u8)
    requires
        hash.len() == HASH_LEN,
        forall|i: int| 0 <= i < hash.len() ==> hash[i] == value,
    ensures
        required_heat(hash, pressure) == BASE_TEMP + (17 * pressure + 1) / 2,
{
    lemma_entropy_of_constant_hash(hash, value);
}

/// A hash of 32 different bytes adds the full 15 % of the base temperature,
/// 300 K.
pub proof fn lemma_required_heat_of_distinct_hash(hash: Seq<u8>, pressure: u8)
    requires
        hash.len() == HASH_LEN,
        forall|i: int, j: int| 0 <= i < j < hash.len() ==> hash[i] != hash[j],
    ensures
        required_heat(hash, pressure) == BASE_TEMP + 300 + (17 * pressure + 1) / 2,
{
    lemma_entropy_of_distinct_hash(hash);
}

/// Calculates the heat required for sintering a data block.
///
/// The formula combines the base sintering temperature, the heat that the
/// pressure level calls for, and a share of the base temperature that grows
/// with the entropy of the hash's byte distribution.
pub fn calc_required_heat(data_hash: &[u8; 32], pressure: u8) -> (heat: u64)
    ensures
        heat == required_heat(data_hash@, pressure),
        BASE_TEMP <= heat <= 4468,
{
    let config = ThermalConfig::default();
    let entropy = calculate_entropy(data_hash);
    assert(config.base_temp == 2000 && config.pressure_coefficient_tenths == 85
        && config.entropy_multiplier_percent == 15);
    let pressure_component = (pressure as u64) * config.pressure_coefficient_tenths * (100
        * ENTROPY_ONE);
    let entropy_component = entropy * config.entropy_multiplier_percent * (10 * config.base_temp);
    let total = config.base_temp * HEAT_DENOMINATOR + pressure_component + entropy_component;
    proof {
        lemma_required_heat_range(data_hash@, pressure);
    }
    (2 * total + HEAT_DENOMINATOR) / (2 * HEAT_DENOMINATOR)
}

/// Calculates the heat dissipation rate for cooldown operations.
pub fn calc_cooldown_rate(current_temp: u64, ambient_temp: u64) -> (rate: u64)
    ensures
        rate == cooldown_rate(current_temp, ambient_temp),
        rate >= MIN_COOLDOWN_RATE,
{
    let delta = current_temp.saturating_sub(ambient_temp);
    let rate = if delta % 20 >= 10 {
        delta / 20 + 1
    } else {
        delta / 20
    };
    if rate >= MIN_COOLDOWN_RATE {
        rate
    } else {
        MIN_COOLDOWN_RATE
    }
}

} // verus!
