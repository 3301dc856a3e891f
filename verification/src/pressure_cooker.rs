//! Feedstock preparation: validation, digest and integrity metrics.

use vstd::prelude::*;
use crate::digest::{blake3_digest, blake3_hash};
use crate::log_scale::{size_factor, size_factor_of};

verus! {

/// The lowest pressure level at which fusion is permanent.
pub const MIN_PRESSURE: u8 = 90;

/// The largest feedstock accepted, in bytes (10 MiB).
pub const MAX_FEEDSTOCK_LEN: usize = 10_485_760;

/// The compression ratio of feedstock that was not compressed, in parts per
/// thousand.
pub const NO_COMPRESSION_PERMILLE: u16 = 1000;

/// What preparing feedstock yields.
#[derive(Debug, Clone, Copy, PartialEq, Eq)]
pub struct CompressionResult {
    /// BLAKE3 hash of the data.
    pub hash: [u8; 32],
    /// Original data size in bytes.
    pub original_size: u64,
    /// Compression ratio achieved, in parts per thousand (0 - 1000).
    pub compression_ratio_permille: u16,
    /// Integrity checksum.
    pub checksum: u32,
}

/// The sum of the bytes of `data`.
pub open spec fn byte_sum(data: Seq<u8>) -> nat
    decreases data.len(),
{
    if data.len() == 0 {
        0
    } else {
        byte_sum(data.drop_last()) + data.last() as nat
    }
}

/// The additive checksum of `data`: the sum of its bytes modulo 2^32.
pub open spec fn checksum_of(data: Seq<u8>) -> nat {
    byte_sum(data) % 0x1_0000_0000
}

/// Whether feedstock is fit for sintering: not empty and no longer than
/// `MAX_FEEDSTOCK_LEN`.
pub open spec fn is_pure(data: Seq<u8>) -> bool {
    0 < data.len() <= MAX_FEEDSTOCK_LEN
}

/// Computes the additive 32-bit checksum of the data. It is a cheap sanity
/// value and no substitute for the digest.
pub fn rolling_checksum(data: &[u8]) -> (checksum: u32)
    ensures
        checksum == checksum_of(data@),
{
    let mut acc: u32 = 0;
    let mut i: usize = 0;
    while i < data.len()
        invariant
            i <= data.len(),
            acc == checksum_of(data@.take(i as int)),
        decreases data.len() - i,
    {
        proof {
            assert(data@.take(i as int + 1).drop_last() =~= data@.take(i as int));
        }
        acc = acc.wrapping_add(data[i] as u32);
        i = i + 1;
    }
    assert(data@.take(data.len() as int) =~= data@);
    acc
}

/// Prepares raw data for sintering: computes its BLAKE3 hash as the
/// immutable reference to it, its size and its checksum. No compression is
/// applied.
pub fn prepare_feedstock(raw_data: &[u8]) -> (result: CompressionResult)
    ensures
        result.hash@ == blake3_digest(raw_data@),
        result.original_size == raw_data@.len(),
        result.compression_ratio_permille == NO_COMPRESSION_PERMILLE,
        result.checksum == checksum_of(raw_data@),
{
    let hash = blake3_hash(raw_data);
    let checksum = rolling_checksum(raw_data);
    CompressionResult {
        hash,
        original_size: raw_data.len() as u64,
        compression_ratio_permille: NO_COMPRESSION_PERMILLE,
        checksum,
    }
}

/// Validates feedstock purity. Returns true if the data is safe for
/// sintering.
pub fn validate_purity(data: &[u8]) -> (pure: bool)
    ensures
        pure == is_pure(data@),
{
    data.len() > 0 && data.len() <= MAX_FEEDSTOCK_LEN
}

/// What urgency adds to the pressure: twice the urgency, at most 255.
pub open spec fn urgency_factor(urgency: u8) -> int {
    if 2 * urgency <= 255 {
        2 * urgency
    } else {
        255
    }
}

/// The recommended pressure level: `MIN_PRESSURE`, plus the size factor of
/// the data (non-zero for data of two bytes or more), plus the urgency
/// factor, at most 255.
pub open spec fn optimal_pressure(data_size: u64, urgency: u8) -> int {
    let raw = MIN_PRESSURE + size_factor(data_size as nat) + urgency_factor(urgency);
    if raw <= 255 {
        raw
    } else {
        255
    }
}

/// Calculates the pressure level to recommend for data of this size and
/// urgency. Larger data needs more pressure; urgency adds pressure for fast
/// sintering. The result is advisory: sintering does not consult it.
pub fn calculate_optimal_pressure(data_size: u64, urgency: u8) -> (pressure: u8)
    ensures
        pressure == optimal_pressure(data_size, urgency),
        pressure >= MIN_PRESSURE,
{
    let size_factor = size_factor_of(data_size);
    let urgency_factor: u16 = if urgency > 127 {
        255
    } else {
        2 * (urgency as u16)
    };
    let raw: u16 = (MIN_PRESSURE as u16) + (size_factor as u16) + urgency_factor;
    if raw <= 255 {
        raw as u8
    } else {
        255
    }
}

} // verus!
