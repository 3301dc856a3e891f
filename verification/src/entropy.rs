//! Shannon entropy of a 32-byte hash, in exact fixed-point arithmetic.
//!
//! For a hash of 32 bytes in which byte value `v` occurs `c_v` times, the
//! entropy of the byte histogram is
//!
//! ```text
//! H = -sum_v (c_v / 32) * log2(c_v / 32) = 5 - (sum_v c_v * log2(c_v)) / 32
//! ```
//!
//! bits. Only the 33 values `c * log2(c)` for `0 <= c <= 32` enter it; they
//! are tabulated to nine decimal places, so every quantity here is an
//! integer. The normalised entropy `min(H / 5, 1)` is carried as a multiple of
//! `1 / ENTROPY_ONE`.

use vstd::prelude::*;

verus! {

/// Length of a content hash in bytes.
pub const HASH_LEN: usize = 32;

/// `c * log2(c)` in units of 10^-9 bit, rounded to the nearest unit, for
/// `c` from 0 to 32 (with `0 * log2(0)` taken as 0). The entries at powers
/// of two are exact.
pub const WEIGHTED_LOG2: [u64; 33] = [
    0,
    0,
    2_000_000_000,
    4_754_887_502,
    8_000_000_000,
    11_609_640_474,
    15_509_775_004,
    19_651_484_454,
    24_000_000_000,
    28_529_325_013,
    33_219_280_949,
    38_053_747_805,
    43_019_550_009,
    48_105_716_336,
    53_302_968_909,
    58_603_358_934,
    64_000_000_000,
    69_486_868_301,
    75_058_650_026,
    80_710_622_755,
    86_438_561_898,
    92_238_665_878,
    98_107_495_610,
    104_041_924_989,
    110_039_100_017,
    116_096_404_744,
    122_211_432_672,
    128_381_962_558,
    134_605_937_818,
    140_881_448_859,
    147_206_717_868,
    153_580_085_622,
    160_000_000_000,
];

/// The normalised entropy 1.0 in fixed point: 32 samples times 5 bits times
/// 10^9 units per bit.
pub const ENTROPY_ONE: u64 = 160_000_000_000;

/// `c * log2(c)` in units of 10^-9 bit; 0 for a count no 32-byte hash can
/// have.
pub open spec fn weighted_log2(c: nat) -> nat {
    if c <= 32 {
        WEIGHTED_LOG2[c as int] as nat
    } else {
        0
    }
}

/// How many positions of `s` hold `byte`.
pub open spec fn occurrences(s: Seq<u8>, byte: u8) -> nat
    decreases s.len(),
{
    if s.len() == 0 {
        0
    } else {
        occurrences(s.drop_last(), byte) + if s.last() == byte {
            1nat
        } else {
            0nat
        }
    }
}

/// The sum of `occurrences(s, v)` over the byte values `v < bound`.
pub open spec fn occurrences_below(s: Seq<u8>, bound: nat) -> nat
    decreases bound,
{
    if bound == 0 {
        0
    } else {
        occurrences_below(s, (bound - 1) as nat) + occurrences(s, (bound - 1) as u8)
    }
}

/// The sum of `c_v * log2(c_v)` over the byte values `v < bound`, in units of
/// 10^-9 bit, where `c_v` is the number of times `v` occurs in `s`.
pub open spec fn log_mass_below(s: Seq<u8>, bound: nat) -> nat
    decreases bound,
{
    if bound == 0 {
        0
    } else {
        log_mass_below(s, (bound - 1) as nat) + weighted_log2(
            occurrences(s, (bound - 1) as u8),
        )
    }
}

/// The sum of `c_v * log2(c_v)` over all 256 byte values: what the histogram
/// of `s` lacks of the full 5 bits, times 32.
pub open spec fn log_mass(s: Seq<u8>) -> nat {
    log_mass_below(s, 256)
}

/// The normalised entropy `min(H / 5, 1)` of a 32-byte hash as a multiple of
/// `1 / ENTROPY_ONE`, where `H = 5 - log_mass / 32` bits is the Shannon
/// entropy of its byte histogram.
pub open spec fn normalized_entropy(hash: Seq<u8>) -> int {
    let scaled = ENTROPY_ONE - log_mass(hash);
    if scaled <= ENTROPY_ONE {
        scaled
    } else {
        ENTROPY_ONE as int
    }
}

/// No byte value occurs more often than the sequence is long.
pub proof fn lemma_occurrences_bounded(s: Seq<u8>, byte: u8)
    ensures
        occurrences(s, byte) <= s.len(),
    decreases s.len(),
{
    if s.len() > 0 {
        lemma_occurrences_bounded(s.drop_last(), byte);
    }
}

/// Appending a byte raises the count of that byte by one and leaves the
/// other counts alone.
pub proof fn lemma_occurrences_push(s: Seq<u8>, x: u8, byte: u8)
    ensures
        occurrences(s.push(x), byte) == occurrences(s, byte) + if x == byte {
            1nat
        } else {
            0nat
        },
{
    assert(s.push(x).drop_last() =~= s);
}

/// Appending a byte below the bound raises the sum of the counts by one.
proof fn lemma_occurrences_below_push(s: Seq<u8>, x: u8, bound: nat)
    requires
        bound <= 256,
    ensures
        occurrences_below(s.push(x), bound) == occurrences_below(s, bound) + if x < bound {
            1nat
        } else {
            0nat
        },
    decreases bound,
{
    if bound > 0 {
        lemma_occurrences_below_push(s, x, (bound - 1) as nat);
        lemma_occurrences_push(s, x, (bound - 1) as u8);
    }
}

/// The counts of the 256 byte values add up to the length of the sequence.
pub proof fn lemma_occurrences_total(s: Seq<u8>)
    ensures
        occurrences_below(s, 256) == s.len(),
    decreases s.len(),
{
    if s.len() == 0 {
        lemma_occurrences_below_empty(s, 256);
    } else {
        lemma_occurrences_total(s.drop_last());
        lemma_occurrences_below_push(s.drop_last(), s.last(), 256);
        assert(s.drop_last().push(s.last()) =~= s);
    }
}

/// Nothing occurs in the empty sequence.
proof fn lemma_occurrences_below_empty(s: Seq<u8>, bound: nat)
    requires
        s.len() == 0,
    ensures
        occurrences_below(s, bound) == 0,
    decreases bound,
{
    if bound > 0 {
        lemma_occurrences_below_empty(s, (bound - 1) as nat);
    }
}

/// Each count `c <= 32` weighs at most `5 * c` bits, so the log mass is at
/// most 5 bits per counted sample.
proof fn lemma_log_mass_below_bounded(s: Seq<u8>, bound: nat)
    requires
        s.len() <= 32,
        bound <= 256,
    ensures
        log_mass_below(s, bound) <= 5_000_000_000 * occurrences_below(s, bound),
    decreases bound,
{
    if bound > 0 {
        lemma_log_mass_below_bounded(s, (bound - 1) as nat);
        lemma_occurrences_bounded(s, (bound - 1) as u8);
    }
}

/// A 32-byte hash has between 0 and 5 bits of entropy: its log mass is at
/// most `ENTROPY_ONE`, so its normalised entropy lies in `[0, ENTROPY_ONE]`
/// and the cap at 1 never binds.
pub proof fn lemma_normalized_entropy_range(hash: Seq<u8>)
    requires
        hash.len() == HASH_LEN,
    ensures
        log_mass(hash) <= ENTROPY_ONE,
        normalized_entropy(hash) == ENTROPY_ONE - log_mass(hash),
        0 <= normalized_entropy(hash) <= ENTROPY_ONE,
{
    lemma_log_mass_below_bounded(hash, 256);
    lemma_occurrences_total(hash);
}

/// A byte value that a sequence does not hold occurs in it zero times.
pub proof fn lemma_occurrences_absent(s: Seq<u8>, byte: u8)
    requires
        forall|i: int| 0 <= i < s.len() ==> s[i] != byte,
    ensures
        occurrences(s, byte) == 0,
    decreases s.len(),
{
    if s.len() > 0 {
        lemma_occurrences_absent(s.drop_last(), byte);
    }
}

/// In a sequence that repeats one value, that value occurs everywhere and
/// no other value occurs.
proof fn lemma_occurrences_constant(s: Seq<u8>, value: u8, byte: u8)
    requires
        forall|i: int| 0 <= i < s.len() ==> s[i] == value,
    ensures
        occurrences(s, byte) == if byte == value {
            s.len()
        } else {
            0
        },
    decreases s.len(),
{
    if s.len() > 0 {
        lemma_occurrences_constant(s.drop_last(), value, byte);
    }
}

/// In a sequence without repetition, no value occurs twice.
proof fn lemma_occurrences_distinct(s: Seq<u8>, byte: u8)
    requires
        forall|i: int, j: int| 0 <= i < j < s.len() ==> s[i] != s[j],
    ensures
        occurrences(s, byte) <= 1,
    decreases s.len(),
{
    if s.len() > 0 {
        if s.last() == byte {
            lemma_occurrences_absent(s.drop_last(), byte);
        } else {
            lemma_occurrences_distinct(s.drop_last(), byte);
        }
    }
}

/// A hash that repeats one value carries all its log mass at that value.
proof fn lemma_log_mass_constant(hash: Seq<u8>, value: u8, bound: nat)
    requires
        hash.len() == HASH_LEN,
        forall|i: int| 0 <= i < hash.len() ==> hash[i] == value,
        bound <= 256,
    ensures
        log_mass_below(hash, bound) == if value < bound {
            ENTROPY_ONE as nat
        } else {
            0
        },
    decreases bound,
{
    if bound > 0 {
        lemma_log_mass_constant(hash, value, (bound - 1) as nat);
        lemma_occurrences_constant(hash, value, (bound - 1) as u8);
    }
}

/// A hash without repetition has no log mass: counts of 0 and 1 weigh
/// nothing.
proof fn lemma_log_mass_distinct(hash: Seq<u8>, bound: nat)
    requires
        forall|i: int, j: int| 0 <= i < j < hash.len() ==> hash[i] != hash[j],
        bound <= 256,
    ensures
        log_mass_below(hash, bound) == 0,
    decreases bound,
{
    if bound > 0 {
        lemma_log_mass_distinct(hash, (bound - 1) as nat);
        lemma_occurrences_distinct(hash, (bound - 1) as u8);
    }
}

/// A hash that repeats one byte 32 times has no entropy.
pub proof fn lemma_entropy_of_constant_hash(hash: Seq<u8>, value: u8)
    requires
        hash.len() == HASH_LEN,
        forall|i: int| 0 <= i < hash.len() ==> hash[i] == value,
    ensures
        normalized_entropy(hash) == 0,
{
    lemma_log_mass_constant(hash, value, 256);
}

/// A hash of 32 different bytes has the full 5 bits of entropy.
pub proof fn lemma_entropy_of_distinct_hash(hash: Seq<u8>)
    requires
        hash.len() == HASH_LEN,
        forall|i: int, j: int| 0 <= i < j < hash.len() ==> hash[i] != hash[j],
    ensures
        normalized_entropy(hash) == ENTROPY_ONE,
{
    lemma_log_mass_distinct(hash, 256);
}

/// Counts how often each byte value occurs in the hash.
fn byte_histogram(data: &[u8; 32]) -> (freq: [u32; 256])
    ensures
        forall|b: u8| freq[b as int] == #[trigger] occurrences(data@, b),
{
    let mut freq = [0u32; 256];
    let mut i: usize = 0;
    while i < 32
        invariant
            i <= 32,
            forall|b: u8| freq[b as int] == #[trigger] occurrences(data@.take(i as int), b),
        decreases 32 - i,
    {
        let byte = data[i];
        proof {
            lemma_occurrences_bounded(data@.take(i as int), byte);
            assert(data@.take(i as int + 1) =~= data@.take(i as int).push(byte));
            assert forall|b: u8|
                #![trigger occurrences(data@.take(i as int + 1), b)]
                occurrences(data@.take(i as int + 1), b) == occurrences(data@.take(i as int), b)
                    + if byte == b {
                    1nat
                } else {
                    0nat
                } by {
                lemma_occurrences_push(data@.take(i as int), byte, b);
            }
        }
        freq[byte as usize] = freq[byte as usize] + 1;
        i = i + 1;
    }
    assert(data@.take(32) =~= data@);
    freq
}

/// Computes the normalised Shannon entropy of the hash's byte histogram, as
/// a multiple of `1 / ENTROPY_ONE`. Higher entropy means more random data.
pub fn calculate_entropy(data: &[u8; 32]) -> (entropy: u64)
    ensures
        entropy == normalized_entropy(data@),
        entropy == ENTROPY_ONE - log_mass(data@),
        entropy <= ENTROPY_ONE,
{
    let freq = byte_histogram(data);
    let mut mass: u64 = 0;
    let mut v: usize = 0;
    while v < 256
        invariant
            v <= 256,
            mass == log_mass_below(data@, v as nat),
            mass <= v * ENTROPY_ONE,
            forall|b: u8| freq[b as int] == #[trigger] occurrences(data@, b),
        decreases 256 - v,
    {
        let count = freq[v];
        proof {
            lemma_occurrences_bounded(data@, v as u8);
        }
        if count > 0 {
            mass = mass + WEIGHTED_LOG2[count as usize];
        }
        v = v + 1;
    }
    proof {
        lemma_normalized_entropy_range(data@);
    }
    ENTROPY_ONE - mass
}

} // verus!
