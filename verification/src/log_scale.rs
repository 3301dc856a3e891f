//! Five times the binary logarithm of a size, rounded to the nearest
//! integer, in exact arithmetic.
//!
//! `5 * log2(n)` lies within one half of `k` exactly when
//! `4^k <= 2 * n^10 < 4^(k + 1)`, so the rounded value is the integer
//! logarithm of `2 * n^10` to the base 4. No half is ever hit: `n^10` is
//! never an odd power of two.

use vstd::prelude::*;
use vstd::arithmetic::logarithm::{
    lemma_log0,
    lemma_log_is_ordered,
    lemma_log_nonnegative,
    lemma_log_pow,
    lemma_log_s,
    log,
};
use vstd::arithmetic::mul::lemma_mul_upper_bound;
use vstd::arithmetic::power::{lemma_pow0, lemma_pow_positive, pow};

verus! {

/// The largest size factor.
pub const MAX_SIZE_FACTOR: u8 = 100;

/// `SIZE_THRESHOLDS[j]` is the smallest `n` for which `5 * log2(n)` rounds
/// to `j + 1` or more: the smallest `n` with `2 * n^10 >= 4^(j + 1)`.
pub const SIZE_THRESHOLDS: [u64; 100] = [
    2, 2, 2, 2, 2, 3, 3, 3, 4, 4,
    5, 5, 6, 7, 8, 9, 10, 12, 13, 15,
    18, 20, 23, 26, 30, 35, 40, 46, 52, 60,
    69, 79, 91, 104, 120, 138, 158, 182, 208, 239,
    275, 316, 363, 416, 478, 549, 631, 725, 832, 956,
    1098, 1261, 1449, 1664, 1911, 2195, 2522, 2897, 3327, 3822,
    4390, 5043, 5793, 6654, 7644, 8780, 10086, 11586, 13308, 15287,
    17560, 20172, 23171, 26616, 30574, 35120, 40343, 46341, 53232, 61148,
    70240, 80685, 92682, 106464, 122295, 140480, 161369, 185364, 212928, 244590,
    280959, 322738, 370728, 425855, 489179, 561918, 645475, 741456, 851709, 978357,
];

/// `5 * log2(n)` rounded to the nearest integer, for `n >= 1`; 0 for
/// `n == 0`.
pub open spec fn five_log2_rounded(n: nat) -> int {
    log(4, 2 * pow(n as int, 10))
}

/// `five_log2_rounded(n)`, capped at `MAX_SIZE_FACTOR`.
pub open spec fn size_factor(n: nat) -> int {
    if five_log2_rounded(n) <= MAX_SIZE_FACTOR {
        five_log2_rounded(n)
    } else {
        MAX_SIZE_FACTOR as int
    }
}

/// That entry `j` of the table is what its description says: it reaches
/// `4^(j + 1)` and the number below it does not.
pub open spec fn threshold_is_tight(j: int) -> bool {
    &&& 2 * pow(SIZE_THRESHOLDS[j] as int, 10) >= pow(4, (j + 1) as nat)
    &&& 2 * pow(SIZE_THRESHOLDS[j] - 1, 10) < pow(4, (j + 1) as nat)
}

/// `n^10`, written out so that it can be evaluated on a given number.
spec fn tenth_power(n: int) -> int {
    n * (n * (n * (n * (n * (n * (n * (n * (n * (n * 1)))))))))
}

proof fn lemma_tenth_power(n: int)
    ensures
        pow(n, 10) == tenth_power(n),
{
    reveal_with_fuel(pow, 11);
}

/// Powers of non-negative numbers grow with the base.
proof fn lemma_pow_base_monotonic(a: int, b: int, e: nat)
    requires
        0 <= a <= b,
    ensures
        0 <= pow(a, e) <= pow(b, e),
    decreases e,
{
    reveal(pow);
    if e > 0 {
        lemma_pow_base_monotonic(a, b, (e - 1) as nat);
        lemma_mul_upper_bound(a, b, pow(a, (e - 1) as nat), pow(b, (e - 1) as nat));
        assert(0 <= a * pow(a, (e - 1) as nat)) by (nonlinear_arith)
            requires
                0 <= a,
                0 <= pow(a, (e - 1) as nat),
        ;
    }
}

/// From `4^k` on, the logarithm to the base 4 is at least `k`.
proof fn lemma_log4_at_least(x: int, k: nat)
    requires
        pow(4, k) <= x,
    ensures
        log(4, x) >= k,
{
    lemma_pow_positive(4, k);
    lemma_log_is_ordered(4, pow(4, k), x);
    lemma_log_pow(4, k);
}

/// Below `4^(k + 1)`, the logarithm to the base 4 is at most `k`.
proof fn lemma_log4_at_most(x: int, k: nat)
    requires
        0 <= x < pow(4, k + 1),
    ensures
        log(4, x) <= k,
    decreases k,
{
    reveal(pow);
    if x < 4 {
        lemma_log0(4, x);
    } else {
        lemma_log_s(4, x);
        lemma_pow0(4);
        lemma_log4_at_most(x / 4, (k - 1) as nat);
    }
}

/// One step up the table: given `p == 4^j`, holds entry `j` against
/// `4 * p` and hands `4^(j + 1)` on.
proof fn lemma_rung(j: nat, p: int) -> (next: int)
    requires
        j < 100,
        p == pow(4, j),
        2 * tenth_power(SIZE_THRESHOLDS[j as int] as int) >= 4 * p,
        2 * tenth_power(SIZE_THRESHOLDS[j as int] - 1) < 4 * p,
    ensures
        next == 4 * p,
        next == pow(4, j + 1),
        threshold_is_tight(j as int),
{
    reveal(pow);
    lemma_tenth_power(SIZE_THRESHOLDS[j as int] as int);
    lemma_tenth_power(SIZE_THRESHOLDS[j as int] - 1);
    4 * p
}

/// The first 10 entries of the table are tight.
proof fn lemma_thresholds_below_10()
    ensures
        forall|j: int| 0 <= j < 10 ==> threshold_is_tight(j),
        pow(4, 10) == 0x100000int,
{
    let p: int = 1;
    lemma_pow0(4);
    let p = lemma_rung(0, p);
    let p = lemma_rung(1, p);
    let p = lemma_rung(2, p);
    let p = lemma_rung(3, p);
    let p = lemma_rung(4, p);
    let p = lemma_rung(5, p);
    let p = lemma_rung(6, p);
    let p = lemma_rung(7, p);
    let p = lemma_rung(8, p);
    let p = lemma_rung(9, p);
}

/// The first 20 entries of the table are tight.
proof fn lemma_thresholds_below_20()
    ensures
        forall|j: int| 0 <= j < 20 ==> threshold_is_tight(j),
        pow(4, 20) == 0x10000000000int,
{
    lemma_thresholds_below_10();
    let p: int = 0x100000int;
    let p = lemma_rung(10, p);
    let p = lemma_rung(11, p);
    let p = lemma_rung(12, p);
    let p = lemma_rung(13, p);
    let p = lemma_rung(14, p);
    let p = lemma_rung(15, p);
    let p = lemma_rung(16, p);
    let p = lemma_rung(17, p);
    let p = lemma_rung(18, p);
    let p = lemma_rung(19, p);
}

/// The first 30 entries of the table are tight.
proof fn lemma_thresholds_below_30()
    ensures
        forall|j: int| 0 <= j < 30 ==> threshold_is_tight(j),
        pow(4, 30) == 0x1000000000000000int,
{
    lemma_thresholds_below_20();
    let p: int = 0x10000000000int;
    let p = lemma_rung(20, p);
    let p = lemma_rung(21, p);
    let p = lemma_rung(22, p);
    let p = lemma_rung(23, p);
    let p = lemma_rung(24, p);
    let p = lemma_rung(25, p);
    let p = lemma_rung(26, p);
    let p = lemma_rung(27, p);
    let p = lemma_rung(28, p);
    let p = lemma_rung(29, p);
}

/// The first 40 entries of the table are tight.
proof fn lemma_thresholds_below_40()
    ensures
        forall|j: int| 0 <= j < 40 ==> threshold_is_tight(j),
        pow(4, 40) == 0x100000000000000000000int,
{
    lemma_thresholds_below_30();
    let p: int = 0x1000000000000000int;
    let p = lemma_rung(30, p);
    let p = lemma_rung(31, p);
    let p = lemma_rung(32, p);
    let p = lemma_rung(33, p);
    let p = lemma_rung(34, p);
    let p = lemma_rung(35, p);
    let p = lemma_rung(36, p);
    let p = lemma_rung(37, p);
    let p = lemma_rung(38, p);
    let p = lemma_rung(39, p);
}

/// The first 50 entries of the table are tight.
proof fn lemma_thresholds_below_50()
    ensures
        forall|j: int| 0 <= j < 50 ==> threshold_is_tight(j),
        pow(4, 50) == 0x10000000000000000000000000int,
{
    lemma_thresholds_below_40();
    let p: int = 0x100000000000000000000int;
    let p = lemma_rung(40, p);
    let p = lemma_rung(41, p);
    let p = lemma_rung(42, p);
    let p = lemma_rung(43, p);
    let p = lemma_rung(44, p);
    let p = lemma_rung(45, p);
    let p = lemma_rung(46, p);
    let p = lemma_rung(47, p);
    let p = lemma_rung(48, p);
    let p = lemma_rung(49, p);
}

/// The first 60 entries of the table are tight.
proof fn lemma_thresholds_below_60()
    ensures
        forall|j: int| 0 <= j < 60 ==> threshold_is_tight(j),
        pow(4, 60) == 0x1000000000000000000000000000000int,
{
    lemma_thresholds_below_50();
    let p: int = 0x10000000000000000000000000int;
    let p = lemma_rung(50, p);
    let p = lemma_rung(51, p);
    let p = lemma_rung(52, p);
    let p = lemma_rung(53, p);
    let p = lemma_rung(54, p);
    let p = lemma_rung(55, p);
    let p = lemma_rung(56, p);
    let p = lemma_rung(57, p);
    let p = lemma_rung(58, p);
    let p = lemma_rung(59, p);
}

/// The first 70 entries of the table are tight.
proof fn lemma_thresholds_below_70()
    ensures
        forall|j: int| 0 <= j < 70 ==> threshold_is_tight(j),
        pow(4, 70) == 0x100000000000000000000000000000000000int,
{
    lemma_thresholds_below_60();
    let p: int = 0x1000000000000000000000000000000int;
    let p = lemma_rung(60, p);
    let p = lemma_rung(61, p);
    let p = lemma_rung(62, p);
    let p = lemma_rung(63, p);
    let p = lemma_rung(64, p);
    let p = lemma_rung(65, p);
    let p = lemma_rung(66, p);
    let p = lemma_rung(67, p);
    let p = lemma_rung(68, p);
    let p = lemma_rung(69, p);
}

/// The first 80 entries of the table are tight.
proof fn lemma_thresholds_below_80()
    ensures
        forall|j: int| 0 <= j < 80 ==> threshold_is_tight(j),
        pow(4, 80) == 0x10000000000000000000000000000000000000000int,
{
    lemma_thresholds_below_70();
    let p: int = 0x100000000000000000000000000000000000int;
    let p = lemma_rung(70, p);
    let p = lemma_rung(71, p);
    let p = lemma_rung(72, p);
    let p = lemma_rung(73, p);
    let p = lemma_rung(74, p);
    let p = lemma_rung(75, p);
    let p = lemma_rung(76, p);
    let p = lemma_rung(77, p);
    let p = lemma_rung(78, p);
    let p = lemma_rung(79, p);
}

/// The first 90 entries of the table are tight.
proof fn lemma_thresholds_below_90()
    ensures
        forall|j: int| 0 <= j < 90 ==> threshold_is_tight(j),
        pow(4, 90) == 0x1000000000000000000000000000000000000000000000int,
{
    lemma_thresholds_below_80();
    let p: int = 0x10000000000000000000000000000000000000000int;
    let p = lemma_rung(80, p);
    let p = lemma_rung(81, p);
    let p = lemma_rung(82, p);
    let p = lemma_rung(83, p);
    let p = lemma_rung(84, p);
    let p = lemma_rung(85, p);
    let p = lemma_rung(86, p);
    let p = lemma_rung(87, p);
    let p = lemma_rung(88, p);
    let p = lemma_rung(89, p);
}

/// The first 100 entries of the table are tight.
proof fn lemma_thresholds_below_100()
    ensures
        forall|j: int| 0 <= j < 100 ==> threshold_is_tight(j),
        pow(4, 100) == 0x100000000000000000000000000000000000000000000000000int,
{
    lemma_thresholds_below_90();
    let p: int = 0x1000000000000000000000000000000000000000000000int;
    let p = lemma_rung(90, p);
    let p = lemma_rung(91, p);
    let p = lemma_rung(92, p);
    let p = lemma_rung(93, p);
    let p = lemma_rung(94, p);
    let p = lemma_rung(95, p);
    let p = lemma_rung(96, p);
    let p = lemma_rung(97, p);
    let p = lemma_rung(98, p);
    let p = lemma_rung(99, p);
}

/// Every entry of the table is tight.
pub proof fn lemma_thresholds()
    ensures
        forall|j: int| 0 <= j < 100 ==> threshold_is_tight(j),
{
    lemma_thresholds_below_100();
}

/// The rounded logarithm is `k` exactly between the two powers of four
/// around `2 * n^10`.
pub proof fn lemma_five_log2_rounded(n: nat, k: nat)
    requires
        pow(4, k) <= 2 * pow(n as int, 10) < pow(4, k + 1),
    ensures
        five_log2_rounded(n) == k,
{
    lemma_pow_positive(4, k);
    lemma_log4_at_least(2 * pow(n as int, 10), k);
    lemma_log4_at_most(2 * pow(n as int, 10), k);
}

/// The size factor of `n` is the number of thresholds that `n` reaches.
pub proof fn lemma_size_factor(n: nat, k: int)
    requires
        0 <= k <= 100,
        k > 0 ==> SIZE_THRESHOLDS[k - 1] <= n,
        k < 100 ==> n < SIZE_THRESHOLDS[k],
    ensures
        size_factor(n) == k,
{
    lemma_thresholds();
    let x = 2 * pow(n as int, 10);
    lemma_pow_base_monotonic(0, n as int, 10);
    lemma_log_nonnegative(4, x);
    if k > 0 {
        assert(threshold_is_tight(k - 1));
        lemma_pow_base_monotonic(SIZE_THRESHOLDS[k - 1] as int, n as int, 10);
        lemma_log4_at_least(x, k as nat);
    }
    if k < 100 {
        assert(threshold_is_tight(k));
        lemma_pow_base_monotonic(n as int, SIZE_THRESHOLDS[k] - 1, 10);
        lemma_log4_at_most(x, k as nat);
    }
}

/// Computes `5 * log2(data_size)` rounded to the nearest integer and capped
/// at `MAX_SIZE_FACTOR`, by counting the thresholds that the size reaches.
/// A size of 0 has the factor 0.
pub fn size_factor_of(data_size: u64) -> (factor: u8)
    ensures
        factor == size_factor(data_size as nat),
        factor <= MAX_SIZE_FACTOR,
{
    let mut k: usize = 0;
    while k < 100 && SIZE_THRESHOLDS[k] <= data_size
        invariant
            k <= 100,
            k > 0 ==> SIZE_THRESHOLDS[k - 1] <= data_size,
        decreases 100 - k,
    {
        k = k + 1;
    }
    proof {
        lemma_size_factor(data_size as nat, k as int);
    }
    k as u8
}

} // verus!
