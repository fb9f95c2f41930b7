use vstd::prelude::*;

verus! {

/// Silence threshold in raw 16-bit amplitude units. This is the normalized
/// threshold 0.02 scaled by 32768 and rounded down.
pub const VAD_THRESHOLD_RAW: i16 = 655;

/// Absolute value of a raw sample amplitude, as a mathematical integer.
pub open spec fn abs_val(s: i16) -> int {
    if s < 0 {
        -(s as int)
    } else {
        s as int
    }
}

/// Sum of the absolute amplitudes of a window.
pub open spec fn sum_abs(s: Seq<i16>) -> int
    decreases s.len(),
{
    if s.len() == 0 {
        0
    } else {
        sum_abs(s.drop_last()) + abs_val(s.last())
    }
}

/// A window is silent when its mean absolute amplitude does not exceed the
/// threshold; stated without division as `sum <= threshold * len`.
pub open spec fn spec_is_silent(s: Seq<i16>, threshold: int) -> bool {
    sum_abs(s) <= threshold * s.len()
}

/// Amplitude analysis over one window: true exactly when the mean absolute
/// amplitude is at or below `threshold`. Pure; no internal state.
pub fn is_silent(window: &[i16], threshold: i16) -> (r: bool)
    requires
        window@.len() <= 0x0800_0000_0000,
    ensures
        r == spec_is_silent(window@, threshold as int),
{
    let len = window.len();
    let mut sum: i64 = 0;
    let mut i: usize = 0;
    while i < len
        invariant
            len == window@.len() <= 0x0800_0000_0000,
            0 <= i <= len,
            sum == sum_abs(window@.subrange(0, i as int)),
            0 <= sum <= 32768 * (i as int),
        decreases len - i,
    {
        let v = window[i];
        let a: i64 = if v < 0 {
            -(v as i64)
        } else {
            v as i64
        };
        proof {
            assert(window@.subrange(0, i + 1).drop_last() =~= window@.subrange(0, i as int));
            assert(window@.subrange(0, i + 1).last() == window@[i as int]);
        }
        sum = sum + a;
        i = i + 1;
    }
    proof {
        assert(window@.subrange(0, len as int) =~= window@);
        let n = len as int;
        let t = threshold as int;
        assert(-32768 * n <= t * n <= 32768 * n) by (nonlinear_arith)
            requires
                -32768 <= t <= 32767,
                0 <= n <= 0x0800_0000_0000,
        ;
    }
    sum <= (threshold as i64) * (len as i64)
}

/// A window of zeros sums to zero amplitude.
pub proof fn lemma_sum_abs_zero(s: Seq<i16>)
    requires
        forall|i: int| 0 <= i < s.len() ==> s[i] == 0,
    ensures
        sum_abs(s) == 0,
    decreases s.len(),
{
    if s.len() > 0 {
        lemma_sum_abs_zero(s.drop_last());
    }
}

/// Every sample at least `bound` in magnitude bounds the sum from below.
pub proof fn lemma_sum_abs_lower(s: Seq<i16>, bound: int)
    requires
        forall|i: int| 0 <= i < s.len() ==> abs_val(s[i]) >= bound,
    ensures
        sum_abs(s) >= bound * s.len(),
    decreases s.len(),
{
    if s.len() == 0 {
        assert(bound * 0 == 0) by (nonlinear_arith);
    } else {
        lemma_sum_abs_lower(s.drop_last(), bound);
        let n = s.len() as int;
        assert(bound * (n - 1) + bound == bound * n) by (nonlinear_arith);
    }
}

/// An all-zero window is silent at any positive threshold.
pub proof fn lemma_all_zero_is_silent(s: Seq<i16>, threshold: int)
    requires
        threshold > 0,
        forall|i: int| 0 <= i < s.len() ==> s[i] == 0,
    ensures
        spec_is_silent(s, threshold),
{
    lemma_sum_abs_zero(s);
    let n = s.len() as int;
    assert(threshold * n >= 0) by (nonlinear_arith)
        requires
            threshold > 0,
            n >= 0,
    ;
}

/// A non-empty window whose every sample exceeds the threshold in magnitude
/// is not silent.
pub proof fn lemma_constant_loud_not_silent(s: Seq<i16>, threshold: int)
    requires
        s.len() > 0,
        forall|i: int| 0 <= i < s.len() ==> abs_val(s[i]) > threshold,
    ensures
        !spec_is_silent(s, threshold),
{
    lemma_sum_abs_lower(s, threshold + 1);
    let n = s.len() as int;
    assert((threshold + 1) * n > threshold * n) by (nonlinear_arith)
        requires
            n > 0,
    ;
}

} // verus!
