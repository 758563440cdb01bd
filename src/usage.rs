//! Mean CPU utilisation over the logical cores of a machine.
use vstd::prelude::*;

verus! {

/// Utilisation of one fully busy core, in hundredths of a percent.
pub const FULL_CORE: u32 = 10000;

/// Sum of the per-core readings.
pub open spec fn total_usage(s: Seq<u32>) -> int
    decreases s.len(),
{
    if s.len() == 0 {
        0
    } else {
        total_usage(s.drop_last()) + s.last()
    }
}

/// Mean of the per-core readings, rounded down; no cores means no usage.
pub open spec fn mean_usage(s: Seq<u32>) -> int {
    if s.len() == 0 {
        0
    } else {
        total_usage(s) / (s.len() as int)
    }
}

/// Every per-core reading lies between idle and fully busy.
pub open spec fn within_full(s: Seq<u32>) -> bool {
    forall|i: int| 0 <= i < s.len() ==> #[trigger] s[i] <= FULL_CORE
}

proof fn lemma_total_bounded(s: Seq<u32>, bound: int)
    requires
        forall|i: int| 0 <= i < s.len() ==> #[trigger] s[i] <= bound,
    ensures
        0 <= total_usage(s) <= s.len() * bound,
    decreases s.len(),
{
    if s.len() > 0 {
        let t = s.drop_last();
        assert forall|i: int| 0 <= i < t.len() implies #[trigger] t[i] <= bound by {
            assert(t[i] == s[i]);
        }
        lemma_total_bounded(t, bound);
        assert(s.last() <= bound);
        assert(s.len() * bound == t.len() * bound + bound) by (nonlinear_arith)
            requires
                s.len() == t.len() + 1,
        ;
    }
}

proof fn lemma_mean_bounded(s: Seq<u32>, bound: int)
    requires
        forall|i: int| 0 <= i < s.len() ==> #[trigger] s[i] <= bound,
    ensures
        0 <= mean_usage(s),
        s.len() > 0 ==> mean_usage(s) <= bound,
{
    lemma_total_bounded(s, bound);
    if s.len() > 0 {
        let n = s.len() as int;
        let t = total_usage(s);
        assert(t / n <= bound) by (nonlinear_arith)
            requires
                n > 0,
                0 <= t <= n * bound,
        ;
        assert(t / n >= 0) by (nonlinear_arith)
            requires
                n > 0,
                0 <= t,
        ;
    }
}

/// When every core reads between idle and fully busy, so does their mean.
pub proof fn lemma_mean_within_full(s: Seq<u32>)
    requires
        within_full(s),
    ensures
        0 <= mean_usage(s) <= FULL_CORE,
{
    lemma_mean_bounded(s, FULL_CORE as int);
}

/// A machine with no cores reports no usage.
pub proof fn lemma_no_cores_no_usage(s: Seq<u32>)
    requires
        s.len() == 0,
    ensures
        mean_usage(s) == 0,
{
}

/// Mean utilisation across the given per-core readings, rounded down;
/// `0` when there are no readings.
pub fn cpu_usage_percent(per_core: &Vec<u32>) -> (r: u32)
    ensures
        r == mean_usage(per_core@),
        per_core@.len() == 0 ==> r == 0,
        within_full(per_core@) ==> r <= FULL_CORE,
{
    let n = per_core.len();
    if n == 0 {
        return 0;
    }
    let mut sum: u128 = 0;
    let mut i: usize = 0;
    while i < n
        invariant
            n == per_core@.len(),
            i <= n,
            sum == total_usage(per_core@.take(i as int)),
            sum <= i * (u32::MAX as int),
        decreases n - i,
    {
        let v = per_core[i];
        proof {
            let s = per_core@.take(i as int + 1);
            assert(s.drop_last() =~= per_core@.take(i as int));
            assert(sum + v <= (i + 1) * (u32::MAX as int)) by (nonlinear_arith)
                requires
                    sum <= i * (u32::MAX as int),
                    v <= u32::MAX,
            ;
            assert((i + 1) * (u32::MAX as int) <= 0x1_0000_0000_0000_0000 * 0x1_0000_0000)
                by (nonlinear_arith)
                requires
                    i < n,
                    n <= usize::MAX,
                    usize::MAX <= u64::MAX,
            ;
        }
        sum = sum + v as u128;
        i = i + 1;
    }
    assert(per_core@.take(n as int) =~= per_core@);
    proof {
        lemma_mean_bounded(per_core@, u32::MAX as int);
        if within_full(per_core@) {
            lemma_mean_within_full(per_core@);
        }
    }
    let mean = sum / (n as u128);
    mean as u32
}

} // verus!
