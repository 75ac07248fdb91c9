use vstd::prelude::*;

verus! {

/// What a benchmark reports of a scenario: how many iterations were timed,
/// their mean duration (rounded down) and the spread between the slowest and
/// the fastest, all in the unit of the samples.
#[derive(Clone, Copy, Debug, PartialEq, Eq, Structural)]
pub struct Summary {
    pub iterations: usize,
    pub mean: u64,
    pub spread: u64,
}

/// The sum of the samples.
pub open spec fn total_of(s: Seq<u64>) -> int
    decreases s.len(),
{
    if s.len() == 0 {
        0
    } else {
        total_of(s.drop_last()) + s.last()
    }
}

/// The largest sample (0 for no samples).
pub open spec fn max_of(s: Seq<u64>) -> int
    decreases s.len(),
{
    if s.len() == 0 {
        0
    } else if s.len() == 1 {
        s[0] as int
    } else if max_of(s.drop_last()) >= s.last() {
        max_of(s.drop_last())
    } else {
        s.last() as int
    }
}

/// The smallest sample (0 for no samples).
pub open spec fn min_of(s: Seq<u64>) -> int
    decreases s.len(),
{
    if s.len() == 0 {
        0
    } else if s.len() == 1 {
        s[0] as int
    } else if min_of(s.drop_last()) <= s.last() {
        min_of(s.drop_last())
    } else {
        s.last() as int
    }
}

proof fn lemma_bounds(s: Seq<u64>)
    requires
        s.len() > 0,
    ensures
        0 <= min_of(s) <= max_of(s) <= u64::MAX,
        0 <= total_of(s) <= s.len() * u64::MAX,
    decreases s.len(),
{
    let rest = s.drop_last();
    if s.len() > 1 {
        lemma_bounds(rest);
        assert(total_of(rest) + s.last() <= s.len() * u64::MAX) by (nonlinear_arith)
            requires
                total_of(rest) <= rest.len() * u64::MAX,
                s.last() <= u64::MAX,
                rest.len() + 1 == s.len(),
        ;
    } else {
        assert(total_of(rest) == 0);
    }
}

/// Summarises the durations of the timed iterations; `None` when nothing
/// was timed.
pub fn summarize(samples: &Vec<u64>) -> (r: Option<Summary>)
    ensures
        samples@.len() == 0 <==> r is None,
        r matches Some(sm) ==> {
            &&& sm.iterations == samples@.len()
            &&& sm.mean == total_of(samples@) / samples@.len() as int
            &&& sm.spread == max_of(samples@) - min_of(samples@)
        },
{
    let n = samples.len();
    if n == 0 {
        return None;
    }
    let mut total: u128 = samples[0] as u128;
    let mut lo: u64 = samples[0];
    let mut hi: u64 = samples[0];
    let mut i: usize = 1;
    proof {
        let first = samples@.take(1);
        assert(first.drop_last() =~= Seq::<u64>::empty());
        assert(first.last() == samples@[0]);
        assert(total_of(first.drop_last()) == 0);
    }
    while i < n
        invariant
            1 <= i <= n,
            n == samples@.len(),
            total == total_of(samples@.take(i as int)),
            lo == min_of(samples@.take(i as int)),
            hi == max_of(samples@.take(i as int)),
        decreases n - i,
    {
        let x = samples[i];
        proof {
            let next = samples@.take(i as int + 1);
            assert(next.drop_last() =~= samples@.take(i as int));
            assert(next.last() == x);
            lemma_bounds(samples@.take(i as int));
            assert(total + x <= (i + 1) * u64::MAX) by (nonlinear_arith)
                requires
                    total <= i * u64::MAX,
                    x <= u64::MAX,
            ;
            assert((i + 1) * u64::MAX < u128::MAX) by (nonlinear_arith)
                requires
                    i < usize::MAX,
            ;
        }
        total = total + x as u128;
        if x < lo {
            lo = x;
        }
        if x > hi {
            hi = x;
        }
        i = i + 1;
    }
    proof {
        assert(samples@.take(n as int) =~= samples@);
        lemma_bounds(samples@);
        assert((total as int) / (n as int) <= u64::MAX) by (nonlinear_arith)
            requires
                total <= n * u64::MAX,
                n > 0,
        ;
    }
    let mean = (total / n as u128) as u64;
    Some(Summary { iterations: n, mean, spread: hi - lo })
}

} // verus!
