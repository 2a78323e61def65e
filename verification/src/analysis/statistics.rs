//! Summary statistics of series of durations.
use vstd::prelude::*;

verus! {

/// The smallest value of a non-empty series.
pub open spec fn min_of(s: Seq<i64>) -> i64
    decreases s.len(),
{
    if s.len() <= 1 {
        s[0]
    } else {
        let m = min_of(s.drop_last());
        if s.last() < m { s.last() } else { m }
    }
}

/// The largest value of a non-empty series.
pub open spec fn max_of(s: Seq<i64>) -> i64
    decreases s.len(),
{
    if s.len() <= 1 {
        s[0]
    } else {
        let m = max_of(s.drop_last());
        if s.last() > m { s.last() } else { m }
    }
}

/// The sum of a series.
pub open spec fn sum_of(s: Seq<i64>) -> int
    decreases s.len(),
{
    if s.len() == 0 {
        0
    } else {
        sum_of(s.drop_last()) + s.last()
    }
}

/// Integer division that rounds toward zero, as Rust's `/` does.
pub open spec fn div_toward_zero(a: int, b: int) -> int {
    if a >= 0 { a / b } else { -((-a) / b) }
}

/// The mean of a non-empty series, rounded toward zero.
pub open spec fn mean_of(s: Seq<i64>) -> int {
    div_toward_zero(sum_of(s), s.len() as int)
}

/// The sum of `n` values of `i64` is within `n` times the bounds of `i64`.
proof fn lemma_sum_bounds(s: Seq<i64>)
    ensures
        s.len() * i64::MIN <= sum_of(s) <= s.len() * i64::MAX,
    decreases s.len(),
{
    if s.len() > 0 {
        lemma_sum_bounds(s.drop_last());
        assert((s.len() - 1) * i64::MIN + i64::MIN == s.len() * i64::MIN) by (nonlinear_arith);
        assert((s.len() - 1) * i64::MAX + i64::MAX == s.len() * i64::MAX) by (nonlinear_arith);
    }
}

/// The mean of values of `i64`, rounded toward zero, is a value of `i64`.
proof fn lemma_mean_bounds(s: Seq<i64>)
    requires
        s.len() > 0,
    ensures
        i64::MIN <= mean_of(s) <= i64::MAX,
{
    lemma_sum_bounds(s);
    let n = s.len() as int;
    let t = sum_of(s);
    if t >= 0 {
        assert(t / n <= t) by (nonlinear_arith)
            requires t >= 0, n > 0;
        assert(t / n <= i64::MAX) by (nonlinear_arith)
            requires t <= n * i64::MAX, n > 0, t >= 0;
        assert(t / n >= 0) by (nonlinear_arith)
            requires t >= 0, n > 0;
    } else {
        let u = -t;
        assert(u <= n * (-(i64::MIN as int))) by (nonlinear_arith)
            requires t >= n * i64::MIN, u == -t;
        assert(u / n <= -(i64::MIN as int)) by (nonlinear_arith)
            requires u <= n * (-(i64::MIN as int)), n > 0, u >= 0;
        assert(u / n >= 0) by (nonlinear_arith)
            requires u >= 0, n > 0;
    }
}

/// The smallest, the largest and the mean value of a series, or `None` when it is
/// empty. The mean is rounded toward zero.
pub fn calculate_min_max_avg(values: &[i64]) -> (r: Option<(i64, i64, i64)>)
    ensures
        values@.len() == 0 ==> r is None,
        values@.len() > 0 ==> r == Some((min_of(values@), max_of(values@), mean_of(values@) as i64)),
{
    if values.len() == 0 {
        return None;
    }
    let mut min = values[0];
    let mut max = values[0];
    let mut sum: i128 = values[0] as i128;
    let mut i: usize = 1;
    proof {
        let first = values@.subrange(0, 1);
        assert(first.drop_last() =~= Seq::<i64>::empty());
        assert(first.last() == values@[0]);
        assert(sum_of(first) == sum_of(first.drop_last()) + first.last());
    }
    while i < values.len()
        invariant
            1 <= i <= values@.len(),
            min == min_of(values@.subrange(0, i as int)),
            max == max_of(values@.subrange(0, i as int)),
            sum == sum_of(values@.subrange(0, i as int)),
        decreases values@.len() - i,
    {
        proof {
            let prefix = values@.subrange(0, i as int + 1);
            assert(prefix.drop_last() =~= values@.subrange(0, i as int));
            lemma_sum_bounds(prefix);
            assert(i + 1 <= usize::MAX + 1);
            assert((i + 1) * i64::MAX <= (usize::MAX + 1) * i64::MAX) by (nonlinear_arith)
                requires i + 1 <= usize::MAX + 1;
            assert((i + 1) * i64::MIN >= (usize::MAX + 1) * i64::MIN) by (nonlinear_arith)
                requires i + 1 <= usize::MAX + 1;
        }
        let v = values[i];
        if v < min {
            min = v;
        }
        if v > max {
            max = v;
        }
        sum = sum + v as i128;
        i += 1;
    }
    proof {
        assert(values@.subrange(0, i as int) =~= values@);
        lemma_mean_bounds(values@);
        lemma_sum_bounds(values@);
        let n = values@.len();
        assert(n * i64::MIN >= usize::MAX * i64::MIN) by (nonlinear_arith)
            requires n <= usize::MAX;
    }
    let n = values.len() as i128;
    let mean = if sum >= 0 { sum / n } else { -((-sum) / n) };
    Some((min, max, mean as i64))
}


/// The mean of a non-empty series, rounded toward zero.
pub fn mean(values: &[i64]) -> (r: i64)
    requires
        values@.len() > 0,
    ensures
        r == mean_of(values@),
{
    match calculate_min_max_avg(values) {
        Some((_, _, m)) => {
            proof {
                lemma_mean_bounds(values@);
            }
            m
        },
        None => vstd::pervasive::unreached(),
    }
}

} // verus!
