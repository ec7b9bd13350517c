//! Saturating arithmetic on the `i64` logical coordinate space.
//!
//! Positions and motion deltas are plain `i64` scalars in a host-chosen
//! logical unit. Accumulation saturates at the ends of the `i64` range, and
//! is exact whenever no intermediate sum leaves that range.

use vstd::prelude::*;

verus! {

/// Saturating addition, as a mathematical function.
pub open spec fn sat_add(a: int, b: int) -> int {
    if a + b > i64::MAX {
        i64::MAX as int
    } else if a + b < i64::MIN {
        i64::MIN as int
    } else {
        a + b
    }
}

/// Saturating subtraction, as a mathematical function.
pub open spec fn sat_sub(a: int, b: int) -> int {
    if a - b > i64::MAX {
        i64::MAX as int
    } else if a - b < i64::MIN {
        i64::MIN as int
    } else {
        a - b
    }
}

/// Adds two coordinate scalars, clamping at the ends of the `i64` range.
pub fn sat_add_i64(a: i64, b: i64) -> (r: i64)
    ensures
        r as int == sat_add(a as int, b as int),
{
    if b >= 0 {
        if a > i64::MAX - b {
            i64::MAX
        } else {
            a + b
        }
    } else {
        if a < i64::MIN - b {
            i64::MIN
        } else {
            a + b
        }
    }
}

/// Subtracts two coordinate scalars, clamping at the ends of the `i64` range.
pub fn sat_sub_i64(a: i64, b: i64) -> (r: i64)
    ensures
        r as int == sat_sub(a as int, b as int),
{
    if b >= 0 {
        if a < i64::MIN + b {
            i64::MIN
        } else {
            a - b
        }
    } else {
        if a > i64::MAX + b {
            i64::MAX
        } else {
            a - b
        }
    }
}

/// The clock's tick counter: adds one, staying put at the top of the range.
pub open spec fn sat_inc(t: int) -> int {
    if t >= u64::MAX {
        u64::MAX as int
    } else {
        t + 1
    }
}

/// Folds a sequence of deltas into an accumulator with saturating addition,
/// front to back — the order in which raw motion events arrive.
pub open spec fn accumulate(d0: int, ds: Seq<int>) -> int
    decreases ds.len(),
{
    if ds.len() == 0 {
        d0
    } else {
        accumulate(sat_add(d0, ds[0]), ds.skip(1))
    }
}

/// The exact mathematical sum of a sequence of deltas.
pub open spec fn seq_sum(ds: Seq<int>) -> int
    decreases ds.len(),
{
    if ds.len() == 0 {
        0
    } else {
        ds[0] + seq_sum(ds.skip(1))
    }
}

/// Saturating accumulation is exact while every intermediate sum stays in
/// the `i64` range.
pub proof fn lemma_accumulate_exact(d0: int, ds: Seq<int>)
    requires
        forall|i: int|
            0 <= i <= ds.len() ==> i64::MIN <= d0 + #[trigger] seq_sum(ds.take(i)) <= i64::MAX,
    ensures
        accumulate(d0, ds) == d0 + seq_sum(ds),
    decreases ds.len(),
{
    assert(ds.take(0) =~= Seq::<int>::empty());
    if ds.len() == 0 {
        assert(ds.take(ds.len() as int) =~= ds);
    } else {
        assert(ds.take(1) =~= seq![ds[0]]);
        assert(seq_sum(seq![ds[0]]) == ds[0] + seq_sum(seq![ds[0]].skip(1)));
        assert(seq![ds[0]].skip(1) =~= Seq::<int>::empty());
        let d1 = d0 + ds[0];
        assert(sat_add(d0, ds[0]) == d1);
        let tail = ds.skip(1);
        assert forall|i: int| 0 <= i <= tail.len() implies i64::MIN <= d1 + #[trigger] seq_sum(
            tail.take(i),
        ) <= i64::MAX by {
            assert(ds.take(i + 1) =~= seq![ds[0]] + tail.take(i));
            lemma_sum_cons(ds[0], tail.take(i));
            assert(d0 + seq_sum(ds.take(i + 1)) == d1 + seq_sum(tail.take(i)));
        }
        lemma_accumulate_exact(d1, tail);
        assert(ds.take(ds.len() as int) =~= ds);
        lemma_sum_cons(ds[0], tail);
        assert(seq![ds[0]] + tail =~= ds);
    }
}

/// Summing a sequence that starts with `x` adds `x` to the sum of the rest.
pub proof fn lemma_sum_cons(x: int, rest: Seq<int>)
    ensures
        seq_sum(seq![x] + rest) == x + seq_sum(rest),
{
    let s = seq![x] + rest;
    assert(s[0] == x);
    assert(s.skip(1) =~= rest);
}

} // verus!
