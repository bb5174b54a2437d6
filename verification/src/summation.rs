use vstd::prelude::*;

verus! {

/// The mathematical sum of a sequence of 32-bit integers.
pub open spec fn sum_of(s: Seq<i32>) -> int
    decreases s.len(),
{
    if s.len() == 0 {
        0
    } else {
        sum_of(s.drop_last()) + s.last()
    }
}

/// Sums the elements of `v`, left to right. The caller keeps every partial
/// sum inside the 32-bit range — the machine limit that makes the additions
/// exact.
pub fn sum(v: Vec<i32>) -> (total: i32)
    requires
        forall|i: int|
            0 <= i <= v@.len() ==> i32::MIN <= sum_of(#[trigger] v@.take(i)) <= i32::MAX,
    ensures
        total == sum_of(v@),
{
    let mut total: i32 = 0;
    let mut idx: usize = 0;
    while idx < v.len()
        invariant
            0 <= idx <= v@.len(),
            total == sum_of(v@.take(idx as int)),
            forall|i: int|
                0 <= i <= v@.len() ==> i32::MIN <= sum_of(#[trigger] v@.take(i)) <= i32::MAX,
        decreases v@.len() - idx,
    {
        proof {
            assert(v@.take(idx as int + 1).drop_last() =~= v@.take(idx as int));
        }
        total = total + v[idx];
        idx = idx + 1;
    }
    proof {
        assert(v@.take(v@.len() as int) =~= v@);
    }
    total
}

/// Sums the elements of `v`, left to right, reporting `None` exactly when
/// some partial sum leaves the 32-bit range — the condition `sum` asks its
/// callers for.
pub fn checked_sum(v: &Vec<i32>) -> (r: Option<i32>)
    ensures
        r is Some <==> (forall|i: int|
            0 <= i <= v@.len() ==> i32::MIN <= sum_of(#[trigger] v@.take(i)) <= i32::MAX),
        r matches Some(total) ==> total == sum_of(v@),
{
    let mut total: i64 = 0;
    let mut idx: usize = 0;
    while idx < v.len()
        invariant
            0 <= idx <= v@.len(),
            total == sum_of(v@.take(idx as int)),
            i32::MIN <= total <= i32::MAX,
            forall|i: int|
                0 <= i <= idx ==> i32::MIN <= sum_of(#[trigger] v@.take(i)) <= i32::MAX,
        decreases v@.len() - idx,
    {
        proof {
            assert(v@.take(idx as int + 1).drop_last() =~= v@.take(idx as int));
        }
        total = total + v[idx] as i64;
        if total < i32::MIN as i64 || total > i32::MAX as i64 {
            proof {
                assert(!(i32::MIN <= sum_of(v@.take(idx as int + 1)) <= i32::MAX));
            }
            return None;
        }
        idx = idx + 1;
    }
    proof {
        assert(v@.take(v@.len() as int) =~= v@);
    }
    Some(total as i32)
}

} // verus!
