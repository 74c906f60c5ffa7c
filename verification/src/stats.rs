//! The sums of a run: how many bytes were handed to transfers, how long the
//! run took, and the average speed that follows.

use vstd::prelude::*;

verus! {

/// Sum of the sizes that the transfers of a run reported.
pub open spec fn sizes_total(sizes: Seq<u64>) -> nat
    decreases sizes.len(),
{
    if sizes.len() == 0 {
        0
    } else {
        sizes_total(sizes.drop_last()) + sizes.last() as nat
    }
}

/// Average speed in bytes per second: the whole quotient of bytes by
/// seconds. A run of less than a second has no finite speed: it is given
/// as the largest number when anything was sent, and as 0 when nothing was.
pub open spec fn speed_of(total_bytes: nat, elapsed_secs: nat) -> nat {
    if elapsed_secs > 0 {
        total_bytes / elapsed_secs
    } else if total_bytes > 0 {
        u64::MAX as nat
    } else {
        0
    }
}

/// The sum of a run's sizes grows with every size added.
pub proof fn lemma_sizes_total_grows(sizes: Seq<u64>, k: int)
    requires
        0 <= k <= sizes.len(),
    ensures
        sizes_total(sizes.take(k)) <= sizes_total(sizes),
    decreases sizes.len() - k,
{
    if k < sizes.len() {
        lemma_sizes_total_grows(sizes, k + 1);
        assert(sizes.take(k + 1).drop_last() =~= sizes.take(k));
    } else {
        assert(sizes.take(k) =~= sizes);
    }
}

/// The sizes that the transfers of a run reported, added up; `None` when
/// the sum does not fit 64 bits.
pub fn total_size(sizes: &Vec<u64>) -> (total: Option<u64>)
    ensures
        match total {
            Some(t) => t == sizes_total(sizes@),
            None => sizes_total(sizes@) > u64::MAX,
        },
{
    let mut sum: u64 = 0;
    let mut i: usize = 0;
    while i < sizes.len()
        invariant
            i <= sizes.len(),
            sum == sizes_total(sizes@.take(i as int)),
        decreases sizes.len() - i,
    {
        proof {
            assert(sizes@.take(i + 1).drop_last() =~= sizes@.take(i as int));
            lemma_sizes_total_grows(sizes@, i + 1);
        }
        match sum.checked_add(sizes[i]) {
            Some(next) => {
                sum = next;
            },
            None => {
                return None;
            },
        }
        i += 1;
    }
    assert(sizes@.take(i as int) =~= sizes@);
    Some(sum)
}

/// Average speed of a run in bytes per second.
pub fn average_speed(total_bytes: u64, elapsed_secs: u64) -> (speed: u64)
    ensures
        speed == speed_of(total_bytes as nat, elapsed_secs as nat),
        elapsed_secs > 0 ==> speed == total_bytes / elapsed_secs,
{
    if elapsed_secs > 0 {
        total_bytes / elapsed_secs
    } else if total_bytes > 0 {
        u64::MAX
    } else {
        0
    }
}

/// What a run reports at its end.
#[derive(Debug, Clone, Copy, PartialEq, Eq, Structural)]
pub struct AggregateStats {
    /// Bytes handed to transfers: the sum of the files' lengths as they
    /// were read before their transfers began.
    pub total_bytes: u64,
    /// Wall-clock duration of the whole run, in seconds.
    pub elapsed_secs: u64,
    /// Bytes per second over the whole run.
    pub average_speed: u64,
}

impl AggregateStats {
    /// The sums of a run from the sizes that its transfers reported and the
    /// time that the run took. Every file counts with the length it had
    /// before its transfer began, once, however it was transferred and
    /// whether or not the transfer went well. `None` when the sum does not
    /// fit 64 bits.
    pub fn collect(sizes: &Vec<u64>, elapsed_secs: u64) -> (stats: Option<AggregateStats>)
        ensures
            sizes_total(sizes@) <= u64::MAX <==> stats is Some,
            stats matches Some(s) ==> s.total_bytes == sizes_total(sizes@) && s.elapsed_secs
                == elapsed_secs && s.average_speed == speed_of(
                sizes_total(sizes@),
                elapsed_secs as nat,
            ),
            stats matches Some(s) ==> (elapsed_secs > 0 ==> s.average_speed == sizes_total(sizes@)
                / elapsed_secs as nat),
    {
        match total_size(sizes) {
            Some(total_bytes) => Some(
                AggregateStats {
                    total_bytes,
                    elapsed_secs,
                    average_speed: average_speed(total_bytes, elapsed_secs),
                },
            ),
            None => None,
        }
    }
}

} // verus!
