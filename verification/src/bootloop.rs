//! Bootloop guard: a sliding window over the times at which the zygote
//! crashed.

use std::collections::VecDeque;
use vstd::prelude::*;

verus! {

/// Default window, in milliseconds (five minutes).
pub const BOOTLOOP_DETECT_DURATION: u64 = 300_000;

/// Default number of crashes inside the window at which the daemon gives up.
pub const BOOTLOOP_DETECT_THRESHOLD: usize = 3;

/// A crash recorded at `time` has left a window of length `duration` by `now`.
pub open spec fn expired(time: u64, duration: u64, now: u64) -> bool {
    time + duration <= now
}

/// Timestamps never decrease from front to back.
pub open spec fn ordered(q: Seq<u64>) -> bool {
    forall|i: int, j: int| 0 <= i <= j < q.len() ==> q[i] <= q[j]
}

/// Number of entries at the front of `q` that have expired by `now`.
pub open spec fn expired_prefix(q: Seq<u64>, duration: u64, now: u64) -> nat
    decreases q.len(),
{
    if q.len() > 0 && expired(q[0], duration, now) {
        1 + expired_prefix(q.drop_first(), duration, now)
    } else {
        0
    }
}

/// The queue after a crash at `now`: the expired front is dropped, `now` is
/// appended.
pub open spec fn after_crash(q: Seq<u64>, duration: u64, now: u64) -> Seq<u64> {
    q.skip(expired_prefix(q, duration, now) as int).push(now)
}

/// The queue after crashes at each of `times`, in order.
pub open spec fn after_crashes(q: Seq<u64>, duration: u64, times: Seq<u64>) -> Seq<u64>
    decreases times.len(),
{
    if times.len() == 0 {
        q
    } else {
        after_crash(after_crashes(q, duration, times.drop_last()), duration, times.last())
    }
}

/// In an ordered queue the expired entries are exactly those of the expired
/// front.
proof fn lemma_expired_prefix_splits(q: Seq<u64>, duration: u64, now: u64)
    requires
        ordered(q),
    ensures
        expired_prefix(q, duration, now) <= q.len(),
        forall|i: int| 0 <= i < expired_prefix(q, duration, now) ==> expired(q[i], duration, now),
        forall|i: int|
            expired_prefix(q, duration, now) <= i < q.len() ==> !expired(q[i], duration, now),
    decreases q.len(),
{
    if q.len() > 0 && expired(q[0], duration, now) {
        let rest = q.drop_first();
        assert forall|i: int, j: int| 0 <= i <= j < rest.len() implies rest[i] <= rest[j] by {
            assert(rest[i] == q[i + 1] && rest[j] == q[j + 1]);
        }
        lemma_expired_prefix_splits(rest, duration, now);
        let n = expired_prefix(q, duration, now);
        assert forall|i: int| 0 <= i < n implies expired(q[i], duration, now) by {
            if i > 0 {
                assert(q[i] == rest[i - 1]);
            }
        }
        assert forall|i: int| n <= i < q.len() implies !expired(q[i], duration, now) by {
            assert(q[i] == rest[i - 1]);
        }
    } else if q.len() > 0 {
        assert forall|i: int| 0 <= i < q.len() implies !expired(q[i], duration, now) by {
            assert(q[0] <= q[i]);
        }
    }
}

/// On each insertion every crash that has left the window is purged: what
/// stays in front of the new entry is, in order, exactly the part of an
/// ordered queue whose age is below the window. An entry strictly older than
/// the window is therefore never kept.
pub proof fn lemma_crash_purges_expired(q: Seq<u64>, duration: u64, now: u64)
    requires
        ordered(q),
    ensures
        after_crash(q, duration, now).last() == now,
        after_crash(q, duration, now).drop_last() == q.skip(
            expired_prefix(q, duration, now) as int,
        ),
        forall|i: int|
            0 <= i < after_crash(q, duration, now).len() - 1 ==> !expired(
                #[trigger] after_crash(q, duration, now)[i],
                duration,
                now,
            ),
        forall|i: int|
            0 <= i < q.len() && !expired(q[i], duration, now) ==> after_crash(
                q,
                duration,
                now,
            ).contains(#[trigger] q[i]),
        forall|i: int|
            0 <= i < q.len() && q[i] + duration < now ==> expired_prefix(q, duration, now) > i,
{
    lemma_expired_prefix_splits(q, duration, now);
    let n = expired_prefix(q, duration, now) as int;
    let kept = q.skip(n);
    let after = after_crash(q, duration, now);
    assert(after.drop_last() == kept);
    assert forall|i: int| 0 <= i < after.len() - 1 implies !expired(
        #[trigger] after[i],
        duration,
        now,
    ) by {
        assert(after[i] == q[n + i]);
    }
    assert forall|i: int| 0 <= i < q.len() && !expired(q[i], duration, now) implies after.contains(
        #[trigger] q[i],
    ) by {
        assert(i >= n);
        assert(after[i - n] == q[i]);
    }
}

/// While every recorded crash is younger than the window, an insertion drops
/// nothing: the queue grows by the new entry alone.
pub proof fn lemma_crash_in_window_keeps_all(q: Seq<u64>, duration: u64, now: u64)
    requires
        forall|i: int| 0 <= i < q.len() ==> !expired(q[i], duration, now),
    ensures
        after_crash(q, duration, now) == q.push(now),
        after_crash(q, duration, now).len() == q.len() + 1,
{
    assert(expired_prefix(q, duration, now) == 0);
    assert(q.skip(0) == q);
}

/// Within a window shorter than `duration` the length never decreases: when
/// the recorded crashes `q` and the crash times `times` that follow them all
/// lie, in order, inside one such window, the queue after the first `i`
/// insertions is `q` followed by those `i` times, so it is no longer than the
/// queue after the first `j >= i` insertions.
pub proof fn lemma_length_monotone_in_window(
    q: Seq<u64>,
    duration: u64,
    times: Seq<u64>,
    i: int,
    j: int,
)
    requires
        ordered(q + times),
        (q + times).len() > 0 ==> (q + times).last() - (q + times)[0] < duration,
        0 <= i <= j <= times.len(),
    ensures
        after_crashes(q, duration, times.take(i)) == q + times.take(i),
        after_crashes(q, duration, times.take(j)) == q + times.take(j),
        after_crashes(q, duration, times.take(i)).len() <= after_crashes(
            q,
            duration,
            times.take(j),
        ).len(),
{
    lemma_crashes_in_window(q, duration, times, i);
    lemma_crashes_in_window(q, duration, times, j);
}

proof fn lemma_crashes_in_window(q: Seq<u64>, duration: u64, times: Seq<u64>, k: int)
    requires
        ordered(q + times),
        (q + times).len() > 0 ==> (q + times).last() - (q + times)[0] < duration,
        0 <= k <= times.len(),
    ensures
        after_crashes(q, duration, times.take(k)) == q + times.take(k),
    decreases k,
{
    let all = q + times;
    if k == 0 {
        assert(times.take(0) == Seq::<u64>::empty());
        assert(q + Seq::<u64>::empty() == q);
    } else {
        lemma_crashes_in_window(q, duration, times, k - 1);
        let head = times.take(k);
        let now = times[k - 1];
        assert(head.drop_last() == times.take(k - 1));
        assert(head.last() == now);
        let before = q + times.take(k - 1);
        assert(all[q.len() + k - 1] == now);
        assert(all[0] <= all.last());
        assert(now <= all.last());
        assert forall|m: int| 0 <= m < before.len() implies !expired(
            before[m],
            duration,
            now,
        ) by {
            assert(before[m] == all[m]);
            assert(all[0] <= all[m]);
        }
        lemma_crash_in_window_keeps_all(before, duration, now);
        assert(before.push(now) == q + head);
    }
}

/// Counts the crashes of the zygote within a sliding window.
pub struct BootloopTracker {
    duration: u64,
    threshold: usize,
    queue: VecDeque<u64>,
}

impl BootloopTracker {
    /// Length of the window, in the unit of the timestamps.
    pub closed spec fn window(&self) -> u64 {
        self.duration
    }

    /// Number of crashes inside the window that counts as a bootloop.
    pub closed spec fn limit(&self) -> usize {
        self.threshold
    }

    /// The recorded crash times, oldest first.
    pub closed spec fn crashes(&self) -> Seq<u64> {
        self.queue@
    }

    /// A tracker without crashes, which gives up at `threshold` crashes
    /// within `duration`.
    pub fn new(duration: u64, threshold: usize) -> (tracker: Self)
        ensures
            tracker.window() == duration,
            tracker.limit() == threshold,
            tracker.crashes() == Seq::<u64>::empty(),
    {
        Self { duration, threshold, queue: VecDeque::new() }
    }

    /// Number of crashes currently held.
    pub fn len(&self) -> (n: usize)
        ensures
            n == self.crashes().len(),
    {
        self.queue.len()
    }

    /// Records a crash of the zygote at `now` and says whether the daemon
    /// must stop: entries that have left the window are dropped from the
    /// front, `now` is appended, and the answer is whether the window then
    /// holds at least `limit()` crashes.
    pub fn zygote_crashed(&mut self, now: u64) -> (exceeded: bool)
        ensures
            final(self).window() == old(self).window(),
            final(self).limit() == old(self).limit(),
            final(self).crashes() == after_crash(old(self).crashes(), old(self).window(), now),
            exceeded == (final(self).crashes().len() >= old(self).limit()),
    {
        let ghost q0 = self.queue@;
        let ghost mut dropped: nat = 0;
        while self.queue.len() > 0
            invariant
                self.duration == old(self).duration,
                self.threshold == old(self).threshold,
                dropped <= q0.len(),
                self.queue@ == q0.skip(dropped as int),
                expired_prefix(q0, self.duration, now) == dropped + expired_prefix(
                    self.queue@,
                    self.duration,
                    now,
                ),
            ensures
                self.duration == old(self).duration,
                self.threshold == old(self).threshold,
                self.queue@ == q0.skip(expired_prefix(q0, self.duration, now) as int),
            decreases self.queue.len(),
        {
            let time: u64 = self.queue[0];
            if now >= time && now - time >= self.duration {
                let ghost before = self.queue@;
                self.queue.pop_front();
                proof {
                    assert(before.drop_first() == before.subrange(1, before.len() as int));
                    assert(before.subrange(1, before.len() as int) == q0.skip(dropped as int + 1));
                    dropped = dropped + 1;
                }
            } else {
                break ;
            }
        }
        self.queue.push_back(now);
        self.queue.len() >= self.threshold
    }
}

} // verus!
