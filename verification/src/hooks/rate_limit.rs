//! Sliding-window admission control.
//!
//! A window is a queue of admissions in the order they were made. A check at
//! time `now` first drops from the front every admission older than the
//! window, then counts what is left for the identifier: below the limit the
//! identifier is admitted and joins the queue, otherwise the queue stays.
//! Times are nanoseconds on a clock that never runs backwards.

use crate::text::equal;
use std::collections::VecDeque;
use vstd::prelude::*;
use vstd::string::StringExecFns;

verus! {

/// One admitted request: who, and when.
pub struct Admission {
    pub id: Seq<char>,
    pub at: nat,
}

/// The admissions that a queue holds.
pub open spec fn entries(queue: Seq<(String, u128)>) -> Seq<Admission> {
    Seq::new(queue.len(), |i: int| Admission { id: queue[i].0@, at: queue[i].1 as nat })
}

/// An admission made at `at` is older than the window at `now`.
pub open spec fn is_expired(at: nat, now: nat, window: nat) -> bool {
    now - at > window
}

/// Index of the first admission at or after `from` that is not expired, or
/// the length of the history.
pub open spec fn expired_prefix(history: Seq<Admission>, now: nat, window: nat, from: nat) -> nat
    decreases history.len() - from,
{
    if from < history.len() && is_expired(history[from as int].at, now, window) {
        expired_prefix(history, now, window, from + 1)
    } else {
        from
    }
}

/// The history without the expired admissions at its front.
pub open spec fn evicted(history: Seq<Admission>, now: nat, window: nat) -> Seq<Admission> {
    history.skip(expired_prefix(history, now, window, 0) as int)
}

/// Number of admissions of `id` in a history.
pub open spec fn count_for(history: Seq<Admission>, id: Seq<char>) -> nat
    decreases history.len(),
{
    if history.len() == 0 {
        0
    } else {
        count_for(history.drop_last(), id) + if history.last().id == id {
            1nat
        } else {
            0nat
        }
    }
}

/// Whether a check for `id` at `now` admits.
pub open spec fn admits(history: Seq<Admission>, id: Seq<char>, now: nat, window: nat, max: nat) -> bool {
    count_for(evicted(history, now, window), id) < max
}

/// The history after a check for `id` at `now`.
pub open spec fn after_check(
    history: Seq<Admission>,
    id: Seq<char>,
    now: nat,
    window: nat,
    max: nat,
) -> Seq<Admission> {
    if admits(history, id, now, window, max) {
        evicted(history, now, window).push(Admission { id, at: now })
    } else {
        evicted(history, now, window)
    }
}

/// Admissions stand in the order of their times.
pub open spec fn time_ordered(history: Seq<Admission>) -> bool {
    forall|i: int, j: int| 0 <= i <= j < history.len() ==> history[i].at <= history[j].at
}

/// No identifier has more than `max` admissions.
pub open spec fn within_limit(history: Seq<Admission>, max: nat) -> bool {
    forall|id: Seq<char>| #[trigger] count_for(history, id) <= max
}

/// No admission was made after `latest`.
pub open spec fn not_after(history: Seq<Admission>, latest: nat) -> bool {
    forall|i: int| 0 <= i < history.len() ==> (#[trigger] history[i]).at <= latest
}

/// The invariant of a window: ordered by time, within its limit, and
/// nothing later than the latest time seen.
pub open spec fn well_formed(history: Seq<Admission>, max: nat, latest: nat) -> bool {
    &&& time_ordered(history)
    &&& within_limit(history, max)
    &&& not_after(history, latest)
}

/// Number of admissions of `id` that are not expired at `now`.
pub open spec fn count_live(history: Seq<Admission>, id: Seq<char>, now: nat, window: nat) -> nat
    decreases history.len(),
{
    if history.len() == 0 {
        0
    } else {
        count_live(history.drop_last(), id, now, window) + if history.last().id == id
            && !is_expired(history.last().at, now, window) {
            1nat
        } else {
            0nat
        }
    }
}

proof fn lemma_count_split(history: Seq<Admission>, id: Seq<char>, k: int)
    requires
        0 <= k <= history.len(),
    ensures
        count_for(history, id) == count_for(history.take(k), id) + count_for(history.skip(k), id),
    decreases history.len(),
{
    if k == history.len() {
        assert(history.take(k) =~= history);
        assert(history.skip(k) =~= Seq::<Admission>::empty());
    } else {
        let shorter = history.drop_last();
        lemma_count_split(shorter, id, k);
        assert(shorter.take(k) =~= history.take(k));
        assert(history.skip(k).drop_last() =~= shorter.skip(k));
        assert(history.skip(k).last() == history.last());
    }
}

proof fn lemma_live_split(history: Seq<Admission>, id: Seq<char>, now: nat, window: nat, k: int)
    requires
        0 <= k <= history.len(),
    ensures
        count_live(history, id, now, window) == count_live(history.take(k), id, now, window)
            + count_live(history.skip(k), id, now, window),
    decreases history.len(),
{
    if k == history.len() {
        assert(history.take(k) =~= history);
        assert(history.skip(k) =~= Seq::<Admission>::empty());
    } else {
        let shorter = history.drop_last();
        lemma_live_split(shorter, id, now, window, k);
        assert(shorter.take(k) =~= history.take(k));
        assert(history.skip(k).drop_last() =~= shorter.skip(k));
        assert(history.skip(k).last() == history.last());
    }
}

proof fn lemma_live_at_most_count(history: Seq<Admission>, id: Seq<char>, now: nat, window: nat)
    ensures
        count_live(history, id, now, window) <= count_for(history, id),
    decreases history.len(),
{
    if history.len() > 0 {
        lemma_live_at_most_count(history.drop_last(), id, now, window);
    }
}

proof fn lemma_no_live_in_expired(history: Seq<Admission>, id: Seq<char>, now: nat, window: nat)
    requires
        forall|i: int| 0 <= i < history.len() ==> is_expired((#[trigger] history[i]).at, now, window),
    ensures
        count_live(history, id, now, window) == 0,
    decreases history.len(),
{
    if history.len() > 0 {
        let shorter = history.drop_last();
        assert forall|i: int| 0 <= i < shorter.len() implies is_expired(
            (#[trigger] shorter[i]).at,
            now,
            window,
        ) by {
            assert(shorter[i] == history[i]);
        }
        lemma_no_live_in_expired(shorter, id, now, window);
        assert(is_expired(history[history.len() - 1].at, now, window));
    }
}

proof fn lemma_expired_prefix(history: Seq<Admission>, now: nat, window: nat, from: nat)
    requires
        from <= history.len(),
    ensures
        from <= expired_prefix(history, now, window, from) <= history.len(),
        forall|i: int|
            from <= i < expired_prefix(history, now, window, from) ==> is_expired(
                (#[trigger] history[i]).at,
                now,
                window,
            ),
        expired_prefix(history, now, window, from) < history.len() ==> !is_expired(
            history[expired_prefix(history, now, window, from) as int].at,
            now,
            window,
        ),
    decreases history.len() - from,
{
    if from < history.len() && is_expired(history[from as int].at, now, window) {
        lemma_expired_prefix(history, now, window, from + 1);
    }
}

proof fn lemma_count_one(history: Seq<Admission>, id: Seq<char>, at: int)
    requires
        0 <= at < history.len(),
        history[at].id == id,
    ensures
        count_for(history.take(at + 1), id) >= 1,
{
    let upto = history.take(at + 1);
    assert(upto.last() == history[at]);
}

/// A window that holds as many unexpired admissions of an identifier as
/// its limit allows rejects the identifier.
pub proof fn full_window_rejects(
    history: Seq<Admission>,
    id: Seq<char>,
    now: nat,
    window: nat,
    max: nat,
)
    requires
        count_live(history, id, now, window) >= max,
    ensures
        !admits(history, id, now, window, max),
{
    let k = expired_prefix(history, now, window, 0);
    lemma_expired_prefix(history, now, window, 0);
    lemma_live_split(history, id, now, window, k as int);
    let front = history.take(k as int);
    assert forall|i: int| 0 <= i < front.len() implies is_expired(
        (#[trigger] front[i]).at,
        now,
        window,
    ) by {
        assert(front[i] == history[i]);
    }
    lemma_no_live_in_expired(front, id, now, window);
    lemma_live_at_most_count(history.skip(k as int), id, now, window);
}

/// Once the window has passed since an admission of an identifier, a window
/// that is ordered by time and within its limit admits the identifier
/// again.
pub proof fn elapsed_window_admits(
    history: Seq<Admission>,
    id: Seq<char>,
    now: nat,
    window: nat,
    max: nat,
    oldest: int,
)
    requires
        time_ordered(history),
        within_limit(history, max),
        0 <= oldest < history.len(),
        history[oldest].id == id,
        is_expired(history[oldest].at, now, window),
    ensures
        admits(history, id, now, window, max),
{
    let k = expired_prefix(history, now, window, 0);
    lemma_expired_prefix(history, now, window, 0);
    // Everything up to `oldest` is at least as old, so the front that is
    // dropped reaches past it.
    assert(k > oldest) by {
        if k <= oldest {
            assert(history[k as int].at <= history[oldest].at);
        }
    }
    lemma_count_split(history, id, k as int);
    lemma_count_split(history.take(k as int), id, oldest + 1);
    assert(history.take(k as int).take(oldest + 1) =~= history.take(oldest + 1));
    lemma_count_one(history, id, oldest);
    assert(count_for(history, id) <= max);
}

proof fn lemma_count_skip(history: Seq<Admission>, id: Seq<char>, k: int)
    requires
        0 <= k <= history.len(),
    ensures
        count_for(history.skip(k), id) <= count_for(history, id),
{
    lemma_count_split(history, id, k);
}

/// A check at a time that is not before the latest seen keeps a window
/// well formed.
pub proof fn check_keeps_well_formed(
    history: Seq<Admission>,
    id: Seq<char>,
    now: nat,
    window: nat,
    max: nat,
    latest: nat,
)
    requires
        well_formed(history, max, latest),
        now >= latest,
    ensures
        well_formed(after_check(history, id, now, window, max), max, now),
{
    let k = expired_prefix(history, now, window, 0);
    lemma_expired_prefix(history, now, window, 0);
    let kept = evicted(history, now, window);
    let next = after_check(history, id, now, window, max);
    assert forall|i: int| 0 <= i < kept.len() implies (#[trigger] kept[i]).at <= latest by {
        assert(kept[i] == history[i + k]);
    }
    assert(time_ordered(kept)) by {
        assert forall|i: int, j: int| 0 <= i <= j < kept.len() implies kept[i].at <= kept[j].at by {
            assert(kept[i] == history[i + k]);
            assert(kept[j] == history[j + k]);
        }
    }
    assert forall|other: Seq<char>| #[trigger] count_for(next, other) <= max by {
        lemma_count_skip(history, other, k as int);
        assert(count_for(history, other) <= max);
        if admits(history, id, now, window, max) {
            assert(next.drop_last() =~= kept);
        }
    }
    if admits(history, id, now, window, max) {
        assert forall|i: int, j: int| 0 <= i <= j < next.len() implies next[i].at <= next[j].at by {
            if j < kept.len() {
                assert(kept[i].at <= kept[j].at);
            } else if i < kept.len() {
                assert(kept[i].at <= latest);
            }
        }
        assert forall|i: int| 0 <= i < next.len() implies (#[trigger] next[i]).at <= now by {
            if i < kept.len() {
                assert(kept[i].at <= latest);
            }
        }
    }
}

/// The history after the first `count` of a run of checks for one
/// identifier, made at `times` in turn.
pub open spec fn replayed(
    history: Seq<Admission>,
    id: Seq<char>,
    times: Seq<nat>,
    window: nat,
    max: nat,
    count: nat,
) -> Seq<Admission>
    decreases count,
{
    if count == 0 || count > times.len() {
        history
    } else {
        after_check(
            replayed(history, id, times, window, max, (count - 1) as nat),
            id,
            times[count - 1],
            window,
            max,
        )
    }
}

/// The answer to check number `index` of such a run.
pub open spec fn answered(
    history: Seq<Admission>,
    id: Seq<char>,
    times: Seq<nat>,
    window: nat,
    max: nat,
    index: nat,
) -> bool {
    admits(replayed(history, id, times, window, max, index), id, times[index as int], window, max)
}

/// The admissions of `id` at the first `count` of `times`.
pub open spec fn burst(id: Seq<char>, times: Seq<nat>, count: nat) -> Seq<Admission> {
    Seq::new(count, |i: int| Admission { id, at: times[i] })
}

proof fn lemma_count_burst(id: Seq<char>, times: Seq<nat>, count: nat)
    ensures
        count_for(burst(id, times, count), id) == count,
    decreases count,
{
    if count > 0 {
        lemma_count_burst(id, times, (count - 1) as nat);
        assert(burst(id, times, count).drop_last() =~= burst(id, times, (count - 1) as nat));
    }
}

proof fn lemma_replay_burst(id: Seq<char>, times: Seq<nat>, window: nat, max: nat, count: nat)
    requires
        count <= max,
        count <= times.len(),
        forall|i: int, j: int| 0 <= i <= j < times.len() ==> times[i] <= times[j],
        times.len() > 0 ==> times[times.len() - 1] - times[0] <= window,
    ensures
        replayed(Seq::empty(), id, times, window, max, count) == burst(id, times, count),
        count < times.len() ==> evicted(burst(id, times, count), times[count as int], window)
            == burst(id, times, count),
    decreases count,
{
    if count > 0 {
        lemma_replay_burst(id, times, window, max, (count - 1) as nat);
        let before = burst(id, times, (count - 1) as nat);
        lemma_count_burst(id, times, (count - 1) as nat);
        assert(before.push(Admission { id, at: times[count - 1] }) =~= burst(id, times, count));
    } else {
        assert(burst(id, times, 0) =~= Seq::<Admission>::empty());
    }
    if count < times.len() {
        let held = burst(id, times, count);
        let now = times[count as int];
        lemma_expired_prefix(held, now, window, 0);
        if held.len() > 0 {
            assert(!is_expired(held[0].at, now, window)) by {
                assert(times[0] <= times[count as int] <= times[times.len() - 1]);
            }
        }
        assert(held.skip(0) =~= held);
    }
}

/// On a fresh window, of `max + 1` checks for one identifier within the
/// window the first `max` are admitted and the last one is rejected.
pub proof fn burst_fills_window(id: Seq<char>, times: Seq<nat>, window: nat, max: nat)
    requires
        times.len() == max + 1,
        forall|i: int, j: int| 0 <= i <= j < times.len() ==> times[i] <= times[j],
        times[max as int] - times[0] <= window,
    ensures
        forall|k: nat| k < max ==> #[trigger] answered(Seq::empty(), id, times, window, max, k),
        !answered(Seq::empty(), id, times, window, max, max),
{
    assert forall|k: nat| k <= max implies (#[trigger] answered(
        Seq::empty(),
        id,
        times,
        window,
        max,
        k,
    ) <==> k < max) by {
        lemma_replay_burst(id, times, window, max, k);
        lemma_count_burst(id, times, k);
    }
}

/// `std::time::Instant`, a reading of the monotonic clock. Nothing is known
/// of its inside.
#[verifier::external_type_specification]
#[verifier::external_body]
pub struct ExInstant(std::time::Instant);

/// `std::time::Instant::now` reads the monotonic clock. Nothing is claimed
/// of what it returns.
pub assume_specification[ std::time::Instant::now ]() -> (instant: std::time::Instant)
;

/// `std::time::Instant::elapsed` measures the time since the instant was
/// taken. Nothing is claimed of what it returns.
pub assume_specification[ std::time::Instant::elapsed ](instant: &std::time::Instant) -> (elapsed:
    std::time::Duration)
;

/// `std::time::Duration::as_nanos` gives a duration in whole nanoseconds.
/// Nothing is claimed of what it returns.
pub assume_specification[ std::time::Duration::as_nanos ](duration: &std::time::Duration) -> (nanos:
    u128)
;

/// The configuration of a limiter.
pub struct Limits {
    /// Most admissions per user within the window.
    pub per_user: nat,
    /// Most admissions per channel within the window.
    pub per_channel: nat,
    /// Length of the window in nanoseconds.
    pub window: nat,
}

/// Whether the admission at the front of `queue` is older than the window.
fn front_expired(queue: &VecDeque<(String, u128)>, now: u128, window: u128) -> (expired: bool)
    ensures
        expired == (queue@.len() > 0 && is_expired(
            entries(queue@)[0].at,
            now as nat,
            window as nat,
        )),
{
    if queue.len() == 0 {
        return false;
    }
    let at = queue[0].1;
    now > at && now - at > window
}

/// One check on one queue.
fn check_in(queue: &mut VecDeque<(String, u128)>, id: &str, now: u128, window: u128, max: u32) -> (admitted:
    bool)
    ensures
        admitted == admits(entries(old(queue)@), id@, now as nat, window as nat, max as nat),
        entries(final(queue)@) == after_check(
            entries(old(queue)@),
            id@,
            now as nat,
            window as nat,
            max as nat,
        ),
{
    let ghost start = entries(queue@);
    let ghost mut dropped: nat = 0;
    proof {
        assert(start.skip(0) =~= start);
    }
    while front_expired(queue, now, window)
        invariant
            dropped <= start.len(),
            entries(queue@) == start.skip(dropped as int),
            expired_prefix(start, now as nat, window as nat, 0) == expired_prefix(
                start,
                now as nat,
                window as nat,
                dropped,
            ),
        decreases queue@.len(),
    {
        let ghost before = queue@;
        proof {
            assert(entries(before).len() == before.len());
            assert(entries(before)[0] == start[dropped as int]);
        }
        queue.pop_front();
        proof {
            assert forall|i: int| 0 <= i < queue@.len() implies entries(queue@)[i] == start[
                dropped + 1 + i
            ] by {
                assert(queue@[i] == before[i + 1]);
                assert(entries(before)[i + 1] == start.skip(dropped as int)[i + 1]);
            }
            dropped = dropped + 1;
            assert(entries(queue@) =~= start.skip(dropped as int));
        }
    }
    proof {
        if dropped < start.len() {
            assert(entries(queue@)[0] == start[dropped as int]);
        }
    }
    let ghost kept = entries(queue@);
    assert(kept == evicted(start, now as nat, window as nat));
    let mut count: usize = 0;
    let mut i: usize = 0;
    while i < queue.len()
        invariant
            i <= queue.len(),
            count <= i,
            kept == entries(queue@),
            count == count_for(kept.take(i as int), id@),
        decreases queue.len() - i,
    {
        proof {
            assert(kept.take(i + 1).drop_last() =~= kept.take(i as int));
            assert(kept.take(i + 1).last() == kept[i as int]);
        }
        if equal(queue[i].0.as_str(), id) {
            count += 1;
        }
        i += 1;
    }
    proof {
        assert(kept.take(kept.len() as int) =~= kept);
    }
    if count >= max as usize {
        return false;
    }
    queue.push_back((String::from_str(id), now));
    proof {
        assert(entries(queue@) =~= kept.push(Admission { id: id@, at: now as nat }));
    }
    true
}

/// Sliding-window limiter with one window for users and one for channels.
pub struct RateLimiter {
    per_user: u32,
    per_channel: u32,
    window_secs: u64,
    started: std::time::Instant,
    latest: u128,
    user_history: VecDeque<(String, u128)>,
    channel_history: VecDeque<(String, u128)>,
}

impl RateLimiter {
    /// The limits and the window's length.
    pub closed spec fn limits(&self) -> Limits {
        Limits {
            per_user: self.per_user as nat,
            per_channel: self.per_channel as nat,
            window: (self.window_secs * 1_000_000_000) as nat,
        }
    }

    /// The latest time at which a check was made.
    pub closed spec fn latest(&self) -> nat {
        self.latest as nat
    }

    /// The admissions held for users, oldest first.
    pub closed spec fn user_history(&self) -> Seq<Admission> {
        entries(self.user_history@)
    }

    /// The admissions held for channels, oldest first.
    pub closed spec fn channel_history(&self) -> Seq<Admission> {
        entries(self.channel_history@)
    }

    /// Both windows are well formed. This holds of every limiter.
    pub open spec fn wf(&self) -> bool {
        &&& well_formed(self.user_history(), self.limits().per_user, self.latest())
        &&& well_formed(self.channel_history(), self.limits().per_channel, self.latest())
    }

    #[verifier::type_invariant]
    pub(crate) open spec fn always_well_formed(&self) -> bool {
        self.wf()
    }


    /// A limiter that has admitted nothing yet.
    pub fn new(per_user: u32, per_channel: u32, window_secs: u64) -> (out: Self)
        ensures
            out.wf(),
            out.limits() == (Limits {
                per_user: per_user as nat,
                per_channel: per_channel as nat,
                window: (window_secs * 1_000_000_000) as nat,
            }),
            out.latest() == 0,
            out.user_history() == Seq::<Admission>::empty(),
            out.channel_history() == Seq::<Admission>::empty(),
    {
        let out = RateLimiter {
            per_user,
            per_channel,
            window_secs,
            started: std::time::Instant::now(),
            latest: 0,
            user_history: VecDeque::new(),
            channel_history: VecDeque::new(),
        };
        proof {
            assert(out.user_history() =~= Seq::<Admission>::empty());
            assert(out.channel_history() =~= Seq::<Admission>::empty());
        }
        out
    }

    fn window_nanos(&self) -> (nanos: u128)
        ensures
            nanos == self.limits().window,
    {
        let seconds: u128 = self.window_secs as u128;
        seconds * 1_000_000_000
    }

    /// The time of the next check: the clock's reading, held to the latest
    /// time seen so that time never runs backwards.
    pub fn now(&self) -> (now: u128)
        ensures
            now >= self.latest(),
    {
        let reading = self.started.elapsed().as_nanos();
        if reading < self.latest {
            self.latest
        } else {
            reading
        }
    }

    /// Checks a user in at time `now`.
    pub fn check_user_at(&mut self, user_id: &str, now: u128) -> (admitted: bool)
        requires
            now >= old(self).latest(),
        ensures
            final(self).wf(),
            final(self).limits() == old(self).limits(),
            final(self).latest() == now,
            admitted == admits(
                old(self).user_history(),
                user_id@,
                now as nat,
                old(self).limits().window,
                old(self).limits().per_user,
            ),
            final(self).user_history() == after_check(
                old(self).user_history(),
                user_id@,
                now as nat,
                old(self).limits().window,
                old(self).limits().per_user,
            ),
            final(self).channel_history() == old(self).channel_history(),
    {
        let window = self.window_nanos();
        proof {
            use_type_invariant(&*self);
            check_keeps_well_formed(
                old(self).user_history(),
                user_id@,
                now as nat,
                old(self).limits().window,
                old(self).limits().per_user,
                old(self).latest(),
            );
        }
        self.latest = now;
        let mut history: VecDeque<(String, u128)> = VecDeque::new();
        proof {
            assert(entries(history@) =~= Seq::<Admission>::empty());
        }
        std::mem::swap(&mut history, &mut self.user_history);
        let admitted = check_in(&mut history, user_id, now, window, self.per_user);
        self.user_history = history;
        admitted
    }

    /// Checks a channel in at time `now`.
    pub fn check_channel_at(&mut self, channel_id: &str, now: u128) -> (admitted: bool)
        requires
            now >= old(self).latest(),
        ensures
            final(self).wf(),
            final(self).limits() == old(self).limits(),
            final(self).latest() == now,
            admitted == admits(
                old(self).channel_history(),
                channel_id@,
                now as nat,
                old(self).limits().window,
                old(self).limits().per_channel,
            ),
            final(self).channel_history() == after_check(
                old(self).channel_history(),
                channel_id@,
                now as nat,
                old(self).limits().window,
                old(self).limits().per_channel,
            ),
            final(self).user_history() == old(self).user_history(),
    {
        let window = self.window_nanos();
        proof {
            use_type_invariant(&*self);
            check_keeps_well_formed(
                old(self).channel_history(),
                channel_id@,
                now as nat,
                old(self).limits().window,
                old(self).limits().per_channel,
                old(self).latest(),
            );
        }
        self.latest = now;
        let mut history: VecDeque<(String, u128)> = VecDeque::new();
        proof {
            assert(entries(history@) =~= Seq::<Admission>::empty());
        }
        std::mem::swap(&mut history, &mut self.channel_history);
        let admitted = check_in(&mut history, channel_id, now, window, self.per_channel);
        self.channel_history = history;
        admitted
    }

    /// Checks a user in now. Returns whether the user is admitted.
    pub fn check_user(&mut self, user_id: &str) -> (admitted: bool)
        ensures
            final(self).wf(),
            final(self).limits() == old(self).limits(),
            final(self).latest() >= old(self).latest(),
            admitted == admits(
                old(self).user_history(),
                user_id@,
                final(self).latest(),
                old(self).limits().window,
                old(self).limits().per_user,
            ),
            final(self).user_history() == after_check(
                old(self).user_history(),
                user_id@,
                final(self).latest(),
                old(self).limits().window,
                old(self).limits().per_user,
            ),
            final(self).channel_history() == old(self).channel_history(),
    {
        let now = self.now();
        self.check_user_at(user_id, now)
    }

    /// Checks a channel in now. Returns whether the channel is admitted.
    pub fn check_channel(&mut self, channel_id: &str) -> (admitted: bool)
        ensures
            final(self).wf(),
            final(self).limits() == old(self).limits(),
            final(self).latest() >= old(self).latest(),
            admitted == admits(
                old(self).channel_history(),
                channel_id@,
                final(self).latest(),
                old(self).limits().window,
                old(self).limits().per_channel,
            ),
            final(self).channel_history() == after_check(
                old(self).channel_history(),
                channel_id@,
                final(self).latest(),
                old(self).limits().window,
                old(self).limits().per_channel,
            ),
            final(self).user_history() == old(self).user_history(),
    {
        let now = self.now();
        self.check_channel_at(channel_id, now)
    }
}

} // verus!
