//! The statistics of a run, in two tiers: each worker counts into a
//! [`LocalCollector`] of its own, and the [`Collector`] of the whole run
//! takes each of them in once, when its worker ends.
//!
//! Instants and durations are whole nanoseconds. Quotients are fixed-point:
//! throughput and transfer rates are given in thousandths of their unit,
//! rounded down.
//!
//! A [`Collector`] is a plain value, and its contracts say what each call
//! does to it when the calls come one after the other. A program whose
//! workers run side by side shares it behind a lock.

use crate::error::{Error, ErrorView};
use vstd::prelude::*;

verus! {

/// The divisor of the transfer rates, in bytes.
pub const MEGABIT: u64 = 10485760;

/// Nanoseconds in a second.
pub const NANOS_PER_SEC: u128 = 1000000000;

/// Nanoseconds in a second, times the thousand of the fixed-point scale.
pub const MILLI_PER_NANO_SEC: u128 = 1000000000000;

/// The sum of a list of samples.
pub open spec fn sum(samples: Seq<u128>) -> nat
    decreases samples.len(),
{
    if samples.len() == 0 {
        0
    } else {
        sum(samples.drop_last()) + samples.last() as nat
    }
}

/// No sample is followed by a smaller one.
pub open spec fn ascending(samples: Seq<u128>) -> bool {
    forall|i: int, j: int| 0 <= i <= j < samples.len() ==> samples[i] <= samples[j]
}

/// The index of the nearest-rank percentile `percent` in a sorted list of
/// `len > 0` samples: `len * percent / 100`, and the last index where that
/// lies beyond it.
pub open spec fn rank(len: nat, percent: nat) -> int {
    if len * percent / 100 < len - 1 {
        (len * percent / 100) as int
    } else {
        len - 1
    }
}

/// The nearest-rank percentile `percent` of a sorted list of samples, and 0
/// of an empty list.
pub open spec fn percentile(sorted: Seq<u128>, percent: nat) -> u128 {
    if sorted.len() == 0 {
        0
    } else {
        sorted[rank(sorted.len(), percent)]
    }
}

/// Events per second in thousandths, over a duration in nanoseconds; 0 over
/// no time at all.
pub open spec fn throughput(successes: nat, duration: nat) -> nat {
    if duration == 0 {
        0
    } else {
        successes * 1000000000000 / duration
    }
}

/// Megabits per second in thousandths: the bytes divided by [`MEGABIT`],
/// then by the seconds; 0 over no time at all.
pub open spec fn rate(bytes: nat, duration: nat) -> nat {
    if duration == 0 {
        0
    } else {
        bytes * 1000000000000 / 10485760 / duration
    }
}

/// The mean latency of the successes in nanoseconds; 0 where there were none.
pub open spec fn avg_latency(successes: nat, total_latency: nat) -> nat {
    if successes == 0 {
        0
    } else {
        total_latency / successes
    }
}

/// The counters of a [`LocalCollector`] or of a [`Collector`], each as a
/// natural number, and the latency samples in the order they are held.
pub struct StatsView {
    pub attempts: nat,
    pub successes: nat,
    pub failures: nat,
    pub connections_opened: nat,
    pub bytes_sent: nat,
    pub bytes_received: nat,
    pub total_latency: nat,
    pub latencies: Seq<u128>,
}

impl StatsView {
    /// Nothing counted yet.
    pub open spec fn zero() -> StatsView {
        StatsView {
            attempts: 0,
            successes: 0,
            failures: 0,
            connections_opened: 0,
            bytes_sent: 0,
            bytes_received: 0,
            total_latency: 0,
            latencies: Seq::empty(),
        }
    }

    /// What holds of the counters whatever was recorded: every attempt
    /// either succeeded or failed, no connection was opened without an
    /// attempt, each success left one sample, and the cumulative latency is
    /// the sum of the samples.
    pub open spec fn consistent(self) -> bool {
        &&& self.attempts == self.successes + self.failures
        &&& self.connections_opened <= self.attempts
        &&& self.latencies.len() == self.successes
        &&& self.total_latency == sum(self.latencies)
    }

    /// The counters fit the machine integers that hold them.
    pub open spec fn bounded(self) -> bool {
        &&& self.attempts <= u32::MAX
        &&& self.successes <= u32::MAX
        &&& self.failures <= u32::MAX
        &&& self.connections_opened <= u32::MAX
        &&& self.bytes_sent <= u64::MAX
        &&& self.bytes_received <= u64::MAX
        &&& self.total_latency <= u128::MAX
    }

    /// After one more success that took `latency`.
    pub open spec fn with_success(self, latency: u128) -> StatsView {
        StatsView {
            attempts: self.attempts + 1,
            successes: self.successes + 1,
            total_latency: self.total_latency + latency as nat,
            latencies: self.latencies.push(latency),
            ..self
        }
    }

    /// After one more failure.
    pub open spec fn with_failure(self) -> StatsView {
        StatsView { attempts: self.attempts + 1, failures: self.failures + 1, ..self }
    }

    /// After one more connection.
    pub open spec fn with_connection(self) -> StatsView {
        StatsView { connections_opened: self.connections_opened + 1, ..self }
    }

    /// After `sent` and `received` more bytes.
    pub open spec fn with_bytes(self, sent: nat, received: nat) -> StatsView {
        StatsView {
            bytes_sent: self.bytes_sent + sent,
            bytes_received: self.bytes_received + received,
            ..self
        }
    }

    /// With the counters of `other` added, and its samples after these.
    pub open spec fn merged(self, other: StatsView) -> StatsView {
        StatsView {
            attempts: self.attempts + other.attempts,
            successes: self.successes + other.successes,
            failures: self.failures + other.failures,
            connections_opened: self.connections_opened + other.connections_opened,
            bytes_sent: self.bytes_sent + other.bytes_sent,
            bytes_received: self.bytes_received + other.bytes_received,
            total_latency: self.total_latency + other.total_latency,
            latencies: self.latencies + other.latencies,
        }
    }

    /// With the same samples in the order `samples`.
    pub open spec fn reordered(self, samples: Seq<u128>) -> StatsView {
        StatsView { latencies: samples, ..self }
    }
}

/// The sum of a list with one more sample.
pub proof fn lemma_sum_push(samples: Seq<u128>, sample: u128)
    ensures
        sum(samples.push(sample)) == sum(samples) + sample as nat,
{
    assert(samples.push(sample).drop_last() =~= samples);
}

/// The sum of two lists, one after the other.
pub proof fn lemma_sum_concat(a: Seq<u128>, b: Seq<u128>)
    ensures
        sum(a + b) == sum(a) + sum(b),
    decreases b.len(),
{
    if b.len() > 0 {
        assert((a + b).drop_last() =~= a + b.drop_last());
        lemma_sum_concat(a, b.drop_last());
    }
}

/// The sum of a list without the sample at `i`.
pub proof fn lemma_sum_remove(samples: Seq<u128>, i: int)
    requires
        0 <= i < samples.len(),
    ensures
        sum(samples) == sum(samples.remove(i)) + samples[i] as nat,
    decreases samples.len(),
{
    if i < samples.len() - 1 {
        lemma_sum_remove(samples.drop_last(), i);
        assert(samples.remove(i).drop_last() =~= samples.drop_last().remove(i));
    }
}

/// Two lists of the same samples, in whatever order, have the same sum.
pub proof fn lemma_sum_reordered(a: Seq<u128>, b: Seq<u128>)
    requires
        a.to_multiset() == b.to_multiset(),
    ensures
        a.len() == b.len(),
        sum(a) == sum(b),
    decreases a.len(),
{
    broadcast use vstd::seq_lib::group_to_multiset_ensures;

    assert(b.len() == b.to_multiset().len());
    if a.len() > 0 {
        let last = a.last();
        assert(b.to_multiset().count(last) > 0);
        let j = choose|j: int| 0 <= j < b.len() && b[j] == last;
        assert(a.drop_last() =~= a.remove(a.len() - 1));
        lemma_sum_reordered(a.drop_last(), b.remove(j));
        lemma_sum_remove(b, j);
    }
}

/// Of a sorted list, percentile 0 is the least sample and percentile 100
/// the greatest.
pub proof fn lemma_percentile_extremes(sorted: Seq<u128>)
    requires
        ascending(sorted),
        sorted.len() > 0,
    ensures
        percentile(sorted, 0) == sorted.first(),
        percentile(sorted, 100) == sorted.last(),
        forall|k: int|
            0 <= k < sorted.len() ==> percentile(sorted, 0) <= #[trigger] sorted[k] <= percentile(
                sorted,
                100,
            ),
{
}

/// Of a sorted list, no percentile from 0 to 100 lies below percentile 0
/// or above percentile 100. Of an empty list every percentile is 0.
pub proof fn lemma_percentile_between(sorted: Seq<u128>, percent: nat)
    requires
        ascending(sorted),
        percent <= 100,
    ensures
        percentile(sorted, 0) <= percentile(sorted, percent) <= percentile(sorted, 100),
        sorted.len() == 0 ==> percentile(sorted, percent) == 0,
{
    if sorted.len() > 0 {
        lemma_percentile_extremes(sorted);
        lemma_rank_in_range(sorted.len(), percent);
    }
}

/// The rank of a percentile is an index of the list.
pub proof fn lemma_rank_in_range(len: nat, percent: nat)
    requires
        len > 0,
    ensures
        0 <= rank(len, percent) < len,
{
    assert(len * percent >= 0) by (nonlinear_arith)
        requires
            len >= 0,
            percent >= 0,
    ;
}

/// A higher percentile of a sorted list is no smaller than a lower one.
pub proof fn lemma_percentile_monotone(sorted: Seq<u128>, low: nat, high: nat)
    requires
        ascending(sorted),
        low <= high,
    ensures
        percentile(sorted, low) <= percentile(sorted, high),
{
    if sorted.len() > 0 {
        let len = sorted.len();
        lemma_rank_in_range(len, low);
        lemma_rank_in_range(len, high);
        assert(len * low <= len * high) by (nonlinear_arith)
            requires
                low <= high,
                len >= 0,
        ;
    }
}

/// Every percentile of a list that is not empty is one of its samples.
pub proof fn lemma_percentile_is_sample(sorted: Seq<u128>, percent: nat)
    requires
        sorted.len() > 0,
    ensures
        sorted.contains(percentile(sorted, percent)),
{
    lemma_rank_in_range(sorted.len(), percent);
}

/// What one list holds, a list of the same samples holds too.
pub proof fn lemma_same_samples(a: Seq<u128>, b: Seq<u128>, sample: u128)
    requires
        a.to_multiset() == b.to_multiset(),
        a.contains(sample),
    ensures
        b.contains(sample),
{
    broadcast use vstd::seq_lib::group_to_multiset_ensures;

    assert(b.to_multiset().count(sample) > 0);
}

/// Merging adds up: from nothing, taking in `a` and then `b` gives every
/// counter the sum of theirs, and the samples of `a` followed by those of
/// `b`. No counter ever goes down by a merge.
pub proof fn lemma_merge_adds(base: StatsView, a: StatsView, b: StatsView)
    ensures
        StatsView::zero().merged(a).merged(b).attempts == a.attempts + b.attempts,
        StatsView::zero().merged(a).merged(b).successes == a.successes + b.successes,
        StatsView::zero().merged(a).merged(b).failures == a.failures + b.failures,
        StatsView::zero().merged(a).merged(b).connections_opened == a.connections_opened
            + b.connections_opened,
        StatsView::zero().merged(a).merged(b).bytes_sent == a.bytes_sent + b.bytes_sent,
        StatsView::zero().merged(a).merged(b).bytes_received == a.bytes_received
            + b.bytes_received,
        StatsView::zero().merged(a).merged(b).total_latency == a.total_latency + b.total_latency,
        StatsView::zero().merged(a).merged(b).latencies == a.latencies + b.latencies,
        base.merged(a).attempts >= base.attempts,
        base.merged(a).successes >= base.successes,
        base.merged(a).failures >= base.failures,
        base.merged(a).connections_opened >= base.connections_opened,
        base.merged(a).bytes_sent >= base.bytes_sent,
        base.merged(a).bytes_received >= base.bytes_received,
        base.merged(a).total_latency >= base.total_latency,
{
}

/// Consistent counters stay consistent when they are merged.
pub proof fn lemma_merge_consistent(a: StatsView, b: StatsView)
    requires
        a.consistent(),
        b.consistent(),
    ensures
        a.merged(b).consistent(),
{
    lemma_sum_concat(a.latencies, b.latencies);
}

/// What the results of consistent counters always show: every attempt is
/// a success or a failure, no more connections than attempts, nothing per
/// second over no time, and a mean latency that is the cumulative latency
/// divided by the successes, rounded down.
pub proof fn lemma_results_consistent(stats: StatsView, duration: nat)
    requires
        stats.consistent(),
    ensures
        results_of(stats, duration).attempts == results_of(stats, duration).successes
            + results_of(stats, duration).failures,
        results_of(stats, duration).connections_opened <= results_of(stats, duration).attempts,
        duration == 0 ==> results_of(stats, duration).throughput == 0 && results_of(
            stats,
            duration,
        ).send_rate == 0 && results_of(stats, duration).receive_rate == 0,
        stats.successes > 0 ==> results_of(stats, duration).latency_avg * stats.successes
            <= sum(stats.latencies) < (results_of(stats, duration).latency_avg + 1)
            * stats.successes,
        stats.successes == 0 ==> results_of(stats, duration).latency_avg == 0,
{
    if stats.successes > 0 {
        let n = stats.successes as int;
        let t = stats.total_latency as int;
        assert((t / n) * n <= t < (t / n + 1) * n) by (nonlinear_arith)
            requires
                n > 0,
                t >= 0,
        ;
    }
}

struct Stats {
    attempts: u32,
    successes: u32,
    failures: u32,
    connections_opened: u32,
    bytes_sent: u64,
    bytes_received: u64,
    total_latency: u128,
    latencies: Vec<u128>,
}

impl View for Stats {
    type V = StatsView;

    closed spec fn view(&self) -> StatsView {
        StatsView {
            attempts: self.attempts as nat,
            successes: self.successes as nat,
            failures: self.failures as nat,
            connections_opened: self.connections_opened as nat,
            bytes_sent: self.bytes_sent as nat,
            bytes_received: self.bytes_received as nat,
            total_latency: self.total_latency as nat,
            latencies: self.latencies@,
        }
    }
}

impl Stats {
    fn new() -> (stats: Stats)
        ensures
            stats@ == StatsView::zero(),
            stats@.consistent(),
            stats@.bounded(),
    {
        Stats {
            attempts: 0,
            successes: 0,
            failures: 0,
            connections_opened: 0,
            bytes_sent: 0,
            bytes_received: 0,
            total_latency: 0,
            latencies: Vec::new(),
        }
    }
}

/// The accumulator of one worker. Nothing is shared: the worker that owns
/// it is the only one to write to it, and hands it over when it ends.
pub struct LocalCollector {
    stats: Stats,
}

impl View for LocalCollector {
    type V = StatsView;

    closed spec fn view(&self) -> StatsView {
        self.stats@
    }
}

impl LocalCollector {
    /// The counters are consistent and fit their integers.
    pub open spec fn wf(&self) -> bool {
        self@.consistent() && self@.bounded()
    }

    /// Whatever was counted fits the integers that hold it.
    pub proof fn lemma_bounded(&self)
        ensures
            self@.bounded(),
    {
    }

    /// An accumulator that has counted nothing.
    pub fn new() -> (local: LocalCollector)
        ensures
            local@ == StatsView::zero(),
            local.wf(),
    {
        LocalCollector { stats: Stats::new() }
    }

    /// Whether one more attempt that took `latency` can be counted: the
    /// attempts and the cumulative latency stay within their integers.
    pub fn has_room(&self, latency: u128) -> (room: bool)
        ensures
            room == (self@.attempts < u32::MAX && self@.total_latency + latency <= u128::MAX),
    {
        self.stats.attempts < u32::MAX && latency <= u128::MAX - self.stats.total_latency
    }

    /// Counts a request that was sent at `start` and answered in full at
    /// `end`: one attempt, one success, one latency sample of `end - start`.
    pub fn success(&mut self, start: u128, end: u128)
        requires
            old(self).wf(),
            start <= end,
            old(self)@.attempts < u32::MAX,
            old(self)@.total_latency + (end - start) <= u128::MAX,
        ensures
            final(self)@ == old(self)@.with_success((end - start) as u128),
            final(self).wf(),
    {
        let latency: u128 = end - start;
        proof {
            lemma_sum_push(self.stats.latencies@, latency);
        }
        self.stats.attempts = self.stats.attempts + 1;
        self.stats.successes = self.stats.successes + 1;
        self.stats.total_latency = self.stats.total_latency + latency;
        self.stats.latencies.push(latency);
    }

    /// Counts a request that failed: one attempt, one failure.
    pub fn failure(&mut self)
        requires
            old(self).wf(),
            old(self)@.attempts < u32::MAX,
        ensures
            final(self)@ == old(self)@.with_failure(),
            final(self).wf(),
    {
        self.stats.attempts = self.stats.attempts + 1;
        self.stats.failures = self.stats.failures + 1;
    }

    /// Counts a connection that a counted attempt opened.
    pub fn connection_opened(&mut self)
        requires
            old(self).wf(),
            old(self)@.connections_opened < old(self)@.attempts,
        ensures
            final(self)@ == old(self)@.with_connection(),
            final(self).wf(),
    {
        self.stats.connections_opened = self.stats.connections_opened + 1;
    }
}

/// An interval counter after one more event. It wraps around rather than
/// stop the run.
pub open spec fn next_count(count: u32) -> u32 {
    if count == u32::MAX {
        0
    } else {
        (count + 1) as u32
    }
}

/// The state of a [`Collector`].
pub struct CollectorView {
    /// Set once the run is over; never unset.
    pub stopped: bool,
    /// Set while requests are sent but not counted.
    pub warming_up: bool,
    /// Successes since the last tick.
    pub interval_successes: u32,
    /// Failures since the last tick.
    pub interval_failures: u32,
    /// The last error since the last tick.
    pub last_error: Option<ErrorView>,
    /// What the workers that ended have handed over, and the bytes of the
    /// connections that were closed.
    pub stats: StatsView,
}

/// The statistics of the whole run.
pub struct Collector {
    stopped: bool,
    warming_up: bool,
    interval_successes: u32,
    interval_failures: u32,
    last_error: Option<Error>,
    stats: Stats,
}

impl View for Collector {
    type V = CollectorView;

    closed spec fn view(&self) -> CollectorView {
        CollectorView {
            stopped: self.stopped,
            warming_up: self.warming_up,
            interval_successes: self.interval_successes,
            interval_failures: self.interval_failures,
            last_error: match self.last_error {
                Some(e) => Some(e@),
                None => None,
            },
            stats: self.stats@,
        }
    }
}

impl Collector {
    /// The merged counters are consistent and fit their integers.
    pub open spec fn wf(&self) -> bool {
        self@.stats.consistent() && self@.stats.bounded()
    }

    /// A collector of a run that has not begun: not stopped, not warming
    /// up, nothing counted.
    pub fn new() -> (collector: Collector)
        ensures
            collector@ == (CollectorView {
                stopped: false,
                warming_up: false,
                interval_successes: 0,
                interval_failures: 0,
                last_error: None,
                stats: StatsView::zero(),
            }),
            collector.wf(),
    {
        Collector {
            stopped: false,
            warming_up: false,
            interval_successes: 0,
            interval_failures: 0,
            last_error: None,
            stats: Stats::new(),
        }
    }

    /// Ends the run. Every later call of `stopped`, `success` and `failure`
    /// tells so.
    pub fn stop(&mut self)
        ensures
            final(self)@ == (CollectorView { stopped: true, ..old(self)@ }),
    {
        self.stopped = true;
    }

    /// Begins or ends the warm-up.
    pub fn set_warming_up(&mut self, warming: bool)
        ensures
            final(self)@ == (CollectorView { warming_up: warming, ..old(self)@ }),
    {
        self.warming_up = warming;
    }

    /// Whether requests are sent but not counted.
    pub fn warming_up(&self) -> (warming: bool)
        ensures
            warming == self@.warming_up,
    {
        self.warming_up
    }

    /// Whether the run is over.
    pub fn stopped(&self) -> (stopped: bool)
        ensures
            stopped == self@.stopped,
    {
        self.stopped
    }

    /// A worker's request succeeded. The interval counter always moves;
    /// the worker's own counters only when the warm-up is over. Returns
    /// whether the run is over.
    pub fn success(&mut self, local: &mut LocalCollector, start: u128, end: u128) -> (stopped:
        bool)
        requires
            old(local).wf(),
            !old(self)@.warming_up ==> start <= end && old(local)@.attempts < u32::MAX && old(
                local,
            )@.total_latency + (end - start) <= u128::MAX,
        ensures
            final(self)@ == (CollectorView {
                interval_successes: next_count(old(self)@.interval_successes),
                ..old(self)@
            }),
            final(local)@ == if old(self)@.warming_up {
                old(local)@
            } else {
                old(local)@.with_success((end - start) as u128)
            },
            final(local).wf(),
            stopped == old(self)@.stopped,
    {
        self.interval_successes = self.interval_successes.wrapping_add(1);
        if !self.warming_up {
            local.success(start, end);
        }
        self.stopped
    }

    /// A worker's request failed with `err`, which becomes the last error.
    /// The interval counter always moves; the worker's own counters only
    /// when the warm-up is over. Returns whether the run is over.
    pub fn failure(&mut self, local: &mut LocalCollector, err: Error) -> (stopped: bool)
        requires
            old(local).wf(),
            !old(self)@.warming_up ==> old(local)@.attempts < u32::MAX,
        ensures
            final(self)@ == (CollectorView {
                interval_failures: next_count(old(self)@.interval_failures),
                last_error: Some(err@),
                ..old(self)@
            }),
            final(local)@ == if old(self)@.warming_up {
                old(local)@
            } else {
                old(local)@.with_failure()
            },
            final(local).wf(),
            stopped == old(self)@.stopped,
    {
        self.interval_failures = self.interval_failures.wrapping_add(1);
        self.last_error = Some(err);
        if !self.warming_up {
            local.failure();
        }
        self.stopped
    }

    /// Counts a connection that a counted attempt of `local`'s worker
    /// opened.
    pub fn connection_opened(local: &mut LocalCollector)
        requires
            old(local).wf(),
            old(local)@.connections_opened < old(local)@.attempts,
        ensures
            final(local)@ == old(local)@.with_connection(),
            final(local).wf(),
    {
        local.connection_opened();
    }

    /// Whether the counters of `local` can be added to the merged ones
    /// without leaving their integers.
    pub fn has_room_for(&self, local: &LocalCollector) -> (room: bool)
        ensures
            room == self@.stats.merged(local@).bounded(),
    {
        local.stats.attempts <= u32::MAX - self.stats.attempts && local.stats.successes
            <= u32::MAX - self.stats.successes && local.stats.failures <= u32::MAX
            - self.stats.failures && local.stats.connections_opened <= u32::MAX
            - self.stats.connections_opened && local.stats.bytes_sent <= u64::MAX
            - self.stats.bytes_sent && local.stats.bytes_received <= u64::MAX
            - self.stats.bytes_received && local.stats.total_latency <= u128::MAX
            - self.stats.total_latency
    }

    /// Takes in what a worker counted: every counter is added to the
    /// merged one, and the samples are put after those already held.
    pub fn collect(&mut self, local: LocalCollector)
        requires
            old(self).wf(),
            local.wf(),
            old(self)@.stats.merged(local@).bounded(),
        ensures
            final(self)@ == (CollectorView {
                stats: old(self)@.stats.merged(local@),
                ..old(self)@
            }),
            final(self).wf(),
    {
        let mut local = local;
        proof {
            lemma_sum_concat(self.stats.latencies@, local.stats.latencies@);
        }
        self.stats.attempts = self.stats.attempts + local.stats.attempts;
        self.stats.successes = self.stats.successes + local.stats.successes;
        self.stats.failures = self.stats.failures + local.stats.failures;
        self.stats.connections_opened = self.stats.connections_opened
            + local.stats.connections_opened;
        self.stats.bytes_sent = self.stats.bytes_sent + local.stats.bytes_sent;
        self.stats.bytes_received = self.stats.bytes_received + local.stats.bytes_received;
        self.stats.total_latency = self.stats.total_latency + local.stats.total_latency;
        self.stats.latencies.append(&mut local.stats.latencies);
    }

    /// Whether `bytes_sent` and `bytes_received` can be added to the byte
    /// totals without leaving their integers.
    pub fn has_room_for_bytes(&self, bytes_sent: u64, bytes_received: u64) -> (room: bool)
        ensures
            room == (self@.stats.bytes_sent + bytes_sent <= u64::MAX && self@.stats.bytes_received
                + bytes_received <= u64::MAX),
    {
        bytes_sent <= u64::MAX - self.stats.bytes_sent && bytes_received <= u64::MAX
            - self.stats.bytes_received
    }

    /// Adds the bytes that went over a connection, now closed, to the
    /// totals.
    pub fn collect_connection(&mut self, bytes_sent: u64, bytes_received: u64)
        requires
            old(self).wf(),
            old(self)@.stats.bytes_sent + bytes_sent <= u64::MAX,
            old(self)@.stats.bytes_received + bytes_received <= u64::MAX,
        ensures
            final(self)@ == (CollectorView {
                stats: old(self)@.stats.with_bytes(bytes_sent as nat, bytes_received as nat),
                ..old(self)@
            }),
            final(self).wf(),
    {
        self.stats.bytes_sent = self.stats.bytes_sent + bytes_sent;
        self.stats.bytes_received = self.stats.bytes_received + bytes_received;
    }
}


/// `sort` of a slice of integers: afterwards the slice holds the same
/// samples as before, each as often as before, in ascending order.
#[verifier::external_body]
fn sort_samples(samples: &mut Vec<u128>)
    ensures
        ascending(final(samples)@),
        final(samples)@.to_multiset() == old(samples)@.to_multiset(),
{
    samples.sort();
}

/// Events per second in thousandths, rounded down, over `duration`
/// nanoseconds; 0 over no time at all.
pub fn get_throughput(successes: u32, duration: u128) -> (per_second: u128)
    ensures
        per_second == throughput(successes as nat, duration as nat),
{
    if duration == 0 {
        return 0;
    }
    (successes as u128) * MILLI_PER_NANO_SEC / duration
}

/// Megabits per second in thousandths, rounded down, over `duration`
/// nanoseconds; 0 over no time at all.
pub fn get_rate(bytes: u64, duration: u128) -> (per_second: u128)
    ensures
        per_second == rate(bytes as nat, duration as nat),
{
    if duration == 0 {
        return 0;
    }
    (bytes as u128) * MILLI_PER_NANO_SEC / (MEGABIT as u128) / duration
}

/// The mean latency of `successes` requests that took `total_latency`
/// nanoseconds together, rounded down; 0 where there were none.
pub fn get_avg_latency(successes: u32, total_latency: u128) -> (mean: u128)
    ensures
        mean == avg_latency(successes as nat, total_latency as nat),
{
    if successes == 0 {
        return 0;
    }
    total_latency / (successes as u128)
}

/// The nearest-rank percentile `percent` of `latencies`, which are sorted;
/// 0 where there are none.
pub fn get_latency(latencies: &[u128], percent: usize) -> (latency: u128)
    ensures
        latency == percentile(latencies@, percent as nat),
{
    let len = latencies.len();
    if len == 0 {
        return 0;
    }
    assert(len * percent <= 0xffff_ffff_ffff_ffff * 0xffff_ffff_ffff_ffff) by (nonlinear_arith)
        requires
            0 <= len <= 0xffff_ffff_ffff_ffff,
            0 <= percent <= 0xffff_ffff_ffff_ffff,
    ;
    let scaled: u128 = (len as u128) * (percent as u128) / 100;
    let ix: usize = if scaled < (len - 1) as u128 {
        scaled as usize
    } else {
        len - 1
    };
    latencies[ix]
}

/// What a run came to.
pub struct Results {
    /// The length of the measured part of the run, in nanoseconds.
    pub duration: u128,
    pub attempts: u32,
    pub successes: u32,
    pub failures: u32,
    pub connections_opened: u32,
    /// Successes per second, in thousandths.
    pub throughput: u128,
    /// The mean latency of the successes, in nanoseconds.
    pub latency_avg: u128,
    /// The latency percentiles 0 to 100, in nanoseconds.
    pub latency_pct: Vec<u128>,
    pub bytes_sent: u64,
    /// Megabits sent per second, in thousandths.
    pub send_rate: u128,
    pub bytes_received: u64,
    /// Megabits received per second, in thousandths.
    pub receive_rate: u128,
}

/// [`Results`] as numbers and a sequence.
pub struct ResultsView {
    pub duration: nat,
    pub attempts: nat,
    pub successes: nat,
    pub failures: nat,
    pub connections_opened: nat,
    pub throughput: nat,
    pub latency_avg: nat,
    pub latency_pct: Seq<u128>,
    pub bytes_sent: nat,
    pub send_rate: nat,
    pub bytes_received: nat,
    pub receive_rate: nat,
}

impl View for Results {
    type V = ResultsView;

    open spec fn view(&self) -> ResultsView {
        ResultsView {
            duration: self.duration as nat,
            attempts: self.attempts as nat,
            successes: self.successes as nat,
            failures: self.failures as nat,
            connections_opened: self.connections_opened as nat,
            throughput: self.throughput as nat,
            latency_avg: self.latency_avg as nat,
            latency_pct: self.latency_pct@,
            bytes_sent: self.bytes_sent as nat,
            send_rate: self.send_rate as nat,
            bytes_received: self.bytes_received as nat,
            receive_rate: self.receive_rate as nat,
        }
    }
}

/// The results of a run of `duration` nanoseconds that counted `stats`,
/// whose samples are sorted.
pub open spec fn results_of(stats: StatsView, duration: nat) -> ResultsView {
    ResultsView {
        duration,
        attempts: stats.attempts,
        successes: stats.successes,
        failures: stats.failures,
        connections_opened: stats.connections_opened,
        throughput: throughput(stats.successes, duration),
        latency_avg: avg_latency(stats.successes, stats.total_latency),
        latency_pct: Seq::new(101, |i: int| percentile(stats.latencies, i as nat)),
        bytes_sent: stats.bytes_sent,
        send_rate: rate(stats.bytes_sent, duration),
        bytes_received: stats.bytes_received,
        receive_rate: rate(stats.bytes_received, duration),
    }
}

/// What a tick reports: the progress of the run and the activity since
/// the tick before.
pub struct Tick {
    /// Whole seconds since the run began.
    pub elapsed_secs: u128,
    /// Whole seconds that the run is to take.
    pub total_secs: u128,
    /// Successes per second since the tick before, in thousandths.
    pub throughput: u128,
    pub warming_up: bool,
    /// Failures since the tick before.
    pub failures: u32,
    /// The last error since the tick before.
    pub error: Option<Error>,
}

/// A [`Tick`] with its error as text.
pub struct TickView {
    pub elapsed_secs: nat,
    pub total_secs: nat,
    pub throughput: nat,
    pub warming_up: bool,
    pub failures: u32,
    pub error: Option<ErrorView>,
}

impl View for Tick {
    type V = TickView;

    open spec fn view(&self) -> TickView {
        TickView {
            elapsed_secs: self.elapsed_secs as nat,
            total_secs: self.total_secs as nat,
            throughput: self.throughput as nat,
            warming_up: self.warming_up,
            failures: self.failures,
            error: match self.error {
                Some(e) => Some(e@),
                None => None,
            },
        }
    }
}

impl Collector {
    /// The results of the run that was measured from `start` to `end`.
    /// Sorts the samples, then reads the percentiles 0 to 100 off them by
    /// nearest rank.
    pub fn get_results(&mut self, start: u128, end: u128) -> (results: Results)
        requires
            old(self).wf(),
            start <= end,
        ensures
            final(self)@ == (CollectorView {
                stats: old(self)@.stats.reordered(final(self)@.stats.latencies),
                ..old(self)@
            }),
            ascending(final(self)@.stats.latencies),
            final(self)@.stats.latencies.to_multiset() == old(self)@.stats.latencies.to_multiset(),
            final(self).wf(),
            results@ == results_of(final(self)@.stats, (end - start) as nat),
            results.attempts == results.successes + results.failures,
            results.connections_opened <= results.attempts,
            results.latency_pct@.len() == 101,
            forall|p: int|
                0 <= p <= 100 ==> results.latency_pct@[0] <= #[trigger] results.latency_pct@[p]
                    <= results.latency_pct@[100],
            forall|p: int|
                0 <= p <= 100 && results.successes > 0 ==> old(self)@.stats.latencies.contains(
                    #[trigger] results.latency_pct@[p],
                ),
    {
        let duration: u128 = end - start;
        sort_samples(&mut self.stats.latencies);
        proof {
            lemma_sum_reordered(old(self).stats.latencies@, self.stats.latencies@);
        }
        let mut latency_pct: Vec<u128> = Vec::new();
        let mut i: usize = 0;
        while i < 101
            invariant
                i <= 101,
                latency_pct@.len() == i,
                forall|k: int|
                    0 <= k < i ==> latency_pct@[k] == percentile(self.stats.latencies@, k as nat),
            decreases 101 - i,
        {
            latency_pct.push(get_latency(self.stats.latencies.as_slice(), i));
            i = i + 1;
        }
        let results = Results {
            duration,
            attempts: self.stats.attempts,
            successes: self.stats.successes,
            failures: self.stats.failures,
            connections_opened: self.stats.connections_opened,
            throughput: get_throughput(self.stats.successes, duration),
            latency_avg: get_avg_latency(self.stats.successes, self.stats.total_latency),
            latency_pct,
            bytes_sent: self.stats.bytes_sent,
            send_rate: get_rate(self.stats.bytes_sent, duration),
            bytes_received: self.stats.bytes_received,
            receive_rate: get_rate(self.stats.bytes_received, duration),
        };
        assert(results@.latency_pct =~= results_of(self@.stats, duration as nat).latency_pct);
        proof {
            let sorted = self.stats.latencies@;
            assert forall|p: int| 0 <= p <= 100 implies results.latency_pct@[0]
                <= #[trigger] results.latency_pct@[p] <= results.latency_pct@[100] by {
                lemma_percentile_between(sorted, p as nat);
            }
            assert forall|p: int| 0 <= p <= 100 && results.successes > 0 implies old(
                self,
            )@.stats.latencies.contains(#[trigger] results.latency_pct@[p]) by {
                lemma_percentile_is_sample(sorted, p as nat);
                lemma_same_samples(sorted, old(self)@.stats.latencies, results.latency_pct@[p]);
            }
        }
        results
    }

    /// Closes the interval that began at `tick_start` and ends at `now`, in
    /// a run that began at `start` and is to take `total_duration`: the
    /// interval counters go back to 0 and the last error is taken out, all
    /// into the tick that is returned.
    pub fn write_tick(&mut self, now: u128, start: u128, tick_start: u128, total_duration: u128)
        -> (tick: Tick)
        requires
            start <= now,
            tick_start <= now,
        ensures
            final(self)@ == (CollectorView {
                interval_successes: 0,
                interval_failures: 0,
                last_error: None,
                ..old(self)@
            }),
            tick@ == (TickView {
                elapsed_secs: ((now - start) / 1000000000) as nat,
                total_secs: (total_duration / 1000000000) as nat,
                throughput: throughput(
                    old(self)@.interval_successes as nat,
                    (now - tick_start) as nat,
                ),
                warming_up: old(self)@.warming_up,
                failures: old(self)@.interval_failures,
                error: old(self)@.last_error,
            }),
    {
        let so_far: u128 = now - start;
        let interval: u128 = now - tick_start;
        let interval_successes = self.interval_successes;
        let interval_failures = self.interval_failures;
        self.interval_successes = 0;
        self.interval_failures = 0;
        let last_error = self.last_error.take();
        Tick {
            elapsed_secs: so_far / NANOS_PER_SEC,
            total_secs: total_duration / NANOS_PER_SEC,
            throughput: get_throughput(interval_successes, interval),
            warming_up: self.warming_up,
            failures: interval_failures,
            error: last_error,
        }
    }
}


} // verus!
