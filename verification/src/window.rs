//! Sliding windows of samples and the rates computed from them.

use crate::rate::rate;
use crate::rate::rounded_rate;
use crate::rate::NANOS_PER_SEC;
use crate::rate::saturated;
use crate::sample::Sample;
use std::collections::VecDeque;
use vstd::prelude::*;

verus! {

/// How many samples leave the front of `samples` when it is pruned against
/// `until`: the front goes for as long as its successor was not taken after
/// `until`.
pub open spec fn prune_count(samples: Seq<Sample>, until: int) -> nat
    decreases samples.len(),
{
    if samples.len() >= 2 && samples[1].time <= until {
        1 + prune_count(samples.skip(1), until)
    } else {
        0
    }
}

/// The window that is left of `samples` after pruning against `until`.
pub open spec fn pruned(samples: Seq<Sample>, until: int) -> Seq<Sample> {
    samples.skip(prune_count(samples, until) as int)
}

/// Pruning keeps at least one sample of a window that had one.
pub proof fn lemma_prune_count_bound(samples: Seq<Sample>, until: int)
    ensures
        samples.len() == 0 ==> prune_count(samples, until) == 0,
        samples.len() > 0 ==> prune_count(samples, until) < samples.len(),
    decreases samples.len(),
{
    if samples.len() >= 2 && samples[1].time <= until {
        lemma_prune_count_bound(samples.skip(1), until);
    }
}

/// What pruning removes and where it stops: each sample up to the new front
/// but the first was taken no later than `until`, and the sample behind the
/// new front, if there is one, was taken after `until`.
pub proof fn lemma_prune_count_stops(samples: Seq<Sample>, until: int)
    ensures
        forall|j: int| 0 < j <= prune_count(samples, until) ==> samples[j].time <= until,
        prune_count(samples, until) + 1 < samples.len() ==> samples[prune_count(samples, until) as int
            + 1].time > until,
    decreases samples.len(),
{
    if samples.len() >= 2 && samples[1].time <= until {
        let rest = samples.skip(1);
        lemma_prune_count_stops(rest, until);
        lemma_prune_count_bound(rest, until);
        assert forall|j: int| 0 < j <= prune_count(samples, until) implies samples[j].time
            <= until by {
            if j > 1 {
                assert(rest[j - 1] == samples[j]);
            }
        }
        let k = prune_count(samples, until) as int;
        if k + 1 < samples.len() {
            assert(rest[k] == samples[k + 1]);
        }
    }
}

/// The samples run in the order of their instants.
pub open spec fn time_ascending(samples: Seq<Sample>) -> bool {
    forall|i: int, j: int| 0 <= i <= j < samples.len() ==> samples[i].time <= samples[j].time
}

/// Pruning a window whose samples run in the order of their instants never
/// empties it. Afterwards its first instant is the latest one in the window
/// that is no later than `until`; where every sample was taken after `until`,
/// nothing is removed and the first sample stays the first.
pub proof fn lemma_pruned_front(samples: Seq<Sample>, until: int)
    requires
        samples.len() > 0,
        time_ascending(samples),
    ensures
        pruned(samples, until).len() > 0,
        (exists|i: int| 0 <= i < samples.len() && samples[i].time <= until) ==> {
            &&& pruned(samples, until)[0].time <= until
            &&& forall|i: int|
                0 <= i < samples.len() && samples[i].time <= until ==> samples[i].time <= pruned(
                    samples,
                    until,
                )[0].time
        },
        (forall|i: int| 0 <= i < samples.len() ==> samples[i].time > until) ==> pruned(
            samples,
            until,
        ) == samples,
{
    let k = prune_count(samples, until) as int;
    lemma_prune_count_bound(samples, until);
    lemma_prune_count_stops(samples, until);
    assert(pruned(samples, until)[0] == samples[k]);
    if exists|i: int| 0 <= i < samples.len() && samples[i].time <= until {
        let w = choose|i: int| 0 <= i < samples.len() && samples[i].time <= until;
        if k == 0 {
            assert(samples[0].time <= samples[w].time);
        }
        assert forall|i: int|
            0 <= i < samples.len() && samples[i].time <= until implies samples[i].time
            <= samples[k].time by {
            if i > k {
                assert(samples[k + 1].time <= samples[i].time);
            }
        }
    }
    if forall|i: int| 0 <= i < samples.len() ==> samples[i].time > until {
        if k > 0 {
            assert(samples[k].time <= until);
        }
        assert(samples.skip(0) == samples);
    }
}

/// Pops samples from the front until the first one is the only one that was
/// not taken after `until`, so that it can serve as the baseline. The last
/// sample is never popped.
pub fn pop_samples_before(samples: &mut VecDeque<Sample>, until: u64)
    ensures
        final(samples)@ == pruned(old(samples)@, until as int),
        old(samples)@.len() > 0 ==> final(samples)@.len() > 0,
{
    proof {
        lemma_prune_count_bound(samples@, until as int);
    }
    while samples.len() >= 2
        invariant
            pruned(samples@, until as int) == pruned(old(samples)@, until as int),
        ensures
            prune_count(samples@, until as int) == 0,
            pruned(samples@, until as int) == pruned(old(samples)@, until as int),
        decreases samples.len(),
    {
        if samples[1].time > until {
            break;
        }
        let ghost before = samples@;
        samples.pop_front();
        proof {
            lemma_prune_count_bound(before.skip(1), until as int);
            assert(samples@ == before.skip(1));
            assert(pruned(before.skip(1), until as int) == pruned(before, until as int));
        }
    }
}

/// The sum of the byte counts of `samples`.
pub open spec fn total_bytes(samples: Seq<Sample>) -> nat
    decreases samples.len(),
{
    if samples.len() == 0 {
        0
    } else {
        total_bytes(samples.drop_last()) + samples.last().bytes as nat
    }
}

/// The time from `since` to the last of `samples`: zero where there is no
/// sample, or where the last one was not taken after `since`.
pub open spec fn elapsed_nanos(since: u64, samples: Seq<Sample>) -> nat {
    if samples.len() > 0 && samples.last().time > since {
        (samples.last().time - since) as nat
    } else {
        0
    }
}

/// The average rate of `samples` in bytes per second, measured from `since`.
pub open spec fn average(since: u64, samples: Seq<Sample>) -> nat {
    rounded_rate(total_bytes(samples), elapsed_nanos(since, samples))
}

/// A sum of byte counts is at most the largest count times their number.
pub proof fn lemma_total_bytes_bound(samples: Seq<Sample>)
    ensures
        total_bytes(samples) <= samples.len() * usize::MAX,
    decreases samples.len(),
{
    if samples.len() > 0 {
        lemma_total_bytes_bound(samples.drop_last());
        assert((samples.len() - 1) * usize::MAX + usize::MAX == samples.len() * usize::MAX)
            by (nonlinear_arith);
    }
}

/// The sum of as many byte counts as one collection can hold fits 128 bits.
pub proof fn lemma_total_bytes_fits(samples: Seq<Sample>)
    requires
        samples.len() <= usize::MAX,
    ensures
        total_bytes(samples) <= u128::MAX,
{
    lemma_total_bytes_bound(samples);
    assert(samples.len() * usize::MAX <= u128::MAX) by (nonlinear_arith)
        requires
            samples.len() <= usize::MAX,
            usize::MAX <= 0xffff_ffff_ffff_ffff,
    ;
}

/// Given the start time and the samples taken since, computes the average
/// bytes per second: the bytes of all the samples over the time from `since`
/// to the last of them, rounded to the nearest integer. The average is zero
/// where no time has passed.
pub fn compute_average(since: u64, samples: &[Sample]) -> (per_second: usize)
    ensures
        per_second == saturated(average(since, samples@)),
        average(since, samples@) <= usize::MAX ==> per_second == average(since, samples@),
{
    let mut bytes: u128 = 0;
    let mut last_time: u64 = since;
    let mut i: usize = 0;
    while i < samples.len()
        invariant
            i <= samples.len(),
            bytes == total_bytes(samples@.take(i as int)),
            last_time == if i > 0 {
                samples@[i - 1].time
            } else {
                since
            },
        decreases samples.len() - i,
    {
        proof {
            lemma_total_bytes_fits(samples@.take(i + 1));
            assert(samples@.take(i + 1).drop_last() == samples@.take(i as int));
        }
        bytes = bytes + samples[i].bytes as u128;
        last_time = samples[i].time;
        i = i + 1;
    }
    assert(samples@.take(i as int) == samples@);
    if last_time <= since {
        return 0;
    }
    rate(bytes, last_time - since)
}

/// The average rate of a window whose first sample is the baseline: the
/// bytes of all the samples behind it, over the time from the baseline to the
/// newest sample.
pub open spec fn window_average(samples: Seq<Sample>) -> nat {
    if samples.len() == 0 {
        0
    } else {
        average(samples[0].time, samples.skip(1))
    }
}

/// Each sample was taken after the one before it.
pub open spec fn strictly_ascending(samples: Seq<Sample>) -> bool {
    forall|i: int, j: int| 0 <= i < j < samples.len() ==> samples[i].time < samples[j].time
}

/// The average of a window whose instants strictly increase is the sum of
/// the bytes behind the baseline, over the seconds from the baseline to the
/// last sample, rounded to the nearest integer. It is zero for a window of
/// the baseline alone.
pub proof fn lemma_window_average_exact(samples: Seq<Sample>)
    requires
        samples.len() > 0,
        strictly_ascending(samples),
    ensures
        samples.len() == 1 ==> window_average(samples) == 0,
        samples.len() > 1 ==> window_average(samples) == (2 * total_bytes(samples.skip(1))
            * NANOS_PER_SEC + (samples.last().time - samples[0].time)) / (2 * (samples.last().time
            - samples[0].time)),
{
    if samples.len() > 1 {
        assert(samples.skip(1).last() == samples.last());
        assert(samples[0].time < samples.last().time);
        let bytes = total_bytes(samples.skip(1));
        let nanos = samples.last().time - samples[0].time;
        assert((2 * bytes * NANOS_PER_SEC + nanos) / (2 * nanos) >= 0) by (nonlinear_arith)
            requires
                bytes >= 0,
                nanos > 0,
        ;
    }
}

/// A window stays in the order of its instants when the sample pushed into
/// it is no older than its newest.
pub proof fn lemma_push_keeps_order(samples: Seq<Sample>, sample: Sample, until: int)
    requires
        time_ascending(samples),
        samples.len() > 0 ==> samples.last().time <= sample.time,
    ensures
        time_ascending(pruned(samples.push(sample), until)),
{
    let pushed = samples.push(sample);
    lemma_prune_count_bound(pushed, until);
    assert forall|i: int, j: int| 0 <= i <= j < pushed.len() implies pushed[i].time
        <= pushed[j].time by {
        if j == samples.len() && i < j {
            assert(samples[i].time <= samples.last().time);
        }
    }
}

/// The samples of one direction over one horizon, oldest first. The first
/// sample is the baseline of the window's average. A window starts with one
/// sample and never loses its last.
pub struct Window {
    samples: VecDeque<Sample>,
    horizon: u64,
}

impl View for Window {
    type V = Seq<Sample>;

    closed spec fn view(&self) -> Seq<Sample> {
        self.samples@
    }
}

impl Window {
    /// The span of time that the window covers, in nanoseconds.
    pub closed spec fn span(self) -> u64 {
        self.horizon
    }

    /// A window over `horizon` nanoseconds that holds `start` alone.
    pub fn new(start: Sample, horizon: u64) -> (window: Window)
        ensures
            window@ == seq![start],
            window.span() == horizon,
    {
        let mut samples: VecDeque<Sample> = VecDeque::new();
        samples.push_back(start);
        Window { samples, horizon }
    }

    /// The span of time that the window covers, in nanoseconds.
    pub fn horizon(&self) -> (horizon: u64)
        ensures
            horizon == self.span(),
    {
        self.horizon
    }

    /// The number of samples in the window.
    pub fn len(&self) -> (len: usize)
        ensures
            len == self@.len(),
    {
        self.samples.len()
    }

    /// The sample at `index`, counted from the baseline, if there is one.
    pub fn get(&self, index: usize) -> (sample: Option<Sample>)
        ensures
            sample == if index < self@.len() {
                Some(self@[index as int])
            } else {
                None
            },
    {
        if index < self.samples.len() {
            Some(self.samples[index])
        } else {
            None
        }
    }

    /// Appends `sample`, then prunes the window against the instant one
    /// horizon before it.
    pub fn push(&mut self, sample: Sample)
        ensures
            final(self)@ == pruned(old(self)@.push(sample), sample.time - old(self).span()),
            final(self)@.len() > 0,
            final(self).span() == old(self).span(),
    {
        proof {
            lemma_prune_count_bound(self.samples@.push(sample), sample.time - self.horizon);
        }
        self.samples.push_back(sample);
        if sample.time >= self.horizon {
            pop_samples_before(&mut self.samples, sample.time - self.horizon);
        }
    }

    /// The average rate of the window in bytes per second: the bytes of all
    /// its samples but the baseline, over the time from the baseline to the
    /// newest sample.
    pub fn average(&self) -> (per_second: usize)
        ensures
            per_second == saturated(window_average(self@)),
            window_average(self@) <= usize::MAX ==> per_second == window_average(self@),
    {
        if self.samples.len() == 0 {
            return 0;
        }
        let ghost tail = self.samples@.skip(1);
        let since: u64 = self.samples[0].time;
        let mut bytes: u128 = 0;
        let mut last_time: u64 = since;
        let mut i: usize = 1;
        while i < self.samples.len()
            invariant
                1 <= i <= self.samples@.len(),
                tail == self.samples@.skip(1),
                bytes == total_bytes(tail.take(i - 1)),
                last_time == self.samples@[i - 1].time,
            decreases self.samples@.len() - i,
        {
            proof {
                lemma_total_bytes_fits(tail.take(i as int));
                assert(tail.take(i as int).drop_last() == tail.take(i - 1));
            }
            bytes = bytes + self.samples[i].bytes as u128;
            last_time = self.samples[i].time;
            i = i + 1;
        }
        assert(tail.take(i - 1) == tail);
        if last_time <= since {
            return 0;
        }
        rate(bytes, last_time - since)
    }
}

} // verus!
