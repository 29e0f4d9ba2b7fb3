//! The sample queue of the battery interface: ten readings are collected,
//! and the tenth completes a batch that is reported as their means.

use vstd::prelude::*;
use vstd::array::ArrayAdditionalExecFns;
use crate::clock::clock_millis;
use crate::units::{MilliAmp, MilliVolt};

verus! {

/// A delay source for drivers that wait on the interface's clock.
#[derive(Debug, Clone, Copy, PartialEq, Eq, Structural)]
pub struct EmbassyDelayer;

impl EmbassyDelayer {
    /// The delay source.
    pub fn new() -> (r: Self)
        ensures
            r == EmbassyDelayer,
    {
        EmbassyDelayer
    }
}

impl Default for EmbassyDelayer {
    fn default() -> (r: Self)
        ensures
            r == EmbassyDelayer,
    {
        EmbassyDelayer
    }
}

/// Number of samples in a batch.
pub const BATCH_LEN: usize = 10;

/// A current as a 32-bit count of milliamperes.
pub fn milliamp_to_u32(milliamp: &MilliAmp) -> (r: u32)
    ensures
        r == milliamp.0,
{
    milliamp.into_inner() as u32
}

/// A voltage as a 32-bit count of millivolts.
pub fn millivolt_to_u32(millivolt: &MilliVolt) -> (r: u32)
    ensures
        r == millivolt.0,
{
    millivolt.into_inner() as u32
}

/// The sum of some currents, in milliamperes.
pub open spec fn total_milliamps(s: Seq<MilliAmp>) -> int
    decreases s.len(),
{
    if s.len() == 0 {
        0
    } else {
        total_milliamps(s.drop_last()) + s.last().0
    }
}

/// The sum of some voltages, in millivolts.
pub open spec fn total_millivolts(s: Seq<MilliVolt>) -> int
    decreases s.len(),
{
    if s.len() == 0 {
        0
    } else {
        total_millivolts(s.drop_last()) + s.last().0
    }
}

/// The timestamp of a batch that began at `start` and ended at `now`.
pub open spec fn batch_time(now: u64, start: u64) -> u64 {
    ((now + start) / 2) as u64
}

/// What a [`DaqDataQueue`] holds: the slot that the next sample goes to, the
/// time the current batch began, and the ten slots.
pub struct DaqDataQueueView {
    pub index: int,
    pub start: u64,
    pub milliamps: Seq<MilliAmp>,
    pub millivolts: Seq<MilliVolt>,
}

impl DaqDataQueueView {
    /// Ten slots of each kind, and a write index among them.
    pub open spec fn wf(self) -> bool {
        &&& 0 <= self.index < 10
        &&& self.milliamps.len() == 10
        &&& self.millivolts.len() == 10
    }

    /// The empty queue.
    pub open spec fn empty() -> DaqDataQueueView {
        DaqDataQueueView {
            index: 0,
            start: 0,
            milliamps: Seq::new(10, |i: int| MilliAmp(0)),
            millivolts: Seq::new(10, |i: int| MilliVolt(0)),
        }
    }

    /// The mean of the ten current slots.
    pub open spec fn mean_milliamps(self) -> int {
        total_milliamps(self.milliamps) / 10
    }

    /// The mean of the ten voltage slots.
    pub open spec fn mean_millivolts(self) -> int {
        total_millivolts(self.millivolts) / 10
    }

    /// The queue after a sample taken at `now` is pushed. The sample goes to
    /// the slot at the write index. The first sample of a batch records the
    /// batch's start, the tenth returns the write index to the first slot.
    pub open spec fn pushed(self, milliamps: MilliAmp, millivolts: MilliVolt, now: u64) -> Self {
        DaqDataQueueView {
            index: if self.index == 9 {
                0
            } else {
                self.index + 1
            },
            start: if self.index == 0 {
                now
            } else {
                self.start
            },
            milliamps: self.milliamps.update(self.index, milliamps),
            millivolts: self.millivolts.update(self.index, millivolts),
        }
    }

    /// What pushing a sample at `now` reports: nothing for the first nine
    /// samples of a batch; for the tenth the mean voltage, the mean current
    /// and the time midway between the batch's start and `now`.
    pub open spec fn report(self, milliamps: MilliAmp, millivolts: MilliVolt, now: u64) -> Option<
        (MilliVolt, MilliAmp, u64),
    > {
        if self.index == 9 {
            let after = self.pushed(milliamps, millivolts, now);
            Some(
                (
                    MilliVolt(after.mean_millivolts() as u16),
                    MilliAmp(after.mean_milliamps() as u16),
                    batch_time(now, self.start),
                ),
            )
        } else {
            None
        }
    }

    /// The queue after the first `n` of the given samples are pushed.
    pub open spec fn pushed_all(
        self,
        samples: Seq<(MilliAmp, MilliVolt, u64)>,
        n: nat,
    ) -> DaqDataQueueView
        decreases n,
    {
        if n == 0 {
            self
        } else {
            let before = self.pushed_all(samples, (n - 1) as nat);
            let s = samples[n - 1];
            before.pushed(s.0, s.1, s.2)
        }
    }
}

/// A sum of `n` currents is at most `n` times the largest current.
proof fn lemma_total_milliamps_bound(s: Seq<MilliAmp>)
    ensures
        0 <= total_milliamps(s) <= 65535 * s.len(),
    decreases s.len(),
{
    if s.len() > 0 {
        lemma_total_milliamps_bound(s.drop_last());
    }
}

/// A sum of `n` voltages is at most `n` times the largest voltage.
proof fn lemma_total_millivolts_bound(s: Seq<MilliVolt>)
    ensures
        0 <= total_millivolts(s) <= 65535 * s.len(),
    decreases s.len(),
{
    if s.len() > 0 {
        lemma_total_millivolts_bound(s.drop_last());
    }
}

/// The means of ten 16-bit samples are 16-bit values, so a report loses
/// nothing of them.
pub proof fn lemma_means_fit(q: DaqDataQueueView)
    requires
        q.wf(),
    ensures
        0 <= q.mean_milliamps() <= 65535,
        0 <= q.mean_millivolts() <= 65535,
{
    lemma_total_milliamps_bound(q.milliamps);
    lemma_total_millivolts_bound(q.millivolts);
}

/// After `n` pushes into a queue whose write index was at the first slot,
/// the first `n` slots hold the samples pushed and the batch began with the
/// first of them.
proof fn lemma_pushed_all(q: DaqDataQueueView, samples: Seq<(MilliAmp, MilliVolt, u64)>, n: nat)
    requires
        q.wf(),
        q.index == 0,
        samples.len() == 10,
        n <= 10,
    ensures
        ({
            let after = q.pushed_all(samples, n);
            &&& after.wf()
            &&& after.index == if n == 10 { 0 } else { n as int }
            &&& n >= 1 ==> after.start == samples[0].2
            &&& forall|j: int|
                0 <= j < n ==> after.milliamps[j] == samples[j].0 && after.millivolts[j]
                    == samples[j].1
        }),
    decreases n,
{
    if n > 0 {
        lemma_pushed_all(q, samples, (n - 1) as nat);
    }
}

/// A batch is ten pushes. Starting with the write index at the first slot,
/// the first nine pushes report nothing, and the tenth reports the integer
/// means of the ten samples pushed, at the time midway between the first
/// and the tenth. The write index is then back at the first slot.
pub proof fn lemma_batch_of_ten(q: DaqDataQueueView, samples: Seq<(MilliAmp, MilliVolt, u64)>)
    requires
        q.wf(),
        q.index == 0,
        samples.len() == 10,
    ensures
        forall|k: nat|
            k < 9 ==> (#[trigger] q.pushed_all(samples, k)).report(
                samples[k as int].0,
                samples[k as int].1,
                samples[k as int].2,
            ) is None,
        q.pushed_all(samples, 9).report(samples[9].0, samples[9].1, samples[9].2) == Some(
            (
                MilliVolt(
                    (total_millivolts(samples.map_values(|s: (MilliAmp, MilliVolt, u64)| s.1))
                        / 10) as u16,
                ),
                MilliAmp(
                    (total_milliamps(samples.map_values(|s: (MilliAmp, MilliVolt, u64)| s.0))
                        / 10) as u16,
                ),
                batch_time(samples[9].2, samples[0].2),
            ),
        ),
        q.pushed_all(samples, 10).index == 0,
{
    assert forall|k: nat| k < 9 implies (#[trigger] q.pushed_all(samples, k)).report(
        samples[k as int].0,
        samples[k as int].1,
        samples[k as int].2,
    ) is None by {
        lemma_pushed_all(q, samples, k);
    }
    lemma_pushed_all(q, samples, 9);
    lemma_pushed_all(q, samples, 10);
    let full = q.pushed_all(samples, 10);
    assert(full == q.pushed_all(samples, 9).pushed(samples[9].0, samples[9].1, samples[9].2));
    assert(full.milliamps =~= samples.map_values(|s: (MilliAmp, MilliVolt, u64)| s.0));
    assert(full.millivolts =~= samples.map_values(|s: (MilliAmp, MilliVolt, u64)| s.1));
}

/// The sample queue.
#[derive(Debug, Clone, Copy)]
pub struct DaqDataQueue {
    index: usize,
    start: u64,
    milliamps: [MilliAmp; 10],
    millivolts: [MilliVolt; 10],
}

impl View for DaqDataQueue {
    type V = DaqDataQueueView;

    closed spec fn view(&self) -> DaqDataQueueView {
        DaqDataQueueView {
            index: self.index as int,
            start: self.start,
            milliamps: self.milliamps@,
            millivolts: self.millivolts@,
        }
    }
}

impl DaqDataQueue {
    #[verifier::type_invariant]
    spec fn inv(self) -> bool {
        self.index < 10
    }

    /// Does nothing; shows that the queue is well formed.
    pub(crate) fn well_formed(&self)
        ensures
            self@.wf(),
    {
        proof {
            use_type_invariant(self);
        }
    }

    /// Empties the queue.
    pub fn reset(&mut self)
        ensures
            final(self)@ == DaqDataQueueView::empty(),
    {
        self.index = 0;
        self.start = 0;
        self.milliamps = [MilliAmp(0);10];
        self.millivolts = [MilliVolt(0);10];
        proof {
            assert(self.milliamps@ =~= DaqDataQueueView::empty().milliamps);
            assert(self.millivolts@ =~= DaqDataQueueView::empty().millivolts);
        }
    }

    /// The empty queue.
    pub fn default_const() -> (q: Self)
        ensures
            q@ == DaqDataQueueView::empty(),
    {
        let q = DaqDataQueue {
            index: 0,
            start: 0,
            milliamps: [MilliAmp(0);10],
            millivolts: [MilliVolt(0);10],
        };
        proof {
            assert(q.milliamps@ =~= DaqDataQueueView::empty().milliamps);
            assert(q.millivolts@ =~= DaqDataQueueView::empty().millivolts);
        }
        q
    }

    /// The mean of the ten current slots, rounded down.
    pub fn avg_milliamps(&self) -> (r: MilliAmp)
        ensures
            r.0 == self@.mean_milliamps(),
    {
        let mut sum: u32 = 0;
        let mut i: usize = 0;
        while i < 10
            invariant
                i <= 10,
                sum == total_milliamps(self.milliamps@.take(i as int)),
                sum <= 65535 * i,
            decreases 10 - i,
        {
            proof {
                assert(self.milliamps@.take(i + 1).drop_last() =~= self.milliamps@.take(i as int));
            }
            sum = sum + milliamp_to_u32(&self.milliamps[i]);
            i += 1;
        }
        proof {
            assert(self.milliamps@.take(10) =~= self.milliamps@);
        }
        MilliAmp::new((sum / 10) as u16)
    }

    /// The mean of the ten voltage slots, rounded down.
    pub fn avg_millivolts(&self) -> (r: MilliVolt)
        ensures
            r.0 == self@.mean_millivolts(),
    {
        let mut sum: u32 = 0;
        let mut i: usize = 0;
        while i < 10
            invariant
                i <= 10,
                sum == total_millivolts(self.millivolts@.take(i as int)),
                sum <= 65535 * i,
            decreases 10 - i,
        {
            proof {
                assert(self.millivolts@.take(i + 1).drop_last() =~= self.millivolts@.take(
                    i as int,
                ));
            }
            sum = sum + millivolt_to_u32(&self.millivolts[i]);
            i += 1;
        }
        proof {
            assert(self.millivolts@.take(10) =~= self.millivolts@);
        }
        MilliVolt::new((sum / 10) as u16)
    }

    /// The voltage in the slot at the write index.
    pub fn get_latest_vin_v(&self) -> (r: MilliVolt)
        ensures
            self@.wf(),
            r == self@.millivolts[self@.index],
    {
        proof {
            use_type_invariant(self);
        }
        self.millivolts[self.index]
    }

    /// The current in the slot at the write index.
    pub fn get_latest_vin_amps(&self) -> (r: MilliAmp)
        ensures
            self@.wf(),
            r == self@.milliamps[self@.index],
    {
        proof {
            use_type_invariant(self);
        }
        self.milliamps[self.index]
    }

    /// Pushes a sample taken at `now`. Returns the batch's means and
    /// timestamp when this sample is the tenth of its batch, and nothing
    /// otherwise.
    pub fn push_at(&mut self, vin_milliamps: MilliAmp, vin_millivolts: MilliVolt, now: u64) -> (r:
        Option<(MilliVolt, MilliAmp, u64)>)
        ensures
            old(self)@.wf(),
            final(self)@.wf(),
            final(self)@ == old(self)@.pushed(vin_milliamps, vin_millivolts, now),
            r == old(self)@.report(vin_milliamps, vin_millivolts, now),
            r is Some <==> old(self)@.index == 9,
    {
        proof {
            use_type_invariant(&*self);
        }
        let index = self.index;
        let mut milliamps = self.milliamps;
        milliamps.set(index, vin_milliamps);
        self.milliamps = milliamps;
        let mut millivolts = self.millivolts;
        millivolts.set(index, vin_millivolts);
        self.millivolts = millivolts;
        if index == 9 {
            self.index = 0;
            let mean_v = self.avg_millivolts();
            let mean_a = self.avg_milliamps();
            let t = ((now as u128 + self.start as u128) / 2) as u64;
            Some((mean_v, mean_a, t))
        } else if index == 0 {
            self.start = now;
            self.index = index + 1;
            None
        } else {
            self.index = index + 1;
            None
        }
    }

    /// Pushes a sample taken at the time the clock shows: what
    /// [`DaqDataQueue::push_at`] does for some time `now`.
    pub fn push(&mut self, vin_milliamps: MilliAmp, vin_millivolts: MilliVolt) -> (r: Option<
        (MilliVolt, MilliAmp, u64),
    >)
        ensures
            r is Some <==> old(self)@.index == 9,
            exists|now: u64|
                {
                    &&& final(self)@ == #[trigger] old(self)@.pushed(
                        vin_milliamps,
                        vin_millivolts,
                        now,
                    )
                    &&& r == old(self)@.report(vin_milliamps, vin_millivolts, now)
                },
    {
        let now = clock_millis();
        self.push_at(vin_milliamps, vin_millivolts, now)
    }
}

} // verus!
