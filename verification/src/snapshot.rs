//! The data model: one sample per core, and an immutable snapshot of
//! all cores taken at one instant.

use vstd::prelude::*;

verus! {

/// A core's usage is a percentage in [0, 100] kept to one decimal
/// place, so it is stored as tenths of a percent in [0, 1000].
pub const MAX_USAGE_TENTHS: u32 = 1000;

/// One core's reading: a 1-based core index and its utilization in
/// tenths of a percent. Immutable once created.
#[derive(Clone, Copy, PartialEq, Eq, Structural, Debug)]
pub struct CoreSample {
    pub id: usize,
    pub usage_tenths: u32,
}

/// A sequence of samples is well formed when the i-th sample carries
/// core id i + 1 (so ids are strictly increasing from 1 with no gaps)
/// and every usage lies in [0, 1000] tenths of a percent.
pub open spec fn wf_samples(s: Seq<CoreSample>) -> bool {
    forall|i: int|
        0 <= i < s.len() ==> ((#[trigger] s[i]).id == i + 1 && s[i].usage_tenths
            <= MAX_USAGE_TENTHS)
}

/// An immutable, fully formed set of per-core readings taken at one
/// instant, ordered by ascending core id starting at 1. Replaced
/// wholesale, never mutated in place.
pub struct Snapshot {
    samples: Vec<CoreSample>,
}

impl View for Snapshot {
    type V = Seq<CoreSample>;

    closed spec fn view(&self) -> Seq<CoreSample> {
        self.samples@
    }
}

/// A usage reading above the representable maximum is clamped to it.
pub open spec fn clamp_usage(u: u32) -> u32 {
    if u > MAX_USAGE_TENTHS {
        MAX_USAGE_TENTHS
    } else {
        u
    }
}

impl Snapshot {
    pub open spec fn wf(&self) -> bool {
        wf_samples(self@)
    }

    /// The zero snapshot that the store holds before the first sample.
    pub fn empty() -> (s: Snapshot)
        ensures
            s@ == Seq::<CoreSample>::empty(),
            s.wf(),
    {
        Snapshot { samples: Vec::new() }
    }

    /// Builds the snapshot for one round of readings: the i-th reading
    /// becomes the sample of core i + 1, clamped into [0, 1000].
    pub fn from_usage_tenths(usages: &Vec<u32>) -> (s: Snapshot)
        ensures
            s.wf(),
            s@.len() == usages@.len(),
            forall|i: int|
                0 <= i < usages@.len() ==> (#[trigger] s@[i]).usage_tenths == clamp_usage(
                    usages@[i],
                ),
    {
        let mut samples: Vec<CoreSample> = Vec::new();
        let mut i: usize = 0;
        while i < usages.len()
            invariant
                i <= usages@.len(),
                samples@.len() == i,
                forall|j: int|
                    0 <= j < i ==> ((#[trigger] samples@[j]).id == j + 1
                        && samples@[j].usage_tenths == clamp_usage(usages@[j])),
            decreases usages@.len() - i,
        {
            let u = usages[i];
            let clamped = if u > MAX_USAGE_TENTHS {
                MAX_USAGE_TENTHS
            } else {
                u
            };
            samples.push(CoreSample { id: i + 1, usage_tenths: clamped });
            i = i + 1;
        }
        Snapshot { samples }
    }

    pub fn len(&self) -> (n: usize)
        ensures
            n == self@.len(),
    {
        self.samples.len()
    }

    pub fn sample(&self, i: usize) -> (c: CoreSample)
        requires
            i < self@.len(),
        ensures
            c == self@[i as int],
    {
        self.samples[i]
    }

    /// An explicit copy: the store hands each reader its own snapshot,
    /// never a live-mutable reference.
    pub fn duplicate(&self) -> (s: Snapshot)
        ensures
            s@ == self@,
    {
        let mut samples: Vec<CoreSample> = Vec::new();
        let mut i: usize = 0;
        while i < self.samples.len()
            invariant
                i <= self.samples@.len(),
                samples@ == self.samples@.take(i as int),
            decreases self.samples@.len() - i,
        {
            samples.push(self.samples[i]);
            proof {
                assert(self.samples@.take(i + 1 as int) =~= self.samples@.take(i as int).push(
                    self.samples@[i as int],
                ));
            }
            i = i + 1;
        }
        proof {
            assert(self.samples@.take(self.samples@.len() as int) =~= self.samples@);
        }
        Snapshot { samples }
    }
}

/// Law: in a well-formed snapshot the core ids are strictly increasing,
/// start at 1, and have no gaps (the i-th sample has id i + 1).
pub proof fn lemma_snapshot_ordering(s: Seq<CoreSample>)
    requires
        wf_samples(s),
    ensures
        forall|i: int| 0 <= i < s.len() ==> (#[trigger] s[i]).id == i + 1,
        forall|i: int, j: int| 0 <= i < j < s.len() ==> s[i].id < s[j].id,
        s.len() > 0 ==> s[0].id == 1,
{
}

} // verus!
