//! Scans and their peaks.
//!
//! Every quantity is a fixed-point integer. Masses and the mass tolerance
//! share one unit, chosen by the caller (for instance a millionth of a mass
//! unit); intensities and retention times each have a unit of their own.

use vstd::prelude::*;

verus! {

/// One centroided signal of a scan.
#[derive(Clone, Copy, Debug, PartialEq, Eq, Structural)]
pub struct Peak {
    /// Observed mass.
    pub mass: i64,
    /// Signal intensity.
    pub intensity: i64,
}

/// Why a peak takes no part in matching. Such a peak is passed over; it
/// never fails the scan or the file that holds it.
#[derive(Clone, Copy, Debug, PartialEq, Eq, Structural)]
pub enum MatchPolicyViolation {
    /// The mass is zero or negative.
    NonPositiveMass,
    /// The intensity is negative.
    NegativeIntensity,
}

impl Peak {
    /// A peak can take part in matching when its mass is positive and its
    /// intensity is not negative. A reading that has no place on the scale
    /// (a negative intensity, a mass that is not a finite positive number) is
    /// recorded with values that fail this test.
    pub open spec fn is_usable(self) -> bool {
        self.mass > 0 && self.intensity >= 0
    }

    /// What is wrong with the peak, the mass being looked at first.
    pub open spec fn defect(self) -> Option<MatchPolicyViolation> {
        if self.mass <= 0 {
            Some(MatchPolicyViolation::NonPositiveMass)
        } else if self.intensity < 0 {
            Some(MatchPolicyViolation::NegativeIntensity)
        } else {
            None
        }
    }

    /// Tells whether this peak can take part in matching.
    pub fn usable(&self) -> (b: bool)
        ensures
            b == self.is_usable(),
    {
        self.mass > 0 && self.intensity >= 0
    }

    /// Tells why this peak takes no part in matching, if it does not.
    pub fn violation(&self) -> (v: Option<MatchPolicyViolation>)
        ensures
            v == self.defect(),
            v is None <==> self.is_usable(),
    {
        if self.mass <= 0 {
            Some(MatchPolicyViolation::NonPositiveMass)
        } else if self.intensity < 0 {
            Some(MatchPolicyViolation::NegativeIntensity)
        } else {
            None
        }
    }
}

/// One spectrum of a chromatographic run.
#[derive(Clone, Debug, PartialEq, Eq)]
pub struct Scan {
    /// The time at which the spectrum was sampled.
    pub retention_time: i64,
    /// The signals of the spectrum, in the order in which they were recorded.
    pub peaks: Vec<Peak>,
}

/// What a scan holds.
pub struct ScanView {
    pub retention_time: i64,
    pub peaks: Seq<Peak>,
}

impl View for Scan {
    type V = ScanView;

    open spec fn view(&self) -> ScanView {
        ScanView { retention_time: self.retention_time, peaks: self.peaks@ }
    }
}

/// What the scans of one file hold, in the order of the file.
pub open spec fn scans_view(scans: Seq<Scan>) -> Seq<ScanView> {
    Seq::new(scans.len(), |i: int| scans[i]@)
}

impl Scan {
    /// A scan sampled at `retention_time` with the given peaks.
    pub fn new(retention_time: i64, peaks: Vec<Peak>) -> (scan: Scan)
        ensures
            scan@ == (ScanView { retention_time, peaks: peaks@ }),
    {
        Scan { retention_time, peaks }
    }
}

/// The retention times of a run never decrease from one scan to the next.
pub open spec fn retention_times_ordered(scans: Seq<ScanView>) -> bool {
    forall|i: int, j: int|
        0 <= i <= j < scans.len() ==> scans[i].retention_time <= scans[j].retention_time
}

/// Tells whether the retention times of `scans` never decrease.
pub fn check_retention_times(scans: &Vec<Scan>) -> (ordered: bool)
    ensures
        ordered == retention_times_ordered(scans_view(scans@)),
{
    let n: usize = scans.len();
    let mut i: usize = 1;
    while i < n
        invariant
            n == scans@.len(),
            1 <= i,
            forall|a: int, b: int|
                0 <= a <= b < i && b < n ==> scans@[a].retention_time <= scans@[b].retention_time,
        decreases n - i,
    {
        if scans[i - 1].retention_time > scans[i].retention_time {
            proof {
                let v = scans_view(scans@);
                assert(v[i - 1].retention_time > v[i as int].retention_time);
            }
            return false;
        }
        i = i + 1;
    }
    proof {
        let v = scans_view(scans@);
        assert forall|a: int, b: int| 0 <= a <= b < v.len() implies v[a].retention_time
            <= v[b].retention_time by {
            assert(scans@[a].retention_time <= scans@[b].retention_time);
        }
    }
    true
}

} // verus!
