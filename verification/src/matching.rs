//! Matching one target mass against the peaks of a run.
//!
//! The tolerance is an absolute window: a peak matches an expected mass when
//! their distance is at most the tolerance, both ends included. Within a scan
//! the match of highest intensity is taken; among equals the one nearest to
//! the expected mass, and among those the one of lower mass. Over a run the
//! apex is the first scan whose match reaches the highest intensity.

use vstd::prelude::*;
use crate::scans::{Peak, Scan, ScanView, scans_view};

verus! {

/// The distance between an observed and an expected mass.
pub open spec fn mass_error(observed: i64, expected: i64) -> int {
    if observed >= expected {
        observed - expected
    } else {
        expected - observed
    }
}

/// A usable peak whose mass lies within `tolerance` of `expected`.
pub open spec fn in_window(p: Peak, expected: i64, tolerance: i64) -> bool {
    p.is_usable() && mass_error(p.mass, expected) <= tolerance
}

/// `p` is taken before `q`: it is more intense, or as intense and nearer to
/// the expected mass, or as intense and as near and of lower mass.
pub open spec fn preferred(p: Peak, q: Peak, expected: i64) -> bool {
    ||| p.intensity > q.intensity
    ||| (p.intensity == q.intensity && mass_error(p.mass, expected) < mass_error(
        q.mass,
        expected,
    ))
    ||| (p.intensity == q.intensity && mass_error(p.mass, expected) == mass_error(
        q.mass,
        expected,
    ) && p.mass < q.mass)
}

/// Some peak of the scan lies in the window.
pub open spec fn has_match(peaks: Seq<Peak>, expected: i64, tolerance: i64) -> bool {
    exists|k: int| 0 <= k < peaks.len() && in_window(#[trigger] peaks[k], expected, tolerance)
}

/// `p` is the match of the scan: a peak of the scan in the window, with no
/// peak of the scan in the window taken before it.
pub open spec fn is_best_in_scan(
    peaks: Seq<Peak>,
    expected: i64,
    tolerance: i64,
    p: Peak,
) -> bool {
    &&& peaks.contains(p)
    &&& in_window(p, expected, tolerance)
    &&& forall|k: int|
        0 <= k < peaks.len() && in_window(#[trigger] peaks[k], expected, tolerance) ==> !preferred(
            peaks[k],
            p,
            expected,
        )
}

/// The match of a scan, if it has one.
pub open spec fn best_in_scan(peaks: Seq<Peak>, expected: i64, tolerance: i64) -> Option<Peak> {
    if exists|p: Peak| is_best_in_scan(peaks, expected, tolerance, p) {
        Some(choose|p: Peak| is_best_in_scan(peaks, expected, tolerance, p))
    } else {
        None
    }
}

/// What is recorded of an ion at its apex.
#[derive(Clone, Copy, Debug, PartialEq, Eq, Structural)]
pub struct Apex {
    /// Intensity of the matched peak.
    pub intensity: i64,
    /// Retention time of the scan that holds it.
    pub retention_time: i64,
    /// Mass of the matched peak.
    pub observed_mass: i64,
}

impl Apex {
    /// The peak that the apex was read from.
    pub open spec fn peak(self) -> Peak {
        Peak { mass: self.observed_mass, intensity: self.intensity }
    }
}

/// No peak of any scan lies in the window.
pub open spec fn no_match(scans: Seq<ScanView>, expected: i64, tolerance: i64) -> bool {
    forall|j: int, k: int|
        0 <= j < scans.len() && 0 <= k < scans[j].peaks.len() ==> !in_window(
            #[trigger] scans[j].peaks[k],
            expected,
            tolerance,
        )
}

/// `a` is read from the match of scan `i`, no match of any scan is more
/// intense, and every match of an earlier scan is less intense.
pub open spec fn is_apex_at(
    scans: Seq<ScanView>,
    expected: i64,
    tolerance: i64,
    a: Apex,
    i: int,
) -> bool {
    &&& 0 <= i < scans.len()
    &&& a.retention_time == scans[i].retention_time
    &&& is_best_in_scan(scans[i].peaks, expected, tolerance, a.peak())
    &&& forall|j: int, k: int|
        0 <= j < scans.len() && 0 <= k < scans[j].peaks.len() && in_window(
            #[trigger] scans[j].peaks[k],
            expected,
            tolerance,
        ) ==> scans[j].peaks[k].intensity <= a.intensity
    &&& forall|j: int, k: int|
        0 <= j < i && 0 <= k < scans[j].peaks.len() && in_window(
            #[trigger] scans[j].peaks[k],
            expected,
            tolerance,
        ) ==> scans[j].peaks[k].intensity < a.intensity
}

/// `a` is the apex of the run for the expected mass.
pub open spec fn is_apex(scans: Seq<ScanView>, expected: i64, tolerance: i64, a: Apex) -> bool {
    exists|i: int| is_apex_at(scans, expected, tolerance, a, i)
}

/// The apex of the run for the expected mass, if any peak matches.
pub open spec fn apex_of(scans: Seq<ScanView>, expected: i64, tolerance: i64) -> Option<Apex> {
    if exists|a: Apex| is_apex(scans, expected, tolerance, a) {
        Some(choose|a: Apex| is_apex(scans, expected, tolerance, a))
    } else {
        None
    }
}

/// The distance between an observed and an expected mass.
pub fn mass_deviation(observed: i64, expected: i64) -> (d: i128)
    ensures
        d == mass_error(observed, expected),
{
    let o: i128 = observed as i128;
    let e: i128 = expected as i128;
    if o >= e {
        o - e
    } else {
        e - o
    }
}

/// Tells whether `p` is a usable peak within `tolerance` of `expected`.
pub fn peak_in_window(p: Peak, expected: i64, tolerance: i64) -> (b: bool)
    ensures
        b == in_window(p, expected, tolerance),
{
    p.usable() && mass_deviation(p.mass, expected) <= tolerance as i128
}

/// Tells whether `p` is taken before `q`.
pub fn is_preferred(p: Peak, q: Peak, expected: i64) -> (b: bool)
    ensures
        b == preferred(p, q, expected),
{
    if p.intensity != q.intensity {
        p.intensity > q.intensity
    } else {
        let dp: i128 = mass_deviation(p.mass, expected);
        let dq: i128 = mass_deviation(q.mass, expected);
        dp < dq || (dp == dq && p.mass < q.mass)
    }
}

impl Scan {
    /// The match of this scan for an expected mass: the peak in the window
    /// that is taken before every other, or `None` when no peak of the scan
    /// lies in the window. Peaks that are not usable are passed over.
    pub fn best_match(&self, expected: i64, tolerance: i64) -> (r: Option<Peak>)
        ensures
            r == best_in_scan(self@.peaks, expected, tolerance),
            match r {
                Some(p) => is_best_in_scan(self@.peaks, expected, tolerance, p),
                None => !has_match(self@.peaks, expected, tolerance),
            },
    {
        let n: usize = self.peaks.len();
        let mut best: Option<Peak> = None;
        let mut k: usize = 0;
        let ghost mut at: int = 0;
        while k < n
            invariant
                n == self.peaks@.len(),
                k <= n,
                match best {
                    Some(p) => {
                        &&& 0 <= at < k
                        &&& self.peaks@[at] == p
                        &&& in_window(p, expected, tolerance)
                        &&& forall|m: int|
                            0 <= m < k && in_window(#[trigger] self.peaks@[m], expected, tolerance)
                                ==> !preferred(self.peaks@[m], p, expected)
                    },
                    None => forall|m: int|
                        0 <= m < k ==> !in_window(#[trigger] self.peaks@[m], expected, tolerance),
                },
            decreases n - k,
        {
            let p: Peak = self.peaks[k];
            if peak_in_window(p, expected, tolerance) {
                let take: bool = match best {
                    Some(b) => is_preferred(p, b, expected),
                    None => true,
                };
                if take {
                    best = Some(p);
                    proof {
                        at = k as int;
                    }
                }
            }
            k = k + 1;
        }
        proof {
            match best {
                Some(p) => {
                    assert(self.peaks@.contains(p));
                    best_in_scan_is(self@.peaks, expected, tolerance, p);
                },
                None => {
                    best_in_scan_none(self@.peaks, expected, tolerance);
                },
            }
        }
        best
    }
}

/// The apex of a run for an expected mass: intensity, retention time and
/// observed mass of the match in the first scan whose match reaches the
/// highest intensity of the run; `None` when no peak of any scan lies in the
/// window.
pub fn find_apex(scans: &Vec<Scan>, expected: i64, tolerance: i64) -> (r: Option<Apex>)
    ensures
        r == apex_of(scans_view(scans@), expected, tolerance),
        match r {
            Some(a) => is_apex(scans_view(scans@), expected, tolerance, a),
            None => no_match(scans_view(scans@), expected, tolerance),
        },
{
    let n: usize = scans.len();
    let ghost v = scans_view(scans@);
    let mut best: Option<Apex> = None;
    let mut i: usize = 0;
    let ghost mut at: int = 0;
    while i < n
        invariant
            n == scans@.len(),
            v == scans_view(scans@),
            i <= n,
            match best {
                Some(a) => {
                    &&& 0 <= at < i
                    &&& a.retention_time == v[at].retention_time
                    &&& is_best_in_scan(v[at].peaks, expected, tolerance, a.peak())
                    &&& forall|j: int, k: int|
                        0 <= j < i && 0 <= k < v[j].peaks.len() && in_window(
                            #[trigger] v[j].peaks[k],
                            expected,
                            tolerance,
                        ) ==> v[j].peaks[k].intensity <= a.intensity
                    &&& forall|j: int, k: int|
                        0 <= j < at && 0 <= k < v[j].peaks.len() && in_window(
                            #[trigger] v[j].peaks[k],
                            expected,
                            tolerance,
                        ) ==> v[j].peaks[k].intensity < a.intensity
                },
                None => forall|j: int, k: int|
                    0 <= j < i && 0 <= k < v[j].peaks.len() ==> !in_window(
                        #[trigger] v[j].peaks[k],
                        expected,
                        tolerance,
                    ),
            },
        decreases n - i,
    {
        let scan: &Scan = &scans[i];
        assert(scan@ == v[i as int]);
        match scan.best_match(expected, tolerance) {
            Some(p) => {
                let take: bool = match best {
                    Some(a) => p.intensity > a.intensity,
                    None => true,
                };
                if take {
                    best = Some(
                        Apex {
                            intensity: p.intensity,
                            retention_time: scan.retention_time,
                            observed_mass: p.mass,
                        },
                    );
                    proof {
                        at = i as int;
                    }
                }
            },
            None => {},
        }
        i = i + 1;
    }
    proof {
        match best {
            Some(a) => {
                assert(is_apex_at(v, expected, tolerance, a, at));
                apex_of_is(v, expected, tolerance, a);
            },
            None => {
                apex_of_none(v, expected, tolerance);
            },
        }
    }
    best
}

/// A scan has at most one match.
pub proof fn best_in_scan_unique(peaks: Seq<Peak>, expected: i64, tolerance: i64, p: Peak, q: Peak)
    requires
        is_best_in_scan(peaks, expected, tolerance, p),
        is_best_in_scan(peaks, expected, tolerance, q),
    ensures
        p == q,
{
    let kp = choose|k: int| 0 <= k < peaks.len() && peaks[k] == p;
    let kq = choose|k: int| 0 <= k < peaks.len() && peaks[k] == q;
    assert(!preferred(peaks[kp], q, expected));
    assert(!preferred(peaks[kq], p, expected));
}

/// A peak that meets the description of the match is what `best_in_scan`
/// gives.
pub proof fn best_in_scan_is(peaks: Seq<Peak>, expected: i64, tolerance: i64, p: Peak)
    requires
        is_best_in_scan(peaks, expected, tolerance, p),
    ensures
        best_in_scan(peaks, expected, tolerance) == Some(p),
{
    let q = choose|q: Peak| is_best_in_scan(peaks, expected, tolerance, q);
    best_in_scan_unique(peaks, expected, tolerance, p, q);
}

/// A scan without a peak in the window has no match.
pub proof fn best_in_scan_none(peaks: Seq<Peak>, expected: i64, tolerance: i64)
    requires
        !has_match(peaks, expected, tolerance),
    ensures
        best_in_scan(peaks, expected, tolerance) is None,
{
    assert forall|p: Peak| !is_best_in_scan(peaks, expected, tolerance, p) by {
        if is_best_in_scan(peaks, expected, tolerance, p) {
            let k = choose|k: int| 0 <= k < peaks.len() && peaks[k] == p;
            assert(in_window(peaks[k], expected, tolerance));
        }
    }
}

/// A run has at most one apex for an expected mass.
pub proof fn apex_unique(scans: Seq<ScanView>, expected: i64, tolerance: i64, a: Apex, b: Apex)
    requires
        is_apex(scans, expected, tolerance, a),
        is_apex(scans, expected, tolerance, b),
    ensures
        a == b,
{
    let i = choose|i: int| is_apex_at(scans, expected, tolerance, a, i);
    let j = choose|j: int| is_apex_at(scans, expected, tolerance, b, j);
    let pa = scans[i].peaks;
    let pb = scans[j].peaks;
    let ka = choose|k: int| 0 <= k < pa.len() && pa[k] == a.peak();
    let kb = choose|k: int| 0 <= k < pb.len() && pb[k] == b.peak();
    assert(in_window(scans[i].peaks[ka], expected, tolerance));
    assert(in_window(scans[j].peaks[kb], expected, tolerance));
    assert(a.intensity == b.intensity);
    if i < j {
        assert(scans[i].peaks[ka].intensity < b.intensity);
    } else if j < i {
        assert(scans[j].peaks[kb].intensity < a.intensity);
    } else {
        best_in_scan_unique(pa, expected, tolerance, a.peak(), b.peak());
    }
}

/// An apex that meets the description is what `apex_of` gives.
pub proof fn apex_of_is(scans: Seq<ScanView>, expected: i64, tolerance: i64, a: Apex)
    requires
        is_apex(scans, expected, tolerance, a),
    ensures
        apex_of(scans, expected, tolerance) == Some(a),
{
    let b = choose|b: Apex| is_apex(scans, expected, tolerance, b);
    apex_unique(scans, expected, tolerance, a, b);
}

/// A run in which no peak lies in the window has no apex.
pub proof fn apex_of_none(scans: Seq<ScanView>, expected: i64, tolerance: i64)
    requires
        no_match(scans, expected, tolerance),
    ensures
        apex_of(scans, expected, tolerance) is None,
{
    assert forall|a: Apex| !is_apex(scans, expected, tolerance, a) by {
        if is_apex(scans, expected, tolerance, a) {
            let i = choose|i: int| is_apex_at(scans, expected, tolerance, a, i);
            let ps = scans[i].peaks;
            let k = choose|k: int| 0 <= k < ps.len() && ps[k] == a.peak();
            assert(in_window(scans[i].peaks[k], expected, tolerance));
        }
    }
}

/// The match of a scan is at least as intense as every peak of the scan in
/// the window, and among those of its own intensity none is nearer to the
/// expected mass.
pub proof fn match_is_most_intense_then_nearest(
    peaks: Seq<Peak>,
    expected: i64,
    tolerance: i64,
    p: Peak,
    q: Peak,
)
    requires
        best_in_scan(peaks, expected, tolerance) == Some(p),
        peaks.contains(q),
        in_window(q, expected, tolerance),
    ensures
        q.intensity <= p.intensity,
        q.intensity == p.intensity ==> mass_error(p.mass, expected) <= mass_error(
            q.mass,
            expected,
        ),
{
    let k = choose|k: int| 0 <= k < peaks.len() && peaks[k] == q;
    assert(!preferred(peaks[k], p, expected));
}

/// Of two peaks of equal intensity in the window, with no other peak of the
/// scan in the window, the one nearer to the expected mass is the match,
/// whichever of the two comes first in the scan.
pub proof fn nearer_of_two_equals_is_match(
    peaks: Seq<Peak>,
    expected: i64,
    tolerance: i64,
    near: int,
    far: int,
)
    requires
        0 <= near < peaks.len(),
        0 <= far < peaks.len(),
        in_window(peaks[near], expected, tolerance),
        in_window(peaks[far], expected, tolerance),
        peaks[near].intensity == peaks[far].intensity,
        mass_error(peaks[near].mass, expected) < mass_error(peaks[far].mass, expected),
        forall|k: int|
            0 <= k < peaks.len() && k != near && k != far ==> !in_window(
                #[trigger] peaks[k],
                expected,
                tolerance,
            ),
    ensures
        best_in_scan(peaks, expected, tolerance) == Some(peaks[near]),
{
    assert(peaks.contains(peaks[near]));
    best_in_scan_is(peaks, expected, tolerance, peaks[near]);
}

/// Two scans hold the same peaks in the window, in whatever order and
/// however often.
pub open spec fn same_candidates(
    a: Seq<Peak>,
    b: Seq<Peak>,
    expected: i64,
    tolerance: i64,
) -> bool {
    forall|p: Peak| in_window(p, expected, tolerance) ==> (a.contains(p) <==> b.contains(p))
}

proof fn same_candidates_same_match(
    a: Seq<Peak>,
    b: Seq<Peak>,
    expected: i64,
    tolerance: i64,
    p: Peak,
)
    requires
        same_candidates(a, b, expected, tolerance),
        is_best_in_scan(a, expected, tolerance, p),
    ensures
        is_best_in_scan(b, expected, tolerance, p),
{
    assert forall|k: int|
        0 <= k < b.len() && in_window(#[trigger] b[k], expected, tolerance) implies !preferred(
        b[k],
        p,
        expected,
    ) by {
        assert(b.contains(b[k]));
        let m = choose|m: int| 0 <= m < a.len() && a[m] == b[k];
        assert(in_window(a[m], expected, tolerance));
    }
}

/// The match of a scan depends on nothing but the peaks that lie in the
/// window: peaks outside it, peaks that are not usable, the order of the
/// peaks and their repetition make no difference.
pub proof fn best_in_scan_depends_on_candidates(
    a: Seq<Peak>,
    b: Seq<Peak>,
    expected: i64,
    tolerance: i64,
)
    requires
        same_candidates(a, b, expected, tolerance),
    ensures
        best_in_scan(a, expected, tolerance) == best_in_scan(b, expected, tolerance),
{
    assert forall|p: Peak| is_best_in_scan(a, expected, tolerance, p) == is_best_in_scan(
        b,
        expected,
        tolerance,
        p,
    ) by {
        if is_best_in_scan(a, expected, tolerance, p) {
            same_candidates_same_match(a, b, expected, tolerance, p);
        }
        if is_best_in_scan(b, expected, tolerance, p) {
            same_candidates_same_match(b, a, expected, tolerance, p);
        }
    }
}

/// The match of a scan does not depend on the order of its peaks: two scans
/// that hold the same peaks the same number of times have the same match.
pub proof fn best_in_scan_ignores_order(
    a: Seq<Peak>,
    b: Seq<Peak>,
    expected: i64,
    tolerance: i64,
)
    requires
        a.to_multiset() == b.to_multiset(),
    ensures
        best_in_scan(a, expected, tolerance) == best_in_scan(b, expected, tolerance),
{
    same_peaks_same_candidates(a, b, expected, tolerance);
    best_in_scan_depends_on_candidates(a, b, expected, tolerance);
}

proof fn same_peaks_same_candidates(a: Seq<Peak>, b: Seq<Peak>, expected: i64, tolerance: i64)
    requires
        a.to_multiset() == b.to_multiset(),
    ensures
        same_candidates(a, b, expected, tolerance),
{
    broadcast use vstd::seq_lib::to_multiset_contains;

    assert forall|p: Peak| a.contains(p) <==> b.contains(p) by {
        assert(a.contains(p) <==> a.to_multiset().count(p) > 0);
        assert(b.contains(p) <==> b.to_multiset().count(p) > 0);
    }
}

/// A peak that is not usable changes nothing: a scan has the same match with
/// it as without it.
pub proof fn unusable_peak_is_passed_over(
    peaks: Seq<Peak>,
    bad: Peak,
    expected: i64,
    tolerance: i64,
)
    requires
        !bad.is_usable(),
    ensures
        best_in_scan(peaks.push(bad), expected, tolerance) == best_in_scan(
            peaks,
            expected,
            tolerance,
        ),
{
    let with = peaks.push(bad);
    assert forall|p: Peak| in_window(p, expected, tolerance) implies (with.contains(p)
        <==> peaks.contains(p)) by {
        if with.contains(p) {
            let k = choose|k: int| 0 <= k < with.len() && with[k] == p;
            assert(k < peaks.len());
            assert(peaks[k] == p);
        }
        if peaks.contains(p) {
            let k = choose|k: int| 0 <= k < peaks.len() && peaks[k] == p;
            assert(with[k] == p);
        }
    }
    best_in_scan_depends_on_candidates(with, peaks, expected, tolerance);
}

/// Two runs agree scan by scan: the same retention times, and in each scan
/// the same peaks in the window.
pub open spec fn same_candidates_by_scan(
    a: Seq<ScanView>,
    b: Seq<ScanView>,
    expected: i64,
    tolerance: i64,
) -> bool {
    &&& a.len() == b.len()
    &&& forall|i: int|
        0 <= i < a.len() ==> (#[trigger] a[i]).retention_time == b[i].retention_time
            && same_candidates(a[i].peaks, b[i].peaks, expected, tolerance)
}

/// Two runs agree scan by scan up to the order of the peaks within a scan.
pub open spec fn same_up_to_peak_order(a: Seq<ScanView>, b: Seq<ScanView>) -> bool {
    &&& a.len() == b.len()
    &&& forall|i: int|
        0 <= i < a.len() ==> (#[trigger] a[i]).retention_time == b[i].retention_time
            && a[i].peaks.to_multiset() == b[i].peaks.to_multiset()
}

proof fn same_candidates_same_apex(
    a: Seq<ScanView>,
    b: Seq<ScanView>,
    expected: i64,
    tolerance: i64,
    x: Apex,
)
    requires
        same_candidates_by_scan(a, b, expected, tolerance),
        is_apex(a, expected, tolerance, x),
    ensures
        is_apex(b, expected, tolerance, x),
{
    let i = choose|i: int| is_apex_at(a, expected, tolerance, x, i);
    assert(a[i].retention_time == b[i].retention_time);
    same_candidates_same_match(a[i].peaks, b[i].peaks, expected, tolerance, x.peak());
    assert forall|j: int, k: int|
        0 <= j < b.len() && 0 <= k < b[j].peaks.len() && in_window(
            #[trigger] b[j].peaks[k],
            expected,
            tolerance,
        ) implies b[j].peaks[k].intensity <= x.intensity && (j < i ==> b[j].peaks[k].intensity
        < x.intensity) by {
        let q = b[j].peaks[k];
        assert(a[j].retention_time == b[j].retention_time);
        assert(b[j].peaks.contains(q));
        assert(a[j].peaks.contains(q));
        let m = choose|m: int| 0 <= m < a[j].peaks.len() && a[j].peaks[m] == q;
        assert(in_window(a[j].peaks[m], expected, tolerance));
    }
    assert(is_apex_at(b, expected, tolerance, x, i));
}

/// The apex of a run depends on nothing but the retention times of its scans
/// and, scan by scan, the peaks that lie in the window.
pub proof fn apex_depends_on_candidates(
    a: Seq<ScanView>,
    b: Seq<ScanView>,
    expected: i64,
    tolerance: i64,
)
    requires
        same_candidates_by_scan(a, b, expected, tolerance),
    ensures
        apex_of(a, expected, tolerance) == apex_of(b, expected, tolerance),
{
    assert(same_candidates_by_scan(b, a, expected, tolerance)) by {
        assert forall|i: int| 0 <= i < b.len() implies (#[trigger] b[i]).retention_time
            == a[i].retention_time && same_candidates(
            b[i].peaks,
            a[i].peaks,
            expected,
            tolerance,
        ) by {
            assert(a[i].retention_time == b[i].retention_time);
        }
    }
    assert forall|x: Apex| is_apex(a, expected, tolerance, x) == is_apex(
        b,
        expected,
        tolerance,
        x,
    ) by {
        if is_apex(a, expected, tolerance, x) {
            same_candidates_same_apex(a, b, expected, tolerance, x);
        }
        if is_apex(b, expected, tolerance, x) {
            same_candidates_same_apex(b, a, expected, tolerance, x);
        }
    }
}

/// The apex of a run does not depend on the order of the peaks within its
/// scans.
pub proof fn apex_ignores_peak_order(
    a: Seq<ScanView>,
    b: Seq<ScanView>,
    expected: i64,
    tolerance: i64,
)
    requires
        same_up_to_peak_order(a, b),
    ensures
        apex_of(a, expected, tolerance) == apex_of(b, expected, tolerance),
{
    assert forall|i: int| 0 <= i < a.len() implies (#[trigger] a[i]).retention_time
        == b[i].retention_time && same_candidates(a[i].peaks, b[i].peaks, expected, tolerance) by {
        same_peaks_same_candidates(a[i].peaks, b[i].peaks, expected, tolerance);
    }
    apex_depends_on_candidates(a, b, expected, tolerance);
}

/// A usable peak lies in the window of its own mass under every tolerance
/// that is not negative.
pub proof fn exact_mass_in_window(p: Peak, tolerance: i64)
    requires
        p.is_usable(),
        tolerance >= 0,
    ensures
        in_window(p, p.mass, tolerance),
{
}

/// A peak in the window that is more intense than every other peak of the run
/// in the window is the apex: its intensity, its mass and the retention time
/// of its scan are what is recorded.
pub proof fn dominant_peak_is_apex(
    scans: Seq<ScanView>,
    expected: i64,
    tolerance: i64,
    i: int,
    k: int,
)
    requires
        0 <= i < scans.len(),
        0 <= k < scans[i].peaks.len(),
        in_window(scans[i].peaks[k], expected, tolerance),
        forall|j: int, m: int|
            0 <= j < scans.len() && 0 <= m < scans[j].peaks.len() && (j != i || m != k)
                && in_window(#[trigger] scans[j].peaks[m], expected, tolerance)
                ==> scans[j].peaks[m].intensity < scans[i].peaks[k].intensity,
    ensures
        apex_of(scans, expected, tolerance) == Some(
            Apex {
                intensity: scans[i].peaks[k].intensity,
                retention_time: scans[i].retention_time,
                observed_mass: scans[i].peaks[k].mass,
            },
        ),
{
    let p = scans[i].peaks[k];
    let a = Apex {
        intensity: p.intensity,
        retention_time: scans[i].retention_time,
        observed_mass: p.mass,
    };
    assert(a.peak() == p);
    assert(scans[i].peaks.contains(p));
    assert(is_apex_at(scans, expected, tolerance, a, i));
    apex_of_is(scans, expected, tolerance, a);
}

/// A usable peak at exactly the expected mass, under a tolerance that is not
/// negative, is what is recorded, provided that every other peak of the run
/// in the window is less intense.
pub proof fn exact_peak_is_recorded(scans: Seq<ScanView>, tolerance: i64, i: int, k: int)
    requires
        0 <= i < scans.len(),
        0 <= k < scans[i].peaks.len(),
        scans[i].peaks[k].is_usable(),
        tolerance >= 0,
        forall|j: int, m: int|
            0 <= j < scans.len() && 0 <= m < scans[j].peaks.len() && (j != i || m != k)
                && in_window(#[trigger] scans[j].peaks[m], scans[i].peaks[k].mass, tolerance)
                ==> scans[j].peaks[m].intensity < scans[i].peaks[k].intensity,
    ensures
        apex_of(scans, scans[i].peaks[k].mass, tolerance) == Some(
            Apex {
                intensity: scans[i].peaks[k].intensity,
                retention_time: scans[i].retention_time,
                observed_mass: scans[i].peaks[k].mass,
            },
        ),
{
    exact_mass_in_window(scans[i].peaks[k], tolerance);
    dominant_peak_is_apex(scans, scans[i].peaks[k].mass, tolerance, i, k);
}

/// Where the match of one scan is more intense than every peak in the window
/// of every other scan, the apex is read from that scan, wherever it stands
/// in the run.
pub proof fn most_intense_scan_is_apex(
    scans: Seq<ScanView>,
    expected: i64,
    tolerance: i64,
    i: int,
    p: Peak,
)
    requires
        0 <= i < scans.len(),
        best_in_scan(scans[i].peaks, expected, tolerance) == Some(p),
        forall|j: int, m: int|
            0 <= j < scans.len() && 0 <= m < scans[j].peaks.len() && j != i && in_window(
                #[trigger] scans[j].peaks[m],
                expected,
                tolerance,
            ) ==> scans[j].peaks[m].intensity < p.intensity,
    ensures
        apex_of(scans, expected, tolerance) == Some(
            Apex {
                intensity: p.intensity,
                retention_time: scans[i].retention_time,
                observed_mass: p.mass,
            },
        ),
{
    let a = Apex {
        intensity: p.intensity,
        retention_time: scans[i].retention_time,
        observed_mass: p.mass,
    };
    assert(a.peak() == p);
    assert(is_best_in_scan(scans[i].peaks, expected, tolerance, p));
    assert forall|j: int, m: int|
        0 <= j < scans.len() && 0 <= m < scans[j].peaks.len() && in_window(
            #[trigger] scans[j].peaks[m],
            expected,
            tolerance,
        ) implies scans[j].peaks[m].intensity <= a.intensity by {
        if j == i {
            assert(!preferred(scans[i].peaks[m], p, expected));
        }
    }
    assert(is_apex_at(scans, expected, tolerance, a, i));
    apex_of_is(scans, expected, tolerance, a);
}

/// Where the apex exists, no peak of the run in the window is more intense,
/// and the apex is read from a peak of the run in the window.
pub proof fn apex_is_highest_match(
    scans: Seq<ScanView>,
    expected: i64,
    tolerance: i64,
    a: Apex,
    j: int,
    k: int,
)
    requires
        apex_of(scans, expected, tolerance) == Some(a),
        0 <= j < scans.len(),
        0 <= k < scans[j].peaks.len(),
        in_window(scans[j].peaks[k], expected, tolerance),
    ensures
        scans[j].peaks[k].intensity <= a.intensity,
        in_window(a.peak(), expected, tolerance),
{
    let i = choose|i: int| is_apex_at(scans, expected, tolerance, a, i);
}

/// Where every peak of every scan is farther from the expected mass than the
/// tolerance, nothing is recorded.
pub proof fn no_false_match(scans: Seq<ScanView>, expected: i64, tolerance: i64)
    requires
        forall|j: int, k: int|
            0 <= j < scans.len() && 0 <= k < scans[j].peaks.len() ==> mass_error(
                (#[trigger] scans[j].peaks[k]).mass,
                expected,
            ) > tolerance,
    ensures
        apex_of(scans, expected, tolerance) is None,
{
    apex_of_none(scans, expected, tolerance);
}

/// A witness for the match among the first `n` peaks of a scan.
proof fn best_among(peaks: Seq<Peak>, n: int, expected: i64, tolerance: i64) -> (r: Option<Peak>)
    requires
        0 <= n <= peaks.len(),
    ensures
        match r {
            Some(p) => {
                &&& exists|k: int| 0 <= k < n && peaks[k] == p
                &&& in_window(p, expected, tolerance)
                &&& forall|k: int|
                    0 <= k < n && in_window(#[trigger] peaks[k], expected, tolerance)
                        ==> !preferred(peaks[k], p, expected)
            },
            None => forall|k: int|
                0 <= k < n ==> !in_window(#[trigger] peaks[k], expected, tolerance),
        },
    decreases n,
{
    if n == 0 {
        None
    } else {
        let before = best_among(peaks, n - 1, expected, tolerance);
        let q = peaks[n - 1];
        if !in_window(q, expected, tolerance) {
            before
        } else {
            match before {
                Some(p) => if preferred(q, p, expected) {
                    Some(q)
                } else {
                    Some(p)
                },
                None => Some(q),
            }
        }
    }
}

/// A witness for the apex among the first `n` scans of a run.
proof fn apex_among(scans: Seq<ScanView>, n: int, expected: i64, tolerance: i64) -> (r: Option<
    (Apex, int),
>)
    requires
        0 <= n <= scans.len(),
    ensures
        match r {
            Some((a, i)) => {
                &&& 0 <= i < n
                &&& a.retention_time == scans[i].retention_time
                &&& is_best_in_scan(scans[i].peaks, expected, tolerance, a.peak())
                &&& forall|j: int, k: int|
                    0 <= j < n && 0 <= k < scans[j].peaks.len() && in_window(
                        #[trigger] scans[j].peaks[k],
                        expected,
                        tolerance,
                    ) ==> scans[j].peaks[k].intensity <= a.intensity
                &&& forall|j: int, k: int|
                    0 <= j < i && 0 <= k < scans[j].peaks.len() && in_window(
                        #[trigger] scans[j].peaks[k],
                        expected,
                        tolerance,
                    ) ==> scans[j].peaks[k].intensity < a.intensity
            },
            None => forall|j: int, k: int|
                0 <= j < n && 0 <= k < scans[j].peaks.len() ==> !in_window(
                    #[trigger] scans[j].peaks[k],
                    expected,
                    tolerance,
                ),
        },
    decreases n,
{
    if n == 0 {
        None
    } else {
        let before = apex_among(scans, n - 1, expected, tolerance);
        let peaks = scans[n - 1].peaks;
        match best_among(peaks, peaks.len() as int, expected, tolerance) {
            Some(p) => {
                let here = Apex {
                    intensity: p.intensity,
                    retention_time: scans[n - 1].retention_time,
                    observed_mass: p.mass,
                };
                assert(here.peak() == p);
                assert(peaks.contains(p));
                match before {
                    Some((a, i)) => if p.intensity > a.intensity {
                        Some((here, n - 1))
                    } else {
                        Some((a, i))
                    },
                    None => Some((here, n - 1)),
                }
            },
            None => before,
        }
    }
}

/// Where some peak of the run lies in the window, an apex is recorded.
pub proof fn match_gives_apex(scans: Seq<ScanView>, expected: i64, tolerance: i64, j: int, k: int)
    requires
        0 <= j < scans.len(),
        0 <= k < scans[j].peaks.len(),
        in_window(scans[j].peaks[k], expected, tolerance),
    ensures
        apex_of(scans, expected, tolerance) is Some,
{
    match apex_among(scans, scans.len() as int, expected, tolerance) {
        Some((a, i)) => {
            assert(is_apex_at(scans, expected, tolerance, a, i));
            apex_of_is(scans, expected, tolerance, a);
        },
        None => {
            assert(!in_window(scans[j].peaks[k], expected, tolerance));
        },
    }
}

} // verus!
