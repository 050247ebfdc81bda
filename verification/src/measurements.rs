//! The measurement of one file: for every compound of the panel, what was
//! recorded of each of its ions.

use vstd::prelude::*;
use crate::ion_list::{
    ion_names_differ,
    well_formed,
    IonGroup,
    IonGroupView,
    IonList,
    TargetIon,
    TargetIonView,
};
use crate::matching::{
    apex_of,
    apex_of_none,
    dominant_peak_is_apex,
    find_apex,
    in_window,
    mass_error,
    match_gives_apex,
    no_false_match,
    Apex,
};
use crate::scans::{scans_view, Scan, ScanView};
use crate::text::{clone_texts, texts};

verus! {

/// What was recorded of one ion. An attribute without a value was not
/// measured; it is never written as zero.
#[derive(Clone, Copy, Debug, PartialEq, Eq, Structural)]
pub struct IonData {
    /// Intensity at the apex.
    pub intensity: Option<i64>,
    /// Retention time of the apex.
    pub retention_time: Option<i64>,
    /// Mass observed at the apex.
    pub observed_mass: Option<i64>,
}

impl IonData {
    /// What is recorded for an apex: its three values, or nothing at all
    /// where there is no apex.
    pub open spec fn of(apex: Option<Apex>) -> IonData {
        match apex {
            Some(a) => IonData {
                intensity: Some(a.intensity),
                retention_time: Some(a.retention_time),
                observed_mass: Some(a.observed_mass),
            },
            None => IonData { intensity: None, retention_time: None, observed_mass: None },
        }
    }

    /// No attribute has a value.
    pub open spec fn is_empty(self) -> bool {
        self.intensity is None && self.retention_time is None && self.observed_mass is None
    }

    /// Every attribute has a value.
    pub open spec fn is_complete(self) -> bool {
        self.intensity is Some && self.retention_time is Some && self.observed_mass is Some
    }

    /// The record for an apex.
    pub fn from_apex(apex: Option<Apex>) -> (data: IonData)
        ensures
            data == IonData::of(apex),
    {
        match apex {
            Some(a) => IonData {
                intensity: Some(a.intensity),
                retention_time: Some(a.retention_time),
                observed_mass: Some(a.observed_mass),
            },
            None => IonData { intensity: None, retention_time: None, observed_mass: None },
        }
    }
}

/// One ion of a compound with what was recorded of it.
#[derive(Clone, Debug, PartialEq, Eq)]
pub struct IonEntry {
    /// Name of the ion.
    pub name: String,
    /// Its recorded attributes.
    pub data: IonData,
}

/// What an ion entry holds.
pub struct IonEntryView {
    pub name: Seq<char>,
    pub data: IonData,
}

impl View for IonEntry {
    type V = IonEntryView;

    open spec fn view(&self) -> IonEntryView {
        IonEntryView { name: self.name@, data: self.data }
    }
}

/// What a list of ion entries holds, in order.
pub open spec fn entries_view(entries: Seq<IonEntry>) -> Seq<IonEntryView> {
    Seq::new(entries.len(), |i: int| entries[i]@)
}

/// The chromatogram summary of one compound.
#[derive(Clone, Debug, PartialEq, Eq)]
pub struct Compound {
    /// Name of the compound, as in the panel.
    pub name: String,
    /// One entry per ion of the compound, in the order of the panel.
    pub ions: Vec<IonEntry>,
    /// The descriptive entries of the panel, unchanged.
    pub ion_info: Vec<String>,
}

/// What a compound holds.
pub struct CompoundView {
    pub name: Seq<char>,
    pub ions: Seq<IonEntryView>,
    pub ion_info: Seq<Seq<char>>,
}

impl View for Compound {
    type V = CompoundView;

    open spec fn view(&self) -> CompoundView {
        CompoundView {
            name: self.name@,
            ions: entries_view(self.ions@),
            ion_info: texts(self.ion_info@),
        }
    }
}

/// What a list of compounds holds, in order.
pub open spec fn compounds_view(compounds: Seq<Compound>) -> Seq<CompoundView> {
    Seq::new(compounds.len(), |i: int| compounds[i]@)
}

/// The measurement of one file.
#[derive(Clone, Debug, PartialEq, Eq)]
pub struct MSMeasurement {
    /// The mass tolerance that the measurement was made with.
    pub mass_accuracy: i64,
    /// One compound per group of the panel, in the order of the panel.
    pub xics: Vec<Compound>,
}

/// What a measurement holds.
pub struct MeasurementView {
    pub mass_accuracy: i64,
    pub xics: Seq<CompoundView>,
}

impl View for MSMeasurement {
    type V = MeasurementView;

    open spec fn view(&self) -> MeasurementView {
        MeasurementView { mass_accuracy: self.mass_accuracy, xics: compounds_view(self.xics@) }
    }
}

/// The entry of one ion: its name, and its apex in the run if it has one.
pub open spec fn ion_entry_of(scans: Seq<ScanView>, ion: TargetIonView, tolerance: i64)
    -> IonEntryView {
    IonEntryView {
        name: ion.name,
        data: IonData::of(apex_of(scans, ion.expected_mass, tolerance)),
    }
}

/// The compound of one group: its name, one entry per ion in the order of the
/// group, and the group's descriptive entries.
pub open spec fn compound_of(scans: Seq<ScanView>, group: IonGroupView, tolerance: i64)
    -> CompoundView {
    CompoundView {
        name: group.name,
        ions: Seq::new(group.ions.len(), |k: int| ion_entry_of(scans, group.ions[k], tolerance)),
        ion_info: group.ion_info,
    }
}

/// The measurement of a run against a panel: the tolerance as given, and one
/// compound per group in the order of the panel.
pub open spec fn measurement_of(scans: Seq<ScanView>, panel: Seq<IonGroupView>, tolerance: i64)
    -> MeasurementView {
    MeasurementView {
        mass_accuracy: tolerance,
        xics: Seq::new(panel.len(), |c: int| compound_of(scans, panel[c], tolerance)),
    }
}

impl IonEntry {
    /// Looks for one ion in a run.
    pub fn from_data(scans: &Vec<Scan>, ion: &TargetIon, tolerance: i64) -> (entry: IonEntry)
        ensures
            entry@ == ion_entry_of(scans_view(scans@), ion@, tolerance),
    {
        let apex: Option<Apex> = find_apex(scans, ion.expected_mass, tolerance);
        IonEntry { name: ion.name.clone(), data: IonData::from_apex(apex) }
    }
}

impl Compound {
    /// Looks for the ions of one group in a run.
    pub fn from_data(scans: &Vec<Scan>, group: &IonGroup, tolerance: i64) -> (compound: Compound)
        ensures
            compound@ == compound_of(scans_view(scans@), group@, tolerance),
    {
        let n: usize = group.ions.len();
        let mut ions: Vec<IonEntry> = Vec::new();
        let mut k: usize = 0;
        while k < n
            invariant
                n == group.ions@.len(),
                k <= n,
                ions@.len() == k,
                forall|m: int|
                    0 <= m < k ==> (#[trigger] ions@[m])@ == ion_entry_of(
                        scans_view(scans@),
                        group.ions@[m]@,
                        tolerance,
                    ),
            decreases n - k,
        {
            ions.push(IonEntry::from_data(scans, &group.ions[k], tolerance));
            k = k + 1;
        }
        let compound = Compound {
            name: group.name.clone(),
            ions,
            ion_info: clone_texts(&group.ion_info),
        };
        assert(compound@.ions =~= compound_of(scans_view(scans@), group@, tolerance).ions);
        compound
    }
}

impl MSMeasurement {
    /// Measures one file: looks for every ion of the panel in the scans of
    /// the file. The scans are used up.
    pub fn from_data(ms1_scans: Vec<Scan>, ion_list: &IonList, mass_accuracy: i64) -> (measurement:
        MSMeasurement)
        ensures
            measurement@ == measurement_of(scans_view(ms1_scans@), ion_list@, mass_accuracy),
            measurement@.mass_accuracy == mass_accuracy,
            measurement@.xics.len() == ion_list@.len(),
    {
        MSMeasurement::measure(&ms1_scans, ion_list, mass_accuracy)
    }

    /// Measures one file, leaving its scans in place.
    pub fn measure(scans: &Vec<Scan>, ion_list: &IonList, mass_accuracy: i64) -> (measurement:
        MSMeasurement)
        ensures
            measurement@ == measurement_of(scans_view(scans@), ion_list@, mass_accuracy),
            measurement@.mass_accuracy == mass_accuracy,
            measurement@.xics.len() == ion_list@.len(),
    {
        let groups: &Vec<IonGroup> = ion_list.groups();
        let n: usize = groups.len();
        let mut xics: Vec<Compound> = Vec::new();
        let mut c: usize = 0;
        while c < n
            invariant
                n == groups@.len(),
                c <= n,
                xics@.len() == c,
                forall|m: int|
                    0 <= m < c ==> (#[trigger] xics@[m])@ == compound_of(
                        scans_view(scans@),
                        groups@[m]@,
                        mass_accuracy,
                    ),
            decreases n - c,
        {
            xics.push(Compound::from_data(scans, &groups[c], mass_accuracy));
            c = c + 1;
        }
        let measurement = MSMeasurement { mass_accuracy, xics };
        assert(measurement@.xics =~= measurement_of(
            scans_view(scans@),
            ion_list@,
            mass_accuracy,
        ).xics);
        measurement
    }
}

/// A measurement echoes the tolerance and follows the panel: it has exactly
/// one compound per group, in the order of the panel, each with the name and
/// the descriptive entries of its group and with one entry per ion of the
/// group, in the order of the group and under the ion's name. This holds
/// whether or not any ion matched.
pub proof fn measurement_follows_panel(
    scans: Seq<ScanView>,
    panel: Seq<IonGroupView>,
    tolerance: i64,
)
    ensures
        measurement_of(scans, panel, tolerance).mass_accuracy == tolerance,
        measurement_of(scans, panel, tolerance).xics.len() == panel.len(),
        forall|c: int|
            0 <= c < panel.len() ==> {
                let compound = #[trigger] measurement_of(scans, panel, tolerance).xics[c];
                &&& compound.name == panel[c].name
                &&& compound.ion_info == panel[c].ion_info
                &&& compound.ions.len() == panel[c].ions.len()
                &&& forall|k: int|
                    0 <= k < panel[c].ions.len() ==> (#[trigger] compound.ions[k]).name
                        == panel[c].ions[k].name
            },
{
}

/// Every entry of a measurement is all or nothing: it has all three
/// attributes when some peak of the run lies in the window of its ion, and
/// none otherwise.
pub proof fn entry_is_complete_or_empty(
    scans: Seq<ScanView>,
    panel: Seq<IonGroupView>,
    tolerance: i64,
    c: int,
    k: int,
)
    requires
        0 <= c < panel.len(),
        0 <= k < panel[c].ions.len(),
    ensures
        ({
            let data = measurement_of(scans, panel, tolerance).xics[c].ions[k].data;
            let expected = panel[c].ions[k].expected_mass;
            let matched = exists|j: int, m: int|
                0 <= j < scans.len() && 0 <= m < scans[j].peaks.len() && in_window(
                    #[trigger] scans[j].peaks[m],
                    expected,
                    tolerance,
                );
            &&& matched ==> data.is_complete()
            &&& !matched ==> data.is_empty()
        }),
{
    let expected = panel[c].ions[k].expected_mass;
    let matched = exists|j: int, m: int|
        0 <= j < scans.len() && 0 <= m < scans[j].peaks.len() && in_window(
            #[trigger] scans[j].peaks[m],
            expected,
            tolerance,
        );
    if matched {
        let (j, m) = choose|j: int, m: int|
            0 <= j < scans.len() && 0 <= m < scans[j].peaks.len() && in_window(
                #[trigger] scans[j].peaks[m],
                expected,
                tolerance,
            );
        match_gives_apex(scans, expected, tolerance, j, m);
    } else {
        apex_of_none(scans, expected, tolerance);
    }
}

/// Where a peak in the window of an ion is more intense than every other
/// peak of the run in that window, the entry of the ion holds the intensity
/// and the mass of that peak and the retention time of its scan.
pub proof fn dominant_peak_is_recorded(
    scans: Seq<ScanView>,
    panel: Seq<IonGroupView>,
    tolerance: i64,
    c: int,
    k: int,
    i: int,
    m: int,
)
    requires
        0 <= c < panel.len(),
        0 <= k < panel[c].ions.len(),
        0 <= i < scans.len(),
        0 <= m < scans[i].peaks.len(),
        in_window(scans[i].peaks[m], panel[c].ions[k].expected_mass, tolerance),
        forall|j: int, n: int|
            0 <= j < scans.len() && 0 <= n < scans[j].peaks.len() && (j != i || n != m)
                && in_window(
                #[trigger] scans[j].peaks[n],
                panel[c].ions[k].expected_mass,
                tolerance,
            ) ==> scans[j].peaks[n].intensity < scans[i].peaks[m].intensity,
    ensures
        measurement_of(scans, panel, tolerance).xics[c].ions[k].data == (IonData {
            intensity: Some(scans[i].peaks[m].intensity),
            retention_time: Some(scans[i].retention_time),
            observed_mass: Some(scans[i].peaks[m].mass),
        }),
{
    dominant_peak_is_apex(scans, panel[c].ions[k].expected_mass, tolerance, i, m);
}

/// An ion whose expected mass is farther than the tolerance from every peak
/// of every scan has an entry without attributes.
pub proof fn unmatched_ion_has_no_attributes(
    scans: Seq<ScanView>,
    panel: Seq<IonGroupView>,
    tolerance: i64,
    c: int,
    k: int,
)
    requires
        0 <= c < panel.len(),
        0 <= k < panel[c].ions.len(),
        forall|j: int, m: int|
            0 <= j < scans.len() && 0 <= m < scans[j].peaks.len() ==> mass_error(
                (#[trigger] scans[j].peaks[m]).mass,
                panel[c].ions[k].expected_mass,
            ) > tolerance,
    ensures
        measurement_of(scans, panel, tolerance).xics[c].ions[k].data.is_empty(),
{
    no_false_match(scans, panel[c].ions[k].expected_mass, tolerance);
}

/// In the measurement against a well-formed panel no two entries bear the
/// same ion name, so the entries of a compound map each ion name to one
/// record.
pub proof fn entry_names_differ(
    scans: Seq<ScanView>,
    panel: Seq<IonGroupView>,
    tolerance: i64,
    c1: int,
    k1: int,
    c2: int,
    k2: int,
)
    requires
        well_formed(panel),
        0 <= c1 < panel.len(),
        0 <= k1 < panel[c1].ions.len(),
        0 <= c2 < panel.len(),
        0 <= k2 < panel[c2].ions.len(),
        c1 != c2 || k1 != k2,
    ensures
        measurement_of(scans, panel, tolerance).xics[c1].ions[k1].name != measurement_of(
            scans,
            panel,
            tolerance,
        ).xics[c2].ions[k2].name,
{
    ion_names_differ(panel, c1, k1, c2, k2);
}

} // verus!
