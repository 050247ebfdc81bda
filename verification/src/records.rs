//! The shape in which a measurement is handed to its caller: nested records
//! in which an attribute without a value does not occur at all.

use vstd::prelude::*;
use crate::matching::Apex;
use crate::measurements::{
    Compound,
    CompoundView,
    IonData,
    IonEntry,
    IonEntryView,
    MSMeasurement,
    MeasurementView,
};
use crate::scans::{Scan, ScanView, scans_view};
use crate::text::{clone_texts, texts};

verus! {

/// Key of a measurement's tolerance.
pub const MASS_ACCURACY_KEY: &'static str = "mass_accuracy";

/// Key of a measurement's compounds.
pub const XICS_KEY: &'static str = "xics";

/// Key of a measurement's reserved list of raw spectra.
pub const SPECTRA_DATA_KEY: &'static str = "spectra_data";

/// Key of a compound's name.
pub const NAME_KEY: &'static str = "name";

/// Key of a compound's ions.
pub const IONS_KEY: &'static str = "ions";

/// Key of a compound's descriptive entries.
pub const ION_INFO_KEY: &'static str = "ion_info";

/// The attributes that are recorded of an ion.
#[derive(Clone, Copy, Debug, PartialEq, Eq, Structural)]
pub enum Attribute {
    Intensity,
    RetentionTime,
    ObservedMass,
}

impl Attribute {
    /// The key under which the attribute is handed out.
    pub open spec fn key_text(self) -> Seq<char> {
        match self {
            Attribute::Intensity => "intensity"@,
            Attribute::RetentionTime => "retention_time"@,
            Attribute::ObservedMass => "observed_mass"@,
        }
    }

    /// The key under which the attribute is handed out.
    pub fn key(&self) -> (key: String)
        ensures
            key@ == self.key_text(),
    {
        match self {
            Attribute::Intensity => "intensity".to_owned(),
            Attribute::RetentionTime => "retention_time".to_owned(),
            Attribute::ObservedMass => "observed_mass".to_owned(),
        }
    }
}

/// An attribute with its value.
#[derive(Clone, Copy, Debug, PartialEq, Eq, Structural)]
pub struct AttributeValue {
    pub attribute: Attribute,
    pub value: i64,
}

/// The one entry of an attribute that has a value, and no entry of one that
/// has none.
pub open spec fn entry_if_present(attribute: Attribute, value: Option<i64>) -> Seq<
    AttributeValue,
> {
    match value {
        Some(v) => seq![AttributeValue { attribute, value: v }],
        None => Seq::empty(),
    }
}

impl IonData {
    /// The attributes that have a value, each with its value: intensity
    /// first, then retention time, then observed mass.
    pub open spec fn present(self) -> Seq<AttributeValue> {
        entry_if_present(Attribute::Intensity, self.intensity) + entry_if_present(
            Attribute::RetentionTime,
            self.retention_time,
        ) + entry_if_present(Attribute::ObservedMass, self.observed_mass)
    }

    /// The attributes that have a value, each with its value.
    pub fn present_attributes(&self) -> (out: Vec<AttributeValue>)
        ensures
            out@ == self.present(),
    {
        let mut out: Vec<AttributeValue> = Vec::new();
        if let Some(v) = self.intensity {
            out.push(AttributeValue { attribute: Attribute::Intensity, value: v });
        }
        assert(out@ =~= entry_if_present(Attribute::Intensity, self.intensity));
        if let Some(v) = self.retention_time {
            out.push(AttributeValue { attribute: Attribute::RetentionTime, value: v });
        }
        assert(out@ =~= entry_if_present(Attribute::Intensity, self.intensity) + entry_if_present(
            Attribute::RetentionTime,
            self.retention_time,
        ));
        if let Some(v) = self.observed_mass {
            out.push(AttributeValue { attribute: Attribute::ObservedMass, value: v });
        }
        assert(out@ =~= self.present());
        out
    }
}

/// One ion as it is handed out.
#[derive(Clone, Debug, PartialEq, Eq)]
pub struct IonRecord {
    pub name: String,
    /// The attributes that have a value.
    pub attributes: Vec<AttributeValue>,
}

/// What an ion record holds.
pub struct IonRecordView {
    pub name: Seq<char>,
    pub attributes: Seq<AttributeValue>,
}

impl View for IonRecord {
    type V = IonRecordView;

    open spec fn view(&self) -> IonRecordView {
        IonRecordView { name: self.name@, attributes: self.attributes@ }
    }
}

/// What a list of ion records holds, in order.
pub open spec fn ion_records_view(records: Seq<IonRecord>) -> Seq<IonRecordView> {
    Seq::new(records.len(), |i: int| records[i]@)
}

/// One compound as it is handed out.
#[derive(Clone, Debug, PartialEq, Eq)]
pub struct CompoundRecord {
    pub name: String,
    pub ions: Vec<IonRecord>,
    pub ion_info: Vec<String>,
}

/// What a compound record holds.
pub struct CompoundRecordView {
    pub name: Seq<char>,
    pub ions: Seq<IonRecordView>,
    pub ion_info: Seq<Seq<char>>,
}

impl View for CompoundRecord {
    type V = CompoundRecordView;

    open spec fn view(&self) -> CompoundRecordView {
        CompoundRecordView {
            name: self.name@,
            ions: ion_records_view(self.ions@),
            ion_info: texts(self.ion_info@),
        }
    }
}

/// What a list of compound records holds, in order.
pub open spec fn compound_records_view(records: Seq<CompoundRecord>) -> Seq<CompoundRecordView> {
    Seq::new(records.len(), |i: int| records[i]@)
}

/// One measurement as it is handed out.
#[derive(Clone, Debug, PartialEq, Eq)]
pub struct MeasurementRecord {
    pub mass_accuracy: i64,
    pub xics: Vec<CompoundRecord>,
    /// Reserved for raw spectra. It is always there and always empty.
    pub spectra_data: Vec<Scan>,
}

/// What a measurement record holds.
pub struct MeasurementRecordView {
    pub mass_accuracy: i64,
    pub xics: Seq<CompoundRecordView>,
    pub spectra_data: Seq<ScanView>,
}

impl View for MeasurementRecord {
    type V = MeasurementRecordView;

    open spec fn view(&self) -> MeasurementRecordView {
        MeasurementRecordView {
            mass_accuracy: self.mass_accuracy,
            xics: compound_records_view(self.xics@),
            spectra_data: scans_view(self.spectra_data@),
        }
    }
}

/// The record of an ion: its name and the attributes that have a value.
pub open spec fn ion_record_of(entry: IonEntryView) -> IonRecordView {
    IonRecordView { name: entry.name, attributes: entry.data.present() }
}

/// The record of a compound: its name, the records of its ions in order, and
/// its descriptive entries.
pub open spec fn compound_record_of(compound: CompoundView) -> CompoundRecordView {
    CompoundRecordView {
        name: compound.name,
        ions: Seq::new(compound.ions.len(), |i: int| ion_record_of(compound.ions[i])),
        ion_info: compound.ion_info,
    }
}

/// The record of a measurement: its tolerance, the records of its compounds
/// in order, and no spectra.
pub open spec fn measurement_record_of(measurement: MeasurementView) -> MeasurementRecordView {
    MeasurementRecordView {
        mass_accuracy: measurement.mass_accuracy,
        xics: Seq::new(
            measurement.xics.len(),
            |i: int| compound_record_of(measurement.xics[i]),
        ),
        spectra_data: Seq::empty(),
    }
}

impl IonEntry {
    /// The record of this ion.
    pub fn to_record(&self) -> (record: IonRecord)
        ensures
            record@ == ion_record_of(self@),
    {
        IonRecord { name: self.name.clone(), attributes: self.data.present_attributes() }
    }
}

impl Compound {
    /// The record of this compound.
    pub fn to_record(&self) -> (record: CompoundRecord)
        ensures
            record@ == compound_record_of(self@),
    {
        let n: usize = self.ions.len();
        let mut ions: Vec<IonRecord> = Vec::new();
        let mut i: usize = 0;
        while i < n
            invariant
                n == self.ions@.len(),
                i <= n,
                ions@.len() == i,
                forall|k: int| 0 <= k < i ==> (#[trigger] ions@[k])@ == ion_record_of(self.ions@[k]@),
            decreases n - i,
        {
            ions.push(self.ions[i].to_record());
            i = i + 1;
        }
        let record = CompoundRecord {
            name: self.name.clone(),
            ions,
            ion_info: clone_texts(&self.ion_info),
        };
        assert(record@.ions =~= compound_record_of(self@).ions);
        record
    }
}

impl MSMeasurement {
    /// The record of this measurement.
    pub fn to_record(&self) -> (record: MeasurementRecord)
        ensures
            record@ == measurement_record_of(self@),
    {
        let n: usize = self.xics.len();
        let mut xics: Vec<CompoundRecord> = Vec::new();
        let mut i: usize = 0;
        while i < n
            invariant
                n == self.xics@.len(),
                i <= n,
                xics@.len() == i,
                forall|k: int|
                    0 <= k < i ==> (#[trigger] xics@[k])@ == compound_record_of(self.xics@[k]@),
            decreases n - i,
        {
            xics.push(self.xics[i].to_record());
            i = i + 1;
        }
        let record = MeasurementRecord {
            mass_accuracy: self.mass_accuracy,
            xics,
            spectra_data: Vec::new(),
        };
        assert(record@.xics =~= measurement_record_of(self@).xics);
        assert(record@.spectra_data =~= Seq::<ScanView>::empty());
        record
    }
}

/// What is recorded for an apex shows all three attributes, in order; what
/// is recorded where there is none shows no attribute.
pub proof fn record_shows_all_or_nothing(apex: Option<Apex>)
    ensures
        match apex {
            Some(a) => IonData::of(apex).present() == seq![
                AttributeValue { attribute: Attribute::Intensity, value: a.intensity },
                AttributeValue { attribute: Attribute::RetentionTime, value: a.retention_time },
                AttributeValue { attribute: Attribute::ObservedMass, value: a.observed_mass },
            ],
            None => IonData::of(apex).present() == Seq::<AttributeValue>::empty(),
        },
{
    match apex {
        Some(a) => {
            assert(IonData::of(apex).present() =~= seq![
                AttributeValue { attribute: Attribute::Intensity, value: a.intensity },
                AttributeValue { attribute: Attribute::RetentionTime, value: a.retention_time },
                AttributeValue { attribute: Attribute::ObservedMass, value: a.observed_mass },
            ]);
        },
        None => {
            assert(IonData::of(apex).present() =~= Seq::<AttributeValue>::empty());
        },
    }
}

} // verus!
