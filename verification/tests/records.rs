use lcmspector_backend::ion_list::{IonGroup, IonList, TargetIon};
use lcmspector_backend::matching::Apex;
use lcmspector_backend::measurements::{Compound, IonData, IonEntry, MSMeasurement};
use lcmspector_backend::records::{
    Attribute, AttributeValue, CompoundRecord, IonRecord, MeasurementRecord, IONS_KEY,
    ION_INFO_KEY, MASS_ACCURACY_KEY, NAME_KEY, SPECTRA_DATA_KEY, XICS_KEY,
};
use lcmspector_backend::scans::{Peak, Scan};

fn av(attribute: Attribute, value: i64) -> AttributeValue {
    AttributeValue { attribute, value }
}

#[test]
fn attribute_keys() {
    assert_eq!(Attribute::Intensity.key(), "intensity");
    assert_eq!(Attribute::RetentionTime.key(), "retention_time");
    assert_eq!(Attribute::ObservedMass.key(), "observed_mass");
}

#[test]
fn record_for_an_apex_has_all_three_values() {
    let a = Apex { intensity: 10, retention_time: 20, observed_mass: 30 };
    assert_eq!(
        IonData::from_apex(Some(a)),
        IonData { intensity: Some(10), retention_time: Some(20), observed_mass: Some(30) }
    );
}

#[test]
fn record_without_apex_has_no_value() {
    assert_eq!(
        IonData::from_apex(None),
        IonData { intensity: None, retention_time: None, observed_mass: None }
    );
}

#[test]
fn absent_attributes_are_left_out() {
    let none = IonData { intensity: None, retention_time: None, observed_mass: None };
    assert_eq!(none.present_attributes(), vec![]);
    let all = IonData { intensity: Some(1), retention_time: Some(2), observed_mass: Some(3) };
    assert_eq!(
        all.present_attributes(),
        vec![
            av(Attribute::Intensity, 1),
            av(Attribute::RetentionTime, 2),
            av(Attribute::ObservedMass, 3)
        ]
    );
    let some = IonData { intensity: Some(5), retention_time: None, observed_mass: Some(7) };
    assert_eq!(
        some.present_attributes(),
        vec![av(Attribute::Intensity, 5), av(Attribute::ObservedMass, 7)]
    );
    let one = IonData { intensity: None, retention_time: Some(0), observed_mass: None };
    assert_eq!(one.present_attributes(), vec![av(Attribute::RetentionTime, 0)]);
}

#[test]
fn zero_is_a_value_and_is_kept() {
    let zero = IonData { intensity: Some(0), retention_time: Some(0), observed_mass: Some(0) };
    assert_eq!(zero.present_attributes().len(), 3);
}

#[test]
fn ion_record_keeps_the_name() {
    let entry = IonEntry {
        name: "PFOA".to_string(),
        data: IonData { intensity: Some(1), retention_time: None, observed_mass: None },
    };
    assert_eq!(
        entry.to_record(),
        IonRecord { name: "PFOA".to_string(), attributes: vec![av(Attribute::Intensity, 1)] }
    );
}

#[test]
fn compound_record_keeps_order_and_info() {
    let compound = Compound {
        name: "C".to_string(),
        ions: vec![
            IonEntry {
                name: "z".to_string(),
                data: IonData { intensity: None, retention_time: None, observed_mass: None },
            },
            IonEntry {
                name: "a".to_string(),
                data: IonData {
                    intensity: Some(9),
                    retention_time: Some(8),
                    observed_mass: Some(7),
                },
            },
        ],
        ion_info: vec!["[M-H]-".to_string(), "C8HF15O2".to_string()],
    };
    assert_eq!(
        compound.to_record(),
        CompoundRecord {
            name: "C".to_string(),
            ions: vec![
                IonRecord { name: "z".to_string(), attributes: vec![] },
                IonRecord {
                    name: "a".to_string(),
                    attributes: vec![
                        av(Attribute::Intensity, 9),
                        av(Attribute::RetentionTime, 8),
                        av(Attribute::ObservedMass, 7)
                    ],
                },
            ],
            ion_info: vec!["[M-H]-".to_string(), "C8HF15O2".to_string()],
        }
    );
}

#[test]
fn measurement_record_has_empty_spectra() {
    let m = MSMeasurement { mass_accuracy: 3, xics: vec![] };
    assert_eq!(
        m.to_record(),
        MeasurementRecord { mass_accuracy: 3, xics: vec![], spectra_data: vec![] }
    );
}

#[test]
fn measurement_record_of_a_measured_file() {
    let list = IonList::new(vec![
        IonGroup {
            name: "PFOA".to_string(),
            ions: vec![
                TargetIon { name: "PFOA".to_string(), expected_mass: 413_000_000 },
                TargetIon { name: "PFOA-13C".to_string(), expected_mass: 414_003_000 },
            ],
            ion_info: vec!["C8HF15O2".to_string()],
        },
    ])
    .unwrap();
    let scans = vec![Scan::new(520, vec![Peak { mass: 413_000_500, intensity: 10_000 }])];
    let record = MSMeasurement::from_data(scans, &list, 2_000).to_record();
    assert_eq!(record.mass_accuracy, 2_000);
    assert!(record.spectra_data.is_empty());
    assert_eq!(record.xics.len(), 1);
    assert_eq!(record.xics[0].name, "PFOA");
    assert_eq!(record.xics[0].ion_info, vec!["C8HF15O2".to_string()]);
    assert_eq!(
        record.xics[0].ions,
        vec![
            IonRecord {
                name: "PFOA".to_string(),
                attributes: vec![
                    av(Attribute::Intensity, 10_000),
                    av(Attribute::RetentionTime, 520),
                    av(Attribute::ObservedMass, 413_000_500)
                ],
            },
            IonRecord { name: "PFOA-13C".to_string(), attributes: vec![] },
        ]
    );
}

#[test]
fn record_keys() {
    assert_eq!(MASS_ACCURACY_KEY, "mass_accuracy");
    assert_eq!(XICS_KEY, "xics");
    assert_eq!(SPECTRA_DATA_KEY, "spectra_data");
    assert_eq!(NAME_KEY, "name");
    assert_eq!(IONS_KEY, "ions");
    assert_eq!(ION_INFO_KEY, "ion_info");
}
