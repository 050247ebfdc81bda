use lcmspector_backend::ion_list::{IonGroup, IonList, TargetIon};
use lcmspector_backend::measurements::{IonData, MSMeasurement};
use lcmspector_backend::scans::{Peak, Scan};

/// Masses in millionths of a mass unit.
fn mass(x: f64) -> i64 {
    (x * 1_000_000.0).round() as i64
}

/// Retention times in hundredths of a time unit, intensities in tenths.
fn rt(x: f64) -> i64 {
    (x * 100.0).round() as i64
}

fn intensity(x: f64) -> i64 {
    (x * 10.0).round() as i64
}

fn pfoa_panel() -> IonList {
    let ion = TargetIon { name: "PFOA".to_string(), expected_mass: mass(413.0000) };
    let group = IonGroup { name: "PFOA".to_string(), ions: vec![ion], ion_info: vec![] };
    IonList::new(vec![group]).unwrap()
}

#[test]
fn peak_inside_window_is_recorded() {
    let scans = vec![Scan::new(
        rt(5.20),
        vec![Peak { mass: mass(413.0005), intensity: intensity(1000.0) }],
    )];
    let m = MSMeasurement::from_data(scans, &pfoa_panel(), mass(0.002));
    assert_eq!(m.mass_accuracy, 2000);
    assert_eq!(m.xics.len(), 1);
    assert_eq!(m.xics[0].name, "PFOA");
    assert_eq!(m.xics[0].ions.len(), 1);
    assert_eq!(m.xics[0].ions[0].name, "PFOA");
    assert_eq!(
        m.xics[0].ions[0].data,
        IonData {
            intensity: Some(intensity(1000.0)),
            retention_time: Some(rt(5.20)),
            observed_mass: Some(mass(413.0005)),
        }
    );
}

#[test]
fn peak_outside_window_is_not_recorded() {
    let scans = vec![Scan::new(
        rt(5.20),
        vec![Peak { mass: mass(413.0050), intensity: intensity(500.0) }],
    )];
    let m = MSMeasurement::from_data(scans, &pfoa_panel(), mass(0.002));
    assert_eq!(m.xics.len(), 1);
    assert_eq!(m.xics[0].ions.len(), 1);
    assert_eq!(
        m.xics[0].ions[0].data,
        IonData { intensity: None, retention_time: None, observed_mass: None }
    );
}

fn empty() -> IonData {
    IonData { intensity: None, retention_time: None, observed_mass: None }
}

fn three_group_panel() -> IonList {
    IonList::new(vec![
        IonGroup {
            name: "PFOS".to_string(),
            ions: vec![
                TargetIon { name: "PFOS-b".to_string(), expected_mass: 499_985 },
                TargetIon { name: "PFOS-a".to_string(), expected_mass: 500_000 },
            ],
            ion_info: vec!["sulfonate".to_string(), "C8".to_string()],
        },
        IonGroup { name: "bare".to_string(), ions: vec![], ion_info: vec![] },
        IonGroup {
            name: "PFOA".to_string(),
            ions: vec![TargetIon { name: "PFOA".to_string(), expected_mass: 413_000 }],
            ion_info: vec![],
        },
    ])
    .unwrap()
}

#[test]
fn one_compound_per_group_when_nothing_matches() {
    let m = MSMeasurement::from_data(vec![], &three_group_panel(), 10);
    assert_eq!(m.xics.len(), 3);
    assert_eq!(m.xics[0].name, "PFOS");
    assert_eq!(m.xics[1].name, "bare");
    assert_eq!(m.xics[2].name, "PFOA");
    assert_eq!(m.xics[0].ions.len(), 2);
    assert_eq!(m.xics[0].ions[0].name, "PFOS-b");
    assert_eq!(m.xics[0].ions[1].name, "PFOS-a");
    assert!(m.xics[1].ions.is_empty());
    assert_eq!(m.xics[2].ions.len(), 1);
    for c in &m.xics {
        for e in &c.ions {
            assert_eq!(e.data, empty());
        }
    }
}

#[test]
fn one_compound_per_group_when_some_match() {
    let scans = vec![
        Scan::new(100, vec![Peak { mass: 500_004, intensity: 70 }, Peak { mass: 413_020, intensity: 5 }]),
        Scan::new(200, vec![Peak { mass: 499_990, intensity: 80 }, Peak { mass: 500_000, intensity: 60 }]),
    ];
    let m = MSMeasurement::from_data(scans, &three_group_panel(), 10);
    assert_eq!(m.mass_accuracy, 10);
    assert_eq!(m.xics.len(), 3);
    assert_eq!(m.xics[0].name, "PFOS");
    assert_eq!(m.xics[0].ion_info, vec!["sulfonate".to_string(), "C8".to_string()]);
    assert_eq!(
        m.xics[0].ions[0].data,
        IonData { intensity: Some(80), retention_time: Some(200), observed_mass: Some(499_990) }
    );
    assert_eq!(
        m.xics[0].ions[1].data,
        IonData { intensity: Some(80), retention_time: Some(200), observed_mass: Some(499_990) }
    );
    assert_eq!(m.xics[1].name, "bare");
    assert!(m.xics[1].ions.is_empty());
    assert!(m.xics[1].ion_info.is_empty());
    assert_eq!(m.xics[2].name, "PFOA");
    assert_eq!(m.xics[2].ions[0].data, empty());
}

#[test]
fn empty_panel_gives_empty_measurement() {
    let list = IonList::new(vec![]).unwrap();
    let scans = vec![Scan::new(1, vec![Peak { mass: 5, intensity: 5 }])];
    let m = MSMeasurement::from_data(scans, &list, 3);
    assert_eq!(m.mass_accuracy, 3);
    assert!(m.xics.is_empty());
}

#[test]
fn tolerance_is_echoed_even_when_negative() {
    let m = MSMeasurement::from_data(vec![], &pfoa_panel(), -4);
    assert_eq!(m.mass_accuracy, -4);
}

#[test]
fn measuring_leaves_scans_and_panel_untouched() {
    let list = three_group_panel();
    let scans = vec![Scan::new(100, vec![Peak { mass: 500_004, intensity: 70 }])];
    let before = scans.clone();
    let a = MSMeasurement::measure(&scans, &list, 10);
    assert_eq!(scans, before);
    assert_eq!(list, three_group_panel());
    let b = MSMeasurement::measure(&scans, &list, 10);
    assert_eq!(a, b);
    assert_eq!(a, MSMeasurement::from_data(scans, &list, 10));
}

#[test]
fn malformed_peaks_do_not_fail_the_file() {
    let scans = vec![Scan::new(
        rt(1.0),
        vec![
            Peak { mass: mass(413.0001), intensity: -5 },
            Peak { mass: 0, intensity: intensity(900.0) },
            Peak { mass: mass(413.0010), intensity: intensity(3.0) },
        ],
    )];
    let m = MSMeasurement::from_data(scans, &pfoa_panel(), mass(0.002));
    assert_eq!(
        m.xics[0].ions[0].data,
        IonData {
            intensity: Some(intensity(3.0)),
            retention_time: Some(rt(1.0)),
            observed_mass: Some(mass(413.0010)),
        }
    );
}
