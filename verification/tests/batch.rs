use lcmspector_backend::batch::{
    first_failure, measure_loaded, process_files_in_parallel, process_files_isolated, BatchError,
    ScanLoadError,
};
use lcmspector_backend::ion_list::{IonGroup, IonList, TargetIon};
use lcmspector_backend::measurements::{IonData, MSMeasurement};
use lcmspector_backend::scans::{Peak, Scan};

fn panel() -> IonList {
    let a = TargetIon { name: "a".to_string(), expected_mass: 1_000 };
    let b = TargetIon { name: "b".to_string(), expected_mass: 2_000 };
    IonList::new(vec![
        IonGroup { name: "A".to_string(), ions: vec![a], ion_info: vec!["first".to_string()] },
        IonGroup { name: "B".to_string(), ions: vec![b], ion_info: vec![] },
    ])
    .unwrap()
}

/// A file whose only match for ion `a` has the intensity `n`.
fn file(n: i64) -> Vec<Scan> {
    vec![
        Scan::new(n, vec![Peak { mass: 1_001, intensity: n }]),
        Scan::new(n + 1, vec![Peak { mass: 5_000, intensity: 1_000_000 }]),
    ]
}

fn intensity_of_a(m: &MSMeasurement) -> Option<i64> {
    m.xics[0].ions[0].data.intensity
}

#[test]
fn empty_batch_gives_no_measurement() {
    let files: Vec<Result<Vec<Scan>, ScanLoadError>> = vec![];
    assert_eq!(process_files_in_parallel(&files, 5, &panel()), Ok(vec![]));
    assert_eq!(process_files_isolated(&files, 5, &panel()), vec![]);
}

#[test]
fn results_come_in_the_order_of_the_files() {
    let files: Vec<Result<Vec<Scan>, ScanLoadError>> = (1..=200).map(|n| Ok(file(n))).collect();
    let out = process_files_in_parallel(&files, 5, &panel()).unwrap();
    assert_eq!(out.len(), 200);
    for (i, m) in out.iter().enumerate() {
        assert_eq!(intensity_of_a(m), Some(i as i64 + 1));
        assert_eq!(m.xics[0].ions[0].data.retention_time, Some(i as i64 + 1));
        assert_eq!(m.xics[1].ions[0].data, IonData {
            intensity: None,
            retention_time: None,
            observed_mass: None,
        });
    }
}

#[test]
fn each_result_is_the_measurement_of_its_file() {
    let files: Vec<Result<Vec<Scan>, ScanLoadError>> =
        vec![Ok(file(30)), Ok(vec![]), Ok(file(10)), Ok(file(20))];
    let out = process_files_in_parallel(&files, 5, &panel()).unwrap();
    let list = panel();
    let alone: Vec<MSMeasurement> = vec![
        MSMeasurement::from_data(file(30), &list, 5),
        MSMeasurement::from_data(vec![], &list, 5),
        MSMeasurement::from_data(file(10), &list, 5),
        MSMeasurement::from_data(file(20), &list, 5),
    ];
    assert_eq!(out, alone);
}

#[test]
fn repeated_runs_give_the_same_output() {
    let files: Vec<Result<Vec<Scan>, ScanLoadError>> = (1..=64).map(|n| Ok(file(n % 7))).collect();
    let first = process_files_in_parallel(&files, 5, &panel());
    for _ in 0..5 {
        assert_eq!(process_files_in_parallel(&files, 5, &panel()), first);
    }
}

#[test]
fn every_measurement_echoes_the_tolerance_and_follows_the_panel() {
    let files: Vec<Result<Vec<Scan>, ScanLoadError>> = vec![Ok(file(1)), Ok(vec![])];
    let out = process_files_in_parallel(&files, 17, &panel()).unwrap();
    for m in &out {
        assert_eq!(m.mass_accuracy, 17);
        assert_eq!(m.xics.len(), 2);
        assert_eq!(m.xics[0].name, "A");
        assert_eq!(m.xics[1].name, "B");
        assert_eq!(m.xics[0].ion_info, vec!["first".to_string()]);
    }
}

#[test]
fn first_unloaded_file_fails_the_batch() {
    let files: Vec<Result<Vec<Scan>, ScanLoadError>> = vec![
        Ok(file(1)),
        Err(ScanLoadError::Unparsable),
        Ok(file(2)),
        Err(ScanLoadError::Unreadable),
    ];
    assert_eq!(
        process_files_in_parallel(&files, 5, &panel()),
        Err(BatchError { file_index: 1, cause: ScanLoadError::Unparsable })
    );
}

#[test]
fn unreadable_file_at_the_start_fails_the_batch() {
    let files: Vec<Result<Vec<Scan>, ScanLoadError>> =
        vec![Err(ScanLoadError::Unreadable), Ok(file(2))];
    assert_eq!(
        process_files_in_parallel(&files, 5, &panel()),
        Err(BatchError { file_index: 0, cause: ScanLoadError::Unreadable })
    );
}

#[test]
fn first_failure_finds_the_first() {
    let none: Vec<Result<Vec<Scan>, ScanLoadError>> = vec![Ok(vec![]), Ok(file(1))];
    assert_eq!(first_failure(&none), None);
    assert_eq!(first_failure(&vec![]), None);
    let some: Vec<Result<Vec<Scan>, ScanLoadError>> =
        vec![Ok(vec![]), Ok(file(1)), Err(ScanLoadError::Unreadable), Err(ScanLoadError::Unparsable)];
    assert_eq!(
        first_failure(&some),
        Some(BatchError { file_index: 2, cause: ScanLoadError::Unreadable })
    );
}

#[test]
fn isolated_batch_keeps_failures_in_their_slots() {
    let files: Vec<Result<Vec<Scan>, ScanLoadError>> = vec![
        Ok(file(4)),
        Err(ScanLoadError::Unparsable),
        Ok(file(9)),
        Err(ScanLoadError::Unreadable),
        Ok(vec![]),
    ];
    let slots = process_files_isolated(&files, 5, &panel());
    assert_eq!(slots.len(), 5);
    assert_eq!(intensity_of_a(slots[0].as_ref().unwrap()), Some(4));
    assert_eq!(slots[1], Err(ScanLoadError::Unparsable));
    assert_eq!(intensity_of_a(slots[2].as_ref().unwrap()), Some(9));
    assert_eq!(slots[3], Err(ScanLoadError::Unreadable));
    assert_eq!(intensity_of_a(slots[4].as_ref().unwrap()), None);
}

#[test]
fn isolated_batch_agrees_with_one_file_at_a_time() {
    let files: Vec<Result<Vec<Scan>, ScanLoadError>> = (0..100)
        .map(|n| if n % 10 == 3 { Err(ScanLoadError::Unreadable) } else { Ok(file(n)) })
        .collect();
    let list = panel();
    let slots = process_files_isolated(&files, 5, &list);
    let alone: Vec<Result<MSMeasurement, ScanLoadError>> =
        files.iter().map(|f| measure_loaded(f, 5, &list)).collect();
    assert_eq!(slots, alone);
}

#[test]
fn measure_loaded_hands_the_failure_on() {
    let list = panel();
    assert_eq!(
        measure_loaded(&Err(ScanLoadError::Unparsable), 5, &list),
        Err(ScanLoadError::Unparsable)
    );
    assert_eq!(
        measure_loaded(&Ok(file(3)), 5, &list),
        Ok(MSMeasurement::from_data(file(3), &list, 5))
    );
}
