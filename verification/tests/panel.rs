use lcmspector_backend::ion_list::{
    Defect, IonGroup, IonList, IonListSource, ResolutionError, TargetIon, DEFAULT_ION_LIST,
};
use lcmspector_backend::text::{all_distinct, clone_texts};

fn ion(name: &str, expected_mass: i64) -> TargetIon {
    TargetIon { name: name.to_string(), expected_mass }
}

fn group(name: &str, ions: Vec<TargetIon>) -> IonGroup {
    IonGroup { name: name.to_string(), ions, ion_info: vec![] }
}

#[test]
fn empty_panel_is_well_formed() {
    let list = IonList::new(vec![]).unwrap();
    assert_eq!(list.len(), 0);
    assert!(list.groups().is_empty());
}

#[test]
fn panel_keeps_its_groups_in_order() {
    let groups = vec![
        group("PFOA", vec![ion("PFOA-H", 413_000_000), ion("PFOA-iso", 414_000_000)]),
        group("PFOS", vec![ion("PFOS-H", 499_000_000)]),
        group("empty", vec![]),
    ];
    let list = IonList::new(groups.clone()).unwrap();
    assert_eq!(list.len(), 3);
    assert_eq!(list.groups(), &groups);
}

#[test]
fn zero_mass_is_a_defect() {
    let r = IonList::new(vec![group("A", vec![ion("a", 0)])]);
    assert_eq!(r, Err(ResolutionError::Malformed(Defect::NonPositiveMass)));
}

#[test]
fn negative_mass_is_a_defect() {
    let r = IonList::new(vec![
        group("A", vec![ion("a", 5)]),
        group("B", vec![ion("b", 6), ion("c", -1)]),
    ]);
    assert_eq!(r, Err(ResolutionError::Malformed(Defect::NonPositiveMass)));
}

#[test]
fn two_compounds_of_one_name_are_a_defect() {
    let r = IonList::new(vec![
        group("A", vec![ion("a", 5)]),
        group("B", vec![ion("b", 6)]),
        group("A", vec![ion("c", 7)]),
    ]);
    assert_eq!(r, Err(ResolutionError::Malformed(Defect::DuplicateCompound)));
}

#[test]
fn two_ions_of_one_name_in_one_compound_are_a_defect() {
    let r = IonList::new(vec![group("A", vec![ion("a", 5), ion("a", 6)])]);
    assert_eq!(r, Err(ResolutionError::Malformed(Defect::DuplicateIon)));
}

#[test]
fn two_ions_of_one_name_in_two_compounds_are_a_defect() {
    let r = IonList::new(vec![
        group("A", vec![ion("a", 5), ion("b", 6)]),
        group("B", vec![]),
        group("C", vec![ion("c", 7), ion("a", 8)]),
    ]);
    assert_eq!(r, Err(ResolutionError::Malformed(Defect::DuplicateIon)));
}

#[test]
fn an_ion_may_bear_the_name_of_its_compound() {
    assert!(IonList::new(vec![group("PFOA", vec![ion("PFOA", 413_000_000)])]).is_ok());
}

#[test]
fn mass_defect_is_named_before_duplicate_compound() {
    let r = IonList::new(vec![group("A", vec![ion("a", 5)]), group("A", vec![ion("b", 0)])]);
    assert_eq!(r, Err(ResolutionError::Malformed(Defect::NonPositiveMass)));
}

#[test]
fn duplicate_compound_is_named_before_duplicate_ion() {
    let r = IonList::new(vec![group("A", vec![ion("a", 5)]), group("A", vec![ion("a", 6)])]);
    assert_eq!(r, Err(ResolutionError::Malformed(Defect::DuplicateCompound)));
}

#[test]
fn source_is_the_location_when_one_is_given() {
    let s = IonListSource::select(Some("/data/ions.json".to_string()), "other");
    assert_eq!(s, IonListSource::Located("/data/ions.json".to_string()));
    let s = IonListSource::select_or_default(Some("x".to_string()));
    assert_eq!(s, IonListSource::Located("x".to_string()));
}

#[test]
fn source_is_the_named_default_when_no_location_is_given() {
    assert_eq!(IonListSource::select(None, "other"), IonListSource::Named("other".to_string()));
    assert_eq!(IonListSource::select_or_default(None), IonListSource::Named("scfas".to_string()));
    assert_eq!(DEFAULT_ION_LIST, "scfas");
}

#[test]
fn empty_location_is_still_a_location() {
    assert_eq!(
        IonListSource::select_or_default(Some(String::new())),
        IonListSource::Located(String::new())
    );
}

#[test]
fn distinct_strings() {
    assert!(all_distinct(&vec![]));
    assert!(all_distinct(&vec!["a".to_string()]));
    assert!(all_distinct(&vec!["a".to_string(), "b".to_string(), "ab".to_string()]));
    assert!(!all_distinct(&vec!["a".to_string(), "b".to_string(), "a".to_string()]));
    assert!(!all_distinct(&vec!["b".to_string(), "b".to_string()]));
    assert!(!all_distinct(&vec!["x".to_string(), "y".to_string(), "z".to_string(), "z".to_string()]));
}

#[test]
fn cloned_strings_are_equal() {
    let v = vec!["adduct: [M-H]-".to_string(), String::new(), "C8HF15O2".to_string()];
    assert_eq!(clone_texts(&v), v);
    assert_eq!(clone_texts(&vec![]), Vec::<String>::new());
}
