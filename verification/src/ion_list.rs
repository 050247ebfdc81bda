//! The panel of target ions, grouped by compound.

use vstd::prelude::*;
use crate::text::{all_distinct, texts};

verus! {

/// One ion to look for.
#[derive(Clone, Debug, PartialEq, Eq)]
pub struct TargetIon {
    /// Name of the ion, unique within its list.
    pub name: String,
    /// The mass at which the ion is expected, in mass units.
    pub expected_mass: i64,
}

/// What a target ion holds.
pub struct TargetIonView {
    pub name: Seq<char>,
    pub expected_mass: i64,
}

impl View for TargetIon {
    type V = TargetIonView;

    open spec fn view(&self) -> TargetIonView {
        TargetIonView { name: self.name@, expected_mass: self.expected_mass }
    }
}

/// The ions of one compound, with what the list says about the compound.
#[derive(Clone, Debug, PartialEq, Eq)]
pub struct IonGroup {
    /// Name of the compound.
    pub name: String,
    /// The ions of the compound, in declared order.
    pub ions: Vec<TargetIon>,
    /// Descriptive entries about the compound, handed on untouched.
    pub ion_info: Vec<String>,
}

/// What a group holds.
pub struct IonGroupView {
    pub name: Seq<char>,
    pub ions: Seq<TargetIonView>,
    pub ion_info: Seq<Seq<char>>,
}

/// What a list of ions holds, in order.
pub open spec fn ions_view(ions: Seq<TargetIon>) -> Seq<TargetIonView> {
    Seq::new(ions.len(), |i: int| ions[i]@)
}

impl View for IonGroup {
    type V = IonGroupView;

    open spec fn view(&self) -> IonGroupView {
        IonGroupView {
            name: self.name@,
            ions: ions_view(self.ions@),
            ion_info: texts(self.ion_info@),
        }
    }
}

/// What a list of groups holds, in order.
pub open spec fn groups_view(groups: Seq<IonGroup>) -> Seq<IonGroupView> {
    Seq::new(groups.len(), |i: int| groups[i]@)
}

/// The names of the ions of one group, in order.
pub open spec fn names_in_group(group: IonGroupView) -> Seq<Seq<char>> {
    Seq::new(group.ions.len(), |i: int| group.ions[i].name)
}

/// The names of all ions of the first `n` groups, in order.
pub open spec fn ion_names_upto(groups: Seq<IonGroupView>, n: int) -> Seq<Seq<char>>
    decreases n,
{
    if n <= 0 {
        Seq::empty()
    } else {
        ion_names_upto(groups, n - 1) + names_in_group(groups[n - 1])
    }
}

/// The names of all ions of a list, in order.
pub open spec fn ion_names(groups: Seq<IonGroupView>) -> Seq<Seq<char>> {
    ion_names_upto(groups, groups.len() as int)
}

/// The names of the compounds of a list, in order.
pub open spec fn group_names(groups: Seq<IonGroupView>) -> Seq<Seq<char>> {
    Seq::new(groups.len(), |i: int| groups[i].name)
}

/// Every expected mass of the list is positive.
pub open spec fn masses_positive(groups: Seq<IonGroupView>) -> bool {
    forall|g: int, i: int|
        0 <= g < groups.len() && 0 <= i < groups[g].ions.len() ==> (
        #[trigger] groups[g].ions[i]).expected_mass > 0
}

/// What is wrong with a list of groups.
#[derive(Clone, Copy, Debug, PartialEq, Eq, Structural)]
pub enum Defect {
    /// An expected mass is zero or negative.
    NonPositiveMass,
    /// Two compounds have the same name.
    DuplicateCompound,
    /// Two ions have the same name.
    DuplicateIon,
}

/// Why no ion list could be had.
#[derive(Clone, Copy, Debug, PartialEq, Eq, Structural)]
pub enum ResolutionError {
    /// No list of the given name is known.
    UnknownName,
    /// The given location could not be read.
    Unreadable,
    /// What was read is no valid list.
    Malformed(Defect),
}

/// The first defect of a list of groups, if it has one: masses are looked at
/// first, then the names of the compounds, then the names of the ions.
pub open spec fn first_defect(groups: Seq<IonGroupView>) -> Option<Defect> {
    if !masses_positive(groups) {
        Some(Defect::NonPositiveMass)
    } else if !group_names(groups).no_duplicates() {
        Some(Defect::DuplicateCompound)
    } else if !ion_names(groups).no_duplicates() {
        Some(Defect::DuplicateIon)
    } else {
        None
    }
}

/// A list is well formed when every expected mass is positive, no two
/// compounds share a name and no two ions share a name.
pub open spec fn well_formed(groups: Seq<IonGroupView>) -> bool {
    &&& masses_positive(groups)
    &&& group_names(groups).no_duplicates()
    &&& ion_names(groups).no_duplicates()
}

/// A resolved panel of target ions. It is well formed by construction.
#[derive(Debug, PartialEq, Eq)]
pub struct IonList {
    groups: Vec<IonGroup>,
}

impl View for IonList {
    type V = Seq<IonGroupView>;

    closed spec fn view(&self) -> Seq<IonGroupView> {
        groups_view(self.groups@)
    }
}

fn check_masses(groups: &Vec<IonGroup>) -> (ok: bool)
    ensures
        ok == masses_positive(groups_view(groups@)),
{
    let ghost v = groups_view(groups@);
    let n: usize = groups.len();
    let mut g: usize = 0;
    while g < n
        invariant
            n == groups@.len(),
            v == groups_view(groups@),
            g <= n,
            forall|a: int, i: int|
                0 <= a < g && 0 <= i < v[a].ions.len() ==> (#[trigger] v[a].ions[i]).expected_mass
                    > 0,
        decreases n - g,
    {
        let group: &IonGroup = &groups[g];
        let m: usize = group.ions.len();
        let mut i: usize = 0;
        while i < m
            invariant
                g < n,
                n == groups@.len(),
                v == groups_view(groups@),
                group == groups@[g as int],
                m == group.ions@.len(),
                i <= m,
                forall|k: int| 0 <= k < i ==> (#[trigger] v[g as int].ions[k]).expected_mass > 0,
            decreases m - i,
        {
            if group.ions[i].expected_mass <= 0 {
                assert(v[g as int].ions[i as int].expected_mass <= 0);
                return false;
            }
            i = i + 1;
        }
        g = g + 1;
    }
    true
}

fn collect_group_names(groups: &Vec<IonGroup>) -> (names: Vec<String>)
    ensures
        texts(names@) == group_names(groups_view(groups@)),
{
    let n: usize = groups.len();
    let mut names: Vec<String> = Vec::new();
    let mut g: usize = 0;
    while g < n
        invariant
            n == groups@.len(),
            g <= n,
            names@.len() == g,
            forall|k: int| 0 <= k < g ==> (#[trigger] names@[k])@ == groups@[k].name@,
        decreases n - g,
    {
        names.push(groups[g].name.clone());
        g = g + 1;
    }
    assert(texts(names@) =~= group_names(groups_view(groups@)));
    names
}

fn collect_ion_names(groups: &Vec<IonGroup>) -> (names: Vec<String>)
    ensures
        texts(names@) == ion_names(groups_view(groups@)),
{
    let ghost v = groups_view(groups@);
    let n: usize = groups.len();
    let mut names: Vec<String> = Vec::new();
    let mut g: usize = 0;
    assert(texts(names@) =~= ion_names_upto(v, 0));
    while g < n
        invariant
            n == groups@.len(),
            v == groups_view(groups@),
            g <= n,
            texts(names@) == ion_names_upto(v, g as int),
        decreases n - g,
    {
        let group: &IonGroup = &groups[g];
        let m: usize = group.ions.len();
        let ghost before = texts(names@);
        let mut i: usize = 0;
        assert(texts(names@) =~= before + names_in_group(v[g as int]).take(0));
        while i < m
            invariant
                g < n,
                n == groups@.len(),
                v == groups_view(groups@),
                group == groups@[g as int],
                m == group.ions@.len(),
                i <= m,
                texts(names@) == before + names_in_group(v[g as int]).take(i as int),
            decreases m - i,
        {
            let ghost old_names = texts(names@);
            names.push(group.ions[i].name.clone());
            assert(texts(names@) =~= old_names.push(group.ions@[i as int].name@));
            assert(texts(names@) =~= before + names_in_group(v[g as int]).take(i + 1));
            i = i + 1;
        }
        assert(names_in_group(v[g as int]).take(m as int) =~= names_in_group(v[g as int]));
        g = g + 1;
    }
    names
}

impl IonList {
    #[verifier::type_invariant]
    spec fn inv(self) -> bool {
        well_formed(groups_view(self.groups@))
    }

    /// Makes a panel from its groups. It succeeds exactly when the groups
    /// are well formed, and otherwise names the first defect.
    pub fn new(groups: Vec<IonGroup>) -> (r: Result<IonList, ResolutionError>)
        ensures
            match r {
                Ok(list) => well_formed(groups_view(groups@)) && list@ == groups_view(groups@),
                Err(e) => first_defect(groups_view(groups@)) matches Some(d) && e
                    == ResolutionError::Malformed(d),
            },
    {
        if !check_masses(&groups) {
            return Err(ResolutionError::Malformed(Defect::NonPositiveMass));
        }
        let compounds: Vec<String> = collect_group_names(&groups);
        if !all_distinct(&compounds) {
            return Err(ResolutionError::Malformed(Defect::DuplicateCompound));
        }
        let ions: Vec<String> = collect_ion_names(&groups);
        if !all_distinct(&ions) {
            return Err(ResolutionError::Malformed(Defect::DuplicateIon));
        }
        Ok(IonList { groups })
    }

    /// The groups of the panel, in declared order.
    pub fn groups(&self) -> (groups: &Vec<IonGroup>)
        ensures
            groups_view(groups@) == self@,
            well_formed(self@),
    {
        proof {
            use_type_invariant(self);
        }
        &self.groups
    }

    /// The number of compounds of the panel.
    pub fn len(&self) -> (n: usize)
        ensures
            n == self@.len(),
    {
        self.groups.len()
    }
}

/// The names of the first `n` groups' ions hold those of each of these
/// groups, one group after the other.
proof fn name_position(groups: Seq<IonGroupView>, n: int, g: int, k: int)
    requires
        0 <= g < n <= groups.len(),
        0 <= k < groups[g].ions.len(),
    ensures
        ion_names_upto(groups, g).len() + groups[g].ions.len() <= ion_names_upto(groups, n).len(),
        ion_names_upto(groups, n)[ion_names_upto(groups, g).len() + k] == groups[g].ions[k].name,
    decreases n,
{
    if g == n - 1 {
        assert(ion_names_upto(groups, n) == ion_names_upto(groups, g) + names_in_group(groups[g]));
    } else {
        name_position(groups, n - 1, g, k);
    }
}

/// In a well-formed panel two ions at different places have different names,
/// whether they belong to one compound or to two.
pub proof fn ion_names_differ(groups: Seq<IonGroupView>, g1: int, k1: int, g2: int, k2: int)
    requires
        well_formed(groups),
        0 <= g1 < groups.len(),
        0 <= k1 < groups[g1].ions.len(),
        0 <= g2 < groups.len(),
        0 <= k2 < groups[g2].ions.len(),
        g1 != g2 || k1 != k2,
    ensures
        groups[g1].ions[k1].name != groups[g2].ions[k2].name,
{
    let n = groups.len() as int;
    let all = ion_names(groups);
    name_position(groups, n, g1, k1);
    name_position(groups, n, g2, k2);
    let at1 = ion_names_upto(groups, g1).len() + k1;
    let at2 = ion_names_upto(groups, g2).len() + k2;
    if g1 < g2 {
        name_position(groups, g2, g1, k1);
    } else if g2 < g1 {
        name_position(groups, g1, g2, k2);
    }
    assert(at1 != at2);
    assert(all[at1] != all[at2]);
}

/// In a well-formed panel two compounds at different places have different
/// names.
pub proof fn compound_names_differ(groups: Seq<IonGroupView>, g1: int, g2: int)
    requires
        well_formed(groups),
        0 <= g1 < groups.len(),
        0 <= g2 < groups.len(),
        g1 != g2,
    ensures
        groups[g1].name != groups[g2].name,
{
    let names = group_names(groups);
    assert(names[g1] != names[g2]);
}

/// The name of the panel that is used where the caller names no location.
pub const DEFAULT_ION_LIST: &'static str = "scfas";

/// Where a panel is to be had from.
#[derive(Clone, Debug, PartialEq, Eq)]
pub enum IonListSource {
    /// A panel known by name.
    Named(String),
    /// A panel kept at a location.
    Located(String),
}

/// What a source holds.
pub enum IonListSourceView {
    Named(Seq<char>),
    Located(Seq<char>),
}

impl View for IonListSource {
    type V = IonListSourceView;

    open spec fn view(&self) -> IonListSourceView {
        match self {
            IonListSource::Named(name) => IonListSourceView::Named(name@),
            IonListSource::Located(path) => IonListSourceView::Located(path@),
        }
    }
}

impl IonListSource {
    /// The source for a request: the location where one is given, else the
    /// panel of the name `default_name`. Exactly one of the two is used.
    pub fn select(ion_list_path: Option<String>, default_name: &str) -> (source: IonListSource)
        ensures
            source@ == match ion_list_path {
                Some(path) => IonListSourceView::Located(path@),
                None => IonListSourceView::Named(default_name@),
            },
    {
        match ion_list_path {
            Some(path) => IonListSource::Located(path),
            None => IonListSource::Named(default_name.to_owned()),
        }
    }

    /// The source for a request, with the built-in default panel.
    pub fn select_or_default(ion_list_path: Option<String>) -> (source: IonListSource)
        ensures
            source@ == match ion_list_path {
                Some(path) => IonListSourceView::Located(path@),
                None => IonListSourceView::Named(DEFAULT_ION_LIST@),
            },
    {
        IonListSource::select(ion_list_path, DEFAULT_ION_LIST)
    }
}

} // verus!
