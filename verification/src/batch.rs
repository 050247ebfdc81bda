//! Measuring many files at once, one independent task per file.
//!
//! The files are measured on a pool of worker threads. Nothing is shared
//! between the tasks but the panel, which is only read. The results come back
//! in the order of the files, whatever the order in which the tasks end.

use rayon::iter::{IntoParallelRefIterator, ParallelIterator};
use vstd::prelude::*;
use crate::ion_list::{IonGroupView, IonList};
use crate::measurements::{measurement_of, MSMeasurement, MeasurementView};
use crate::scans::{scans_view, Scan};

verus! {

/// Why the scans of a file could not be had.
#[derive(Clone, Copy, Debug, PartialEq, Eq, Structural)]
pub enum ScanLoadError {
    /// The file could not be read.
    Unreadable,
    /// What was read is no sequence of scans.
    Unparsable,
}

/// The failure of a batch: the first file that could not be loaded, and why.
#[derive(Clone, Copy, Debug, PartialEq, Eq, Structural)]
pub struct BatchError {
    /// Position of the file among the files of the batch.
    pub file_index: usize,
    /// Why its scans could not be had.
    pub cause: ScanLoadError,
}

/// What one file yields: its measurement if its scans were loaded, else the
/// reason why they were not.
pub open spec fn slot_outcome(
    file: Result<Vec<Scan>, ScanLoadError>,
    panel: Seq<IonGroupView>,
    tolerance: i64,
) -> Result<MeasurementView, ScanLoadError> {
    match file {
        Ok(scans) => Ok(measurement_of(scans_view(scans@), panel, tolerance)),
        Err(e) => Err(e),
    }
}

/// What a result slot holds.
pub open spec fn slot_view(slot: Result<MSMeasurement, ScanLoadError>) -> Result<
    MeasurementView,
    ScanLoadError,
> {
    match slot {
        Ok(m) => Ok(m@),
        Err(e) => Err(e),
    }
}

/// The slots hold, file by file and in the order of the files, what each
/// file yields.
pub open spec fn slots_match(
    slots: Seq<Result<MSMeasurement, ScanLoadError>>,
    files: Seq<Result<Vec<Scan>, ScanLoadError>>,
    panel: Seq<IonGroupView>,
    tolerance: i64,
) -> bool {
    &&& slots.len() == files.len()
    &&& forall|i: int|
        0 <= i < files.len() ==> slot_view(#[trigger] slots[i]) == slot_outcome(
            files[i],
            panel,
            tolerance,
        )
}

/// File `i` is the first of the batch that could not be loaded.
pub open spec fn is_first_failure(files: Seq<Result<Vec<Scan>, ScanLoadError>>, i: int) -> bool {
    &&& 0 <= i < files.len()
    &&& files[i] is Err
    &&& forall|j: int| 0 <= j < i ==> (#[trigger] files[j]) is Ok
}

/// What a list of measurements holds, in order.
pub open spec fn measurements_view(measurements: Seq<MSMeasurement>) -> Seq<MeasurementView> {
    Seq::new(measurements.len(), |i: int| measurements[i]@)
}

/// What the result of a batch holds.
pub open spec fn batch_view(r: Result<Vec<MSMeasurement>, BatchError>) -> Result<
    Seq<MeasurementView>,
    BatchError,
> {
    match r {
        Ok(measurements) => Ok(measurements_view(measurements@)),
        Err(e) => Err(e),
    }
}

/// `r` is what a batch yields. Where every file was loaded, it holds one
/// measurement per file, the one at position `i` being that of file `i`. Where
/// some file was not, it names the first such file and the reason.
pub open spec fn is_batch_outcome(
    files: Seq<Result<Vec<Scan>, ScanLoadError>>,
    panel: Seq<IonGroupView>,
    tolerance: i64,
    r: Result<Seq<MeasurementView>, BatchError>,
) -> bool {
    match r {
        Ok(measurements) => {
            &&& measurements.len() == files.len()
            &&& forall|i: int|
                0 <= i < files.len() ==> slot_outcome(#[trigger] files[i], panel, tolerance) == Ok::<
                    MeasurementView,
                    ScanLoadError,
                >(measurements[i])
        },
        Err(e) => is_first_failure(files, e.file_index as int) && files[e.file_index as int]
            == Err::<Vec<Scan>, ScanLoadError>(e.cause),
    }
}

/// Measures one file whose scans were loaded, and hands the failure on for
/// one whose scans were not.
pub fn measure_loaded(
    file: &Result<Vec<Scan>, ScanLoadError>,
    mass_accuracy: i64,
    ion_list: &IonList,
) -> (slot: Result<MSMeasurement, ScanLoadError>)
    ensures
        slot_view(slot) == slot_outcome(*file, ion_list@, mass_accuracy),
{
    match file {
        Ok(scans) => Ok(MSMeasurement::measure(scans, ion_list, mass_accuracy)),
        Err(e) => Err(*e),
    }
}

/// Applies `f` to every item, on rayon's pool of worker threads, and gathers
/// what it returns.
///
/// Not proved; it rests on rayon's `IntoParallelRefIterator::par_iter`,
/// `ParallelIterator::map` and `ParallelIterator::collect`. Collecting a
/// mapped parallel iterator over a slice into a `Vec` gives one result per
/// element of the slice, in the order of the slice, each being what `f`
/// returned for that element, whatever the order in which the calls ended.
///
/// rayon starts its pool on first use and panics where the system gives it
/// no thread at all. That is a lack of resources, which no argument decides.
#[verifier::external_body]
fn map_on_pool<T: Sync, U: Send, F: Fn(&T) -> U + Sync + Send>(items: &Vec<T>, f: F) -> (out: Vec<
    U,
>)
    requires
        forall|i: int| 0 <= i < items@.len() ==> call_requires(f, (&items@[i],)),
    ensures
        out@.len() == items@.len(),
        forall|i: int|
            0 <= i < items@.len() ==> call_ensures(f, (&items@[i],), #[trigger] out@[i]),
{
    items.par_iter().map(f).collect()
}

/// Measures every file of a batch in parallel and keeps the files apart: the
/// slot of a file holds its measurement, or the reason why its scans could
/// not be loaded. There is one slot per file, in the order of the files. Each
/// file is a task of its own on the pool of worker threads; the tasks share
/// the panel, which they only read.
pub fn process_files_isolated(
    files: &Vec<Result<Vec<Scan>, ScanLoadError>>,
    mass_accuracy: i64,
    ion_list: &IonList,
) -> (slots: Vec<Result<MSMeasurement, ScanLoadError>>)
    ensures
        slots_match(slots@, files@, ion_list@, mass_accuracy),
{
    let measure = |file: &Result<Vec<Scan>, ScanLoadError>| -> (slot: Result<
        MSMeasurement,
        ScanLoadError,
    >)
        ensures
            slot_view(slot) == slot_outcome(*file, ion_list@, mass_accuracy),
        { measure_loaded(file, mass_accuracy, ion_list) };
    map_on_pool(files, measure)
}

/// The first file of the batch that could not be loaded, if there is one.
pub fn first_failure(files: &Vec<Result<Vec<Scan>, ScanLoadError>>) -> (r: Option<BatchError>)
    ensures
        match r {
            Some(e) => is_first_failure(files@, e.file_index as int) && files@[e.file_index as int]
                == Err::<Vec<Scan>, ScanLoadError>(e.cause),
            None => forall|j: int| 0 <= j < files@.len() ==> (#[trigger] files@[j]) is Ok,
        },
{
    let n: usize = files.len();
    let mut i: usize = 0;
    while i < n
        invariant
            n == files@.len(),
            i <= n,
            forall|j: int| 0 <= j < i ==> (#[trigger] files@[j]) is Ok,
        decreases n - i,
    {
        match &files[i] {
            Ok(_) => {},
            Err(e) => {
                return Some(BatchError { file_index: i, cause: *e });
            },
        }
        i = i + 1;
    }
    None
}

/// Turns the slots of a batch into its measurements. Every slot must hold
/// one.
fn gather(slots: Vec<Result<MSMeasurement, ScanLoadError>>) -> (out: Vec<MSMeasurement>)
    requires
        forall|i: int| 0 <= i < slots@.len() ==> (#[trigger] slots@[i]) is Ok,
    ensures
        out@.len() == slots@.len(),
        forall|i: int| 0 <= i < slots@.len() ==> slots@[i] == Ok::<MSMeasurement, ScanLoadError>(
            #[trigger] out@[i],
        ),
{
    let mut out: Vec<MSMeasurement> = Vec::new();
    for slot in it: slots
        invariant
            out@.len() == it.index(),
            it.seq() == slots@,
            forall|i: int| 0 <= i < slots@.len() ==> (#[trigger] slots@[i]) is Ok,
            forall|i: int|
                0 <= i < out@.len() ==> slots@[i] == Ok::<MSMeasurement, ScanLoadError>(
                    #[trigger] out@[i],
                ),
    {
        match slot {
            Ok(m) => {
                out.push(m);
            },
            Err(_) => {},
        }
    }
    out
}

/// Measures every file of a batch in parallel.
///
/// Where every file was loaded, the result holds one measurement per file,
/// the measurement at a position being that of the file at the same position.
/// Where some file was not, nothing is measured and the result names the
/// first such file and the reason.
pub fn process_files_in_parallel(
    files: &Vec<Result<Vec<Scan>, ScanLoadError>>,
    mass_accuracy: i64,
    ion_list: &IonList,
) -> (r: Result<Vec<MSMeasurement>, BatchError>)
    ensures
        is_batch_outcome(files@, ion_list@, mass_accuracy, batch_view(r)),
{
    match first_failure(files) {
        Some(e) => Err(e),
        None => {
            let slots = process_files_isolated(files, mass_accuracy, ion_list);
            assert forall|i: int| 0 <= i < slots@.len() implies (#[trigger] slots@[i]) is Ok by {
                assert(files@[i] is Ok);
                assert(slot_view(slots@[i]) == slot_outcome(files@[i], ion_list@, mass_accuracy));
            }
            let measurements = gather(slots);
            let ghost views = measurements_view(measurements@);
            assert forall|i: int| 0 <= i < files@.len() implies slot_outcome(
                #[trigger] files@[i],
                ion_list@,
                mass_accuracy,
            ) == Ok::<MeasurementView, ScanLoadError>(views[i]) by {
                assert(files@[i] is Ok);
                assert(slot_view(slots@[i]) == slot_outcome(files@[i], ion_list@, mass_accuracy));
                assert(slots@[i] == Ok::<MSMeasurement, ScanLoadError>(measurements@[i]));
            }
            Ok(measurements)
        },
    }
}

/// What a batch yields is settled by its files, the panel and the tolerance:
/// two results for the same three are equal, however the work was spread
/// over the workers.
pub proof fn batch_outcome_unique(
    files: Seq<Result<Vec<Scan>, ScanLoadError>>,
    panel: Seq<IonGroupView>,
    tolerance: i64,
    r1: Result<Seq<MeasurementView>, BatchError>,
    r2: Result<Seq<MeasurementView>, BatchError>,
)
    requires
        is_batch_outcome(files, panel, tolerance, r1),
        is_batch_outcome(files, panel, tolerance, r2),
    ensures
        r1 == r2,
{
    match (r1, r2) {
        (Ok(a), Ok(b)) => {
            assert forall|i: int| 0 <= i < a.len() implies a[i] == b[i] by {
                assert(slot_outcome(files[i], panel, tolerance) == Ok::<
                    MeasurementView,
                    ScanLoadError,
                >(a[i]));
            }
            assert(a =~= b);
        },
        (Ok(a), Err(e)) => {
            assert(slot_outcome(files[e.file_index as int], panel, tolerance) is Ok);
        },
        (Err(e), Ok(b)) => {
            assert(slot_outcome(files[e.file_index as int], panel, tolerance) is Ok);
        },
        (Err(e1), Err(e2)) => {
            if e1.file_index < e2.file_index {
                assert(files[e1.file_index as int] is Ok);
            } else if e2.file_index < e1.file_index {
                assert(files[e2.file_index as int] is Ok);
            }
        },
    }
}

/// The slots of a batch are settled by its files, the panel and the
/// tolerance: two lists of slots for the same three hold the same, slot by
/// slot.
pub proof fn slots_unique(
    files: Seq<Result<Vec<Scan>, ScanLoadError>>,
    panel: Seq<IonGroupView>,
    tolerance: i64,
    a: Seq<Result<MSMeasurement, ScanLoadError>>,
    b: Seq<Result<MSMeasurement, ScanLoadError>>,
)
    requires
        slots_match(a, files, panel, tolerance),
        slots_match(b, files, panel, tolerance),
    ensures
        a.len() == files.len(),
        b.len() == files.len(),
        forall|i: int| 0 <= i < files.len() ==> slot_view(#[trigger] a[i]) == slot_view(b[i]),
{
    assert forall|i: int| 0 <= i < files.len() implies slot_view(#[trigger] a[i]) == slot_view(
        b[i],
    ) by {
        assert(slot_view(b[i]) == slot_outcome(files[i], panel, tolerance));
    }
}

/// A batch in which every file was loaded yields its measurements, and one
/// in which some file was not yields a failure.
pub proof fn batch_succeeds_when_all_loaded(
    files: Seq<Result<Vec<Scan>, ScanLoadError>>,
    panel: Seq<IonGroupView>,
    tolerance: i64,
    r: Result<Seq<MeasurementView>, BatchError>,
)
    requires
        is_batch_outcome(files, panel, tolerance, r),
    ensures
        r is Ok <==> forall|i: int| 0 <= i < files.len() ==> (#[trigger] files[i]) is Ok,
{
    match r {
        Ok(a) => {
            assert forall|i: int| 0 <= i < files.len() implies (#[trigger] files[i]) is Ok by {
                assert(slot_outcome(files[i], panel, tolerance) is Ok);
            }
        },
        Err(e) => {
            assert(files[e.file_index as int] is Err);
        },
    }
}

} // verus!
