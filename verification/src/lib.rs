//! Extraction of ion chromatograms from LC-MS runs.
//!
//! For every target ion of a panel the library looks through the MS1 scans
//! of a file for the peaks within a mass tolerance of the ion's expected
//! mass, and records the apex: intensity, retention time and observed mass
//! of the most intense match. Many files are measured at once, one task per
//! file, and the results come back in the order of the files.
//!
//! All quantities are fixed-point integers. The tolerance is an absolute
//! distance in the unit of the masses.
//!
//! - [`scans`]: peaks and scans.
//! - [`ion_list`]: the panel of target ions and where it is had from.
//! - [`matching`]: the match of a scan and the apex of a run.
//! - [`measurements`]: the measurement of one file.
//! - [`batch`]: the measurement of many files in parallel.
//! - [`records`]: measurements in the shape in which they are handed out.
//! - [`text`]: helpers on lists of strings.

pub mod batch;
pub mod ion_list;
pub mod matching;
pub mod measurements;
pub mod records;
pub mod scans;
pub mod text;
