//! Batch file renaming by modification timestamp.
//!
//! A `RayFile` splits a bare file name into a base name and an extension and
//! measures its display width, correcting for East-Asian wide characters.
//! A `RayFileList` owns an ordered batch of such entries together with a
//! timestamp format pattern; it computes the renamed targets, the two column
//! widths of the confirmation table, the table's text, and the ordered
//! old-to-new rename pairs. All filesystem access, printing and reading of
//! the operator's answer stay with the caller.

use vstd::prelude::*;

pub mod confirm;
pub mod ray_file;
pub mod ray_file_list;
pub mod time_fmt;
pub mod widths;

pub use confirm::Answer;
pub use confirm::classify_answer;
pub use ray_file::RayFile;
pub use ray_file_list::RayFileList;

verus! {

/// A fatal error found while building the renaming plan.
#[derive(Clone, Copy, Debug, PartialEq, Eq, Structural)]
pub enum RenameError {
    /// An input name holds a `/`: files in other directories are rejected.
    PathSeparator,
    /// The timestamp format pattern could not be applied.
    InvalidTimeFormat,
}

/// True when `s` holds a directory separator.
pub open spec fn contains_slash(s: Seq<char>) -> bool {
    exists|i: int| 0 <= i < s.len() && s[i] == '/'
}

} // verus!
