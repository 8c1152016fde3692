//! What the command line hands to a run.

use std::path::PathBuf;
use vstd::prelude::*;

verus! {

/// A path of the file system, `std::path::PathBuf`. The library carries the
/// destination through and looks at nothing in it.
#[verifier::external_type_specification]
#[verifier::external_body]
pub struct ExPathBuf(PathBuf);

/// The two arguments of a run.
pub struct Args {
    /// The address of the playlist to mirror.
    pub source: String,
    /// The directory that receives the files.
    pub destination: PathBuf,
}

} // verus!
