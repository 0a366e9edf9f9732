//! The context collaborator that scans the working tree for relevant
//! files.  Walking the file system and honouring ignore rules is I/O and
//! lives outside the library; what remains here is the part of the surface
//! that computes.

use vstd::prelude::*;

use crate::client::ErrorKind;

verus! {

/// The file-system scanner surface.
pub struct FileScanner;

impl FileScanner {
    /// Recently modified files under a path; source-control integration is
    /// not wired up, so the answer is the empty list for every path.
    pub fn get_modified_files(path: &str) -> (r: Result<Vec<String>, ErrorKind>)
        ensures
            r matches Ok(v) && v@.len() == 0,
    {
        let _ = path;
        Ok(Vec::new())
    }
}

} // verus!
