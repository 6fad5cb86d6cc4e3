//! The storage of submitted files.
use vstd::prelude::*;

verus! {

/// Storage of the files that students submit to classes.
#[derive(Clone, Copy, Debug)]
pub struct SubmissionFileStorageInfra {}

impl SubmissionFileStorageInfra {
    /// A storage handle.
    pub fn new() -> (s: Self)
        ensures
            s == (SubmissionFileStorageInfra {}),
    {
        SubmissionFileStorageInfra {}
    }
}

impl Default for SubmissionFileStorageInfra {
    fn default() -> (s: Self)
        ensures
            s == (SubmissionFileStorageInfra {}),
    {
        SubmissionFileStorageInfra::new()
    }
}

} // verus!
