//! Where submitted files are kept.
pub mod submission_file_storage;
