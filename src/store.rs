use vstd::prelude::*;

use crate::task::{model, Task};

verus! {

/// Why the stored collection could not be had.
#[derive(Clone, Copy, Debug, PartialEq, Eq, Structural)]
pub enum StoreError {
    /// The backing file exists but does not hold a valid task collection.
    DataCorruption,
    /// The backing file could not be opened, read or written.
    IOFailure,
}

/// What reading the backing file gave.
#[derive(Debug)]
pub enum StoredFile {
    /// There is no backing file yet.
    Missing,
    /// The file exists but could not be read.
    Unreadable,
    /// The file was read but its text is not a task collection.
    Malformed,
    /// The file was read and decoded into these tasks.
    Decoded(Vec<Task>),
}

/// The collection that a program run starts from, given what reading the
/// backing file gave: no file means an empty collection; a file that could not
/// be read or decoded is an error; a decoded file is taken as it is.
pub fn tasks_from_store(stored: StoredFile) -> (r: Result<Vec<Task>, StoreError>)
    ensures
        match stored {
            StoredFile::Missing => r.is_ok() && r->Ok_0@.len() == 0,
            StoredFile::Unreadable => r == Err::<Vec<Task>, StoreError>(StoreError::IOFailure),
            StoredFile::Malformed => r == Err::<Vec<Task>, StoreError>(StoreError::DataCorruption),
            StoredFile::Decoded(v) => r.is_ok() && model(r->Ok_0@) == model(v@),
        },
{
    match stored {
        StoredFile::Missing => Ok(Vec::new()),
        StoredFile::Unreadable => Err(StoreError::IOFailure),
        StoredFile::Malformed => Err(StoreError::DataCorruption),
        StoredFile::Decoded(v) => Ok(v),
    }
}

} // verus!
