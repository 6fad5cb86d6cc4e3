//! Failures reported by the database and the errors the repositories return.
use vstd::prelude::*;

verus! {

/// MySQL's error number for an insert that violates a unique key.
pub const MYSQL_ERR_NUM_DUPLICATE_ENTRY: u16 = 1062;

/// A failed database call: the MySQL error number when the server reported
/// one, and the error's text.
#[derive(Debug, PartialEq, Eq)]
pub struct DbFailure {
    pub mysql_error_number: Option<u16>,
    pub message: String,
}

/// Errors of the repositories.
#[derive(Debug, PartialEq, Eq)]
pub enum ReposError {
    AnnouncementDuplicate,
    ClassDuplicate,
    CourseDuplicate,
    SqlError(DbFailure),
}

/// The server refused an insert because the key already exists.
pub open spec fn is_duplicate_entry(f: DbFailure) -> bool {
    f.mysql_error_number == Some(MYSQL_ERR_NUM_DUPLICATE_ENTRY)
}

/// What an insert returns given what the database answered: success stays
/// success, a duplicate key becomes `on_duplicate`, any other failure is
/// passed on as `SqlError`.
pub open spec fn insert_outcome_spec(
    outcome: Result<(), DbFailure>,
    on_duplicate: ReposError,
) -> Result<(), ReposError> {
    match outcome {
        Ok(()) => Ok(()),
        Err(f) => if is_duplicate_entry(f) {
            Err(on_duplicate)
        } else {
            Err(ReposError::SqlError(f))
        },
    }
}

pub fn insert_outcome(outcome: Result<(), DbFailure>, on_duplicate: ReposError) -> (r: Result<
    (),
    ReposError,
>)
    ensures
        r == insert_outcome_spec(outcome, on_duplicate),
{
    match outcome {
        Ok(()) => Ok(()),
        Err(f) => {
            let dup = match f.mysql_error_number {
                Some(n) => n == MYSQL_ERR_NUM_DUPLICATE_ENTRY,
                None => false,
            };
            if dup {
                Err(on_duplicate)
            } else {
                Err(ReposError::SqlError(f))
            }
        },
    }
}

/// What a statement that returns no rows answers: the failure, if any, as
/// `SqlError`.
pub fn execute_outcome(outcome: Result<(), DbFailure>) -> (r: Result<(), ReposError>)
    ensures
        match outcome {
            Ok(()) => r is Ok,
            Err(f) => r == Err::<(), ReposError>(ReposError::SqlError(f)),
        },
{
    match outcome {
        Ok(()) => Ok(()),
        Err(f) => Err(ReposError::SqlError(f)),
    }
}

/// Law: an insert that succeeds returns success; a failed one reports the
/// duplicate error exactly when MySQL answered error 1062, and passes any
/// other failure on unchanged.
pub proof fn lemma_duplicate_is_error_1062(f: DbFailure, on_duplicate: ReposError)
    ensures
        insert_outcome_spec(Ok(()), on_duplicate) == Ok::<(), ReposError>(()),
        insert_outcome_spec(Err(f), on_duplicate) == if f.mysql_error_number == Some(1062u16) {
            Err::<(), ReposError>(on_duplicate)
        } else {
            Err::<(), ReposError>(ReposError::SqlError(f))
        },
{
}

} // verus!
