use crate::error::{StoreError, StoreErrorView};
use vstd::prelude::*;

verus! {

/// What the removal of one image comes to, given the file system's answer:
/// success where the file is gone, else a `Delete` error that carries the
/// file system's words and names no path.
pub open spec fn removal_outcome_of(answer: Result<(), Seq<char>>) -> Result<(), StoreErrorView> {
    match answer {
        Ok(_) => Ok(()),
        Err(cause) => Err(StoreErrorView::Delete { path: None, cause }),
    }
}

/// The mathematical value of the file system's answer to a removal.
pub open spec fn answer_view(answer: Result<(), String>) -> Result<(), Seq<char>> {
    match answer {
        Ok(_) => Ok(()),
        Err(cause) => Err(cause@),
    }
}

/// The mathematical value of the outcome of a removal.
pub open spec fn removal_view(outcome: Result<(), StoreError>) -> Result<(), StoreErrorView> {
    match outcome {
        Ok(_) => Ok(()),
        Err(error) => Err(error@),
    }
}

/// Turns the file system's answer to the removal of one image into the
/// outcome of that removal.
///
/// The path is the caller's: any file may be named, inside the temporary
/// directory or not.
pub fn removal_outcome(answer: Result<(), String>) -> (outcome: Result<(), StoreError>)
    ensures
        removal_view(outcome) == removal_outcome_of(answer_view(answer)),
{
    match answer {
        Ok(_) => Ok(()),
        Err(cause) => Err(StoreError::Delete { path: None, cause }),
    }
}

} // verus!
