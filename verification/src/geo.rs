//! What is made of a geocoder's answer.

use vstd::prelude::*;

use crate::error::DateError;

verus! {

/// The match that a geocoder's answer stands for: the first of its matches.
/// An answer without matches is a `LocationNotFound` error.
pub fn first_match<T>(matches: Vec<T>) -> (found: Result<T, DateError>)
    ensures
        matches@.len() == 0 ==> found == Err::<T, DateError>(DateError::LocationNotFound),
        matches@.len() > 0 ==> found == Ok::<T, DateError>(matches@[0]),
{
    let mut matches = matches;
    if matches.len() == 0 {
        Err(DateError::LocationNotFound)
    } else {
        Ok(matches.swap_remove(0))
    }
}

} // verus!
