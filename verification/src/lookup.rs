//! Turning the row read back after a write into the command's answer.

use vstd::prelude::*;

verus! {

/// The row read back after a write, or the error `missing` when the read found nothing.
pub fn require_found<T>(found: Option<T>, missing: &str) -> (r: Result<T, String>)
    ensures
        match found {
            Some(row) => r == Ok::<T, String>(row),
            None => r matches Err(e) && e@ == missing@,
        },
{
    match found {
        Some(row) => Ok(row),
        None => Err(String::from_str(missing)),
    }
}

} // verus!
