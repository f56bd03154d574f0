use vstd::prelude::*;

use crate::error::StatError;

verus! {

/// Checks the arguments of an evenly spaced sequence of `n` points from a
/// start to an end, and returns the number of gaps between them, `n - 1`.
/// `start_before_end` tells whether the start lies strictly below the end.
pub fn linspace_gaps(start_before_end: bool, n: usize) -> (r: Result<usize, StatError>)
    ensures
        r == (if start_before_end && n > 1 {
            Ok::<usize, StatError>((n - 1) as usize)
        } else {
            Err::<usize, StatError>(StatError::PreconditionViolation)
        }),
{
    if !start_before_end || n <= 1 {
        Err(StatError::PreconditionViolation)
    } else {
        Ok(n - 1)
    }
}

} // verus!
