//! What a run needs before it can start.

use crate::error::AdelieError;
use vstd::prelude::*;

verus! {

/// Checks the access credential that the caller found.
///
/// The credential is required: a run without one fails before it starts.
pub fn access_token(supplied: Option<String>) -> (r: Result<String, AdelieError>)
    ensures
        match supplied {
            Some(token) => r == Ok::<String, AdelieError>(token),
            None => r == Err::<String, AdelieError>(AdelieError::Config),
        },
{
    match supplied {
        Some(token) => Ok(token),
        None => Err(AdelieError::Config),
    }
}

} // verus!
