//! Decisions of a one-shot request bridged into a single-result channel: the
//! channel only carries whether the request succeeded, and the outcome is then
//! read from the request itself.
use vstd::prelude::*;

verus! {

/// The error to surface for a failed request: the structured error the
/// request reports, or `default` when it reports none; when reading the
/// request's error failed, the error of that read.
pub fn failure_value<V>(reported: Result<Option<V>, V>, default: V) -> (r: V)
    ensures
        r == (match reported {
            Ok(Some(e)) => e,
            Ok(None) => default,
            Err(e) => e,
        }),
{
    match reported {
        Ok(Some(e)) => e,
        Ok(None) => default,
        Err(e) => e,
    }
}

} // verus!
