//! Channels that turn callback notifications into values a consumer can
//! suspend on, and the decisions of a cursor that streams key/value records
//! through them.
use vstd::prelude::*;

pub mod cursor;
pub mod oneshot;
pub mod request;
pub mod unbounded;

verus! {

/// Outcome of polling a suspension point.
pub enum Poll<T> {
    Ready(T),
    Pending,
}

} // verus!
