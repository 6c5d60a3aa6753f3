//! The types of outside crates that the library carries through.

use vstd::prelude::*;

verus! {

/// tokio's error for an item that a queue did not take. The library formats it and drops it.
#[verifier::external_type_specification]
#[verifier::external_body]
#[verifier::reject_recursive_types(T)]
pub struct ExSendError<T>(tokio::sync::mpsc::error::SendError<T>);

} // verus!
