//! What a round trip to the database came to, as the service layer sees it.

use vstd::prelude::*;

verus! {

/// The outcome of running one statement: the connection could not be made,
/// the statement failed, or it completed with a value. The messages are the
/// `Display` texts of the database errors.
pub enum DbOutcome<T> {
    ConnectionFailed(String),
    QueryFailed(String),
    Completed(T),
}

} // verus!
