//! Geofencing: whether a company member is within its company's fence.

use crate::ids::{parse_uuid, uuid_parse};
use vstd::prelude::*;

verus! {

/// The query of a fence check.
pub struct WithinFenceRequestFilter {
    pub company_member_id: String,
}

/// The answer of a fence check.
pub struct WithinFenceResult {}

/// Why a fence check failed.
pub struct WithinFenceResultError {
    pub error_code: String,
    pub error_message: String,
}

/// The first step of `is_within_fence`: the member id of the query, or a
/// 400 carrying the parse error when it is not a UUID.
pub fn within_fence_member_id(query: &WithinFenceRequestFilter) -> (r: Result<u128, WithinFenceResultError>)
    ensures
        match uuid_parse(query.company_member_id@) {
            Ok(id) => r matches Ok(v) && v == id,
            Err(m) => r matches Err(e) && e.error_code@ == "400"@ && e.error_message@ == m,
        },
{
    match parse_uuid(query.company_member_id.as_str()) {
        Ok(id) => Ok(id),
        Err(m) => Err(WithinFenceResultError { error_code: String::from_str("400"), error_message: m }),
    }
}

/// The last step of `is_within_fence`, once the member has been looked up:
/// a found member answers, a failed lookup is a 400.
pub fn within_fence_outcome(member_lookup: Result<(), String>) -> (r: Result<WithinFenceResult, WithinFenceResultError>)
    ensures
        member_lookup is Ok ==> r is Ok,
        member_lookup is Err ==> (r matches Err(e) && e.error_code@ == "400"@
            && e.error_message@ == "invalid company member id passed."@),
{
    match member_lookup {
        Ok(()) => Ok(WithinFenceResult {  }),
        Err(_) => Err(WithinFenceResultError {
            error_code: String::from_str("400"),
            error_message: String::from_str("invalid company member id passed."),
        }),
    }
}

} // verus!
