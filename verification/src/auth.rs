//! Bearer authentication of requests: the decisions taken on the presented
//! credential, its decoded claims and the client's allowance.

use crate::api_client_service_impl::IsClientValidError;
use crate::jwt_service_impl::{can_issue_at, is_token_claims, Claims, TOKEN_LIFETIME_SECS, UTC_MAX_TIMESTAMP, UTC_MIN_TIMESTAMP};
use vstd::prelude::*;

verus! {

/// An authenticated caller: the subject of its token.
pub struct CustomAuthentication {
    pub subject: String,
}

/// Why a request is not authenticated.
pub enum AuthFailure {
    HeaderMissing,
    Unauthorized,
    Forbidden,
}

/// What to do after the token was decoded: refuse, or ask whether the
/// subject is allowed.
pub enum AuthStep {
    Reject(AuthFailure),
    CheckAllowed(String),
}

/// A token expiring at `exp` has expired at `now_secs` seconds and
/// `now_nanos` nanoseconds: the present lies strictly after `exp`.
pub open spec fn is_expired(exp: usize, now_secs: i64, now_nanos: u32) -> bool {
    now_secs > exp as i64 || (now_secs == exp as i64 && now_nanos > 0)
}

/// The step taken on decoded claims at a given time.
pub open spec fn decode_step_spec(decoded: Result<Claims, String>, now_secs: i64, now_nanos: u32, step: AuthStep) -> bool {
    match decoded {
        Err(_) => step matches AuthStep::Reject(AuthFailure::Unauthorized),
        Ok(c) => if is_expired(c.exp, now_secs, now_nanos) {
            step matches AuthStep::Reject(AuthFailure::Forbidden)
        } else {
            step matches AuthStep::CheckAllowed(s) && s@ == c.sub@
        },
    }
}

/// An empty credential means the header is missing.
pub fn check_credential_present(credential: &str) -> (r: Result<(), AuthFailure>)
    ensures
        credential@.len() == 0 <==> r matches Err(AuthFailure::HeaderMissing),
        r is Err ==> credential@.len() == 0,
{
    if credential.is_empty() {
        Err(AuthFailure::HeaderMissing)
    } else {
        Ok(())
    }
}

/// What the decoded claims decide at time `now_secs`/`now_nanos`: a token
/// that did not decode is unauthorized, an expired one forbidden; otherwise
/// the subject's allowance is to be checked. The expiry must be a time
/// chrono represents (the service unwraps its conversion).
pub fn after_decode(decoded: Result<Claims, String>, now_secs: i64, now_nanos: u32) -> (step: AuthStep)
    requires
        decoded matches Ok(c) ==> UTC_MIN_TIMESTAMP <= c.exp as i64 <= UTC_MAX_TIMESTAMP,
    ensures
        decode_step_spec(decoded, now_secs, now_nanos, step),
{
    match decoded {
        Err(_) => AuthStep::Reject(AuthFailure::Unauthorized),
        Ok(claims) => {
            let expires: i64 = claims.exp as i64;
            if now_secs > expires || (now_secs == expires && now_nanos > 0) {
                AuthStep::Reject(AuthFailure::Forbidden)
            } else {
                AuthStep::CheckAllowed(claims.sub)
            }
        },
    }
}

/// What the allowance of the subject decides: an allowed client is
/// authenticated under its subject, a refused one forbidden, and a failed
/// check unauthorized.
pub fn after_allowed(allowed: Result<bool, IsClientValidError>, subject: String) -> (r: Result<CustomAuthentication, AuthFailure>)
    ensures
        match allowed {
            Ok(true) => r matches Ok(a) && a.subject@ == subject@,
            Ok(false) => r matches Err(AuthFailure::Forbidden),
            Err(_) => r matches Err(AuthFailure::Unauthorized),
        },
{
    match allowed {
        Ok(resp) => {
            if resp {
                Ok(CustomAuthentication { subject })
            } else {
                Err(AuthFailure::Forbidden)
            }
        },
        Err(_) => Err(AuthFailure::Unauthorized),
    }
}

/// A token issued at `issued` stays usable for exactly its lifetime: its
/// expiry is one `after_decode` accepts, and at a time `now_secs`/`now_nanos`
/// the decoded claims lead on to the allowance check of their subject until
/// the expiry second has passed, and are refused as forbidden afterwards.
pub proof fn lemma_token_lifetime(
    c: Claims,
    client_id: Seq<char>,
    base_url: Seq<char>,
    issued: i64,
    now_secs: i64,
    now_nanos: u32,
    step: AuthStep,
)
    requires
        is_token_claims(c, client_id, base_url, issued),
        can_issue_at(issued),
        0 <= issued,
        issued + TOKEN_LIFETIME_SECS <= usize::MAX,
        decode_step_spec(Ok(c), now_secs, now_nanos, step),
    ensures
        UTC_MIN_TIMESTAMP <= c.exp as i64 <= UTC_MAX_TIMESTAMP,
        (now_secs < issued + TOKEN_LIFETIME_SECS || (now_secs == issued + TOKEN_LIFETIME_SECS && now_nanos == 0))
            ==> (step matches AuthStep::CheckAllowed(s) && s@ == client_id),
        (now_secs > issued + TOKEN_LIFETIME_SECS || (now_secs == issued + TOKEN_LIFETIME_SECS && now_nanos > 0))
            ==> step matches AuthStep::Reject(AuthFailure::Forbidden),
{
    assert(c.exp as int == issued + TOKEN_LIFETIME_SECS);
    assert(c.exp as i64 == issued + TOKEN_LIFETIME_SECS);
}

} // verus!
