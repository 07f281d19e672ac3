//! Access tokens: who gets one, the claims it carries and the response that
//! hands it out. Signing the claims is left to the caller.

use crate::api_client_service_impl::{
    credential_lookup_spec, verifies, verify_client_secret, ApiClientCredential,
    ApiClientCredentialError, RecordApiClientCredential,
};
use crate::db::DbOutcome;
use vstd::prelude::*;

verus! {

/// The response that hands out an access token.
pub struct JWTTokenResponse {
    pub access_token: String,
    pub token_type: String,
    pub expires_in: u16,
    pub refresh_token: String,
    pub scope: String,
    pub state: String,
}

/// The claims of an access token; times are Unix timestamps.
pub struct Claims {
    pub aud: String,
    pub exp: usize,
    pub iat: usize,
    pub iss: String,
    pub nbf: usize,
    pub sub: String,
}

/// Why no token was issued.
pub struct JWTErrorResponse {
    pub error_code: String,
    pub error_message: String,
}

/// How long an access token is valid: 60 minutes.
pub const TOKEN_LIFETIME_SECS: i64 = 3600;

/// The `typ` header of an access token.
pub const ACCESS_TOKEN_TYPE: &'static str = "at+jwt";

/// The extra header entry every access token carries: name and value.
pub const TOKEN_HEADER_EXTRA: (&'static str, &'static str) = ("custom", "header");

/// The algorithm access tokens are signed and checked with, by its JWS name:
/// HMAC with SHA-512.
pub const TOKEN_ALGORITHM: &'static str = "HS512";

/// The HMAC key access tokens are signed and checked with.
pub const TOKEN_SIGNING_KEY: &'static str = "secret";

/// The earliest Unix timestamp chrono represents (1 January of year -262143).
pub const UTC_MIN_TIMESTAMP: i64 = -8334601315200;

/// The latest whole Unix timestamp chrono represents (31 December 262142,
/// 23:59:59).
pub const UTC_MAX_TIMESTAMP: i64 = 8210266876799;

/// `now` is a time at which a token can be issued: chrono can represent it
/// and the expiry 60 minutes later.
pub open spec fn can_issue_at(now: i64) -> bool {
    UTC_MIN_TIMESTAMP <= now && now + TOKEN_LIFETIME_SECS <= UTC_MAX_TIMESTAMP
}

/// `c` are the claims of a token issued at `now` to `client_id` by the
/// service at `base_url`: audience and issuer are the service, the subject
/// the client, valid from `now` for 60 minutes (times are converted with
/// `as usize`, wrapping negative ones).
pub open spec fn is_token_claims(c: Claims, client_id: Seq<char>, base_url: Seq<char>, now: i64) -> bool {
    &&& c.aud@ == base_url
    &&& c.iss@ == base_url
    &&& c.sub@ == client_id
    &&& c.nbf == now as usize
    &&& c.iat == now as usize
    &&& c.exp == (now + TOKEN_LIFETIME_SECS) as usize
}

/// Whether a client id and secret may get a token: the credential was found
/// (and active), and the secret checks out against the stored hash.
pub fn is_valid(client_secret: &String, credential: Result<ApiClientCredential, ApiClientCredentialError>) -> (r: bool)
    ensures
        r == (credential matches Ok(c) && verifies(client_secret@, c.client_secret@)),
{
    match credential {
        Ok(credential) => {
            match verify_client_secret(client_secret, &credential.client_secret) {
                Ok(v) => v,
                Err(_) => false,
            }
        },
        Err(_) => false,
    }
}

/// What `token` answers `client_id`, asking through `grant_type` at `now`, on
/// behalf of the service at `base_url`: the claims of a fresh token when the
/// client's credentials are valid, a 400 otherwise. The grant type plays no
/// part in it.
pub open spec fn is_token_outcome(
    client_id: Seq<char>,
    base_url: Seq<char>,
    _grant_type: Seq<char>,
    credential_is_valid: bool,
    now: i64,
    r: Result<Claims, JWTErrorResponse>,
) -> bool {
    if credential_is_valid {
        r matches Ok(c) && is_token_claims(c, client_id, base_url, now)
    } else {
        r matches Err(e) && e.error_code@ == "400"@ && e.error_message@ == "invalid client id or client secret"@
    }
}

/// A result of `token` as plain values: the claims field by field, or the
/// error's code and message.
pub open spec fn token_result_view(r: Result<Claims, JWTErrorResponse>) -> Result<
    (Seq<char>, usize, usize, Seq<char>, usize, Seq<char>),
    (Seq<char>, Seq<char>),
> {
    match r {
        Ok(c) => Ok((c.aud@, c.exp, c.iat, c.iss@, c.nbf, c.sub@)),
        Err(e) => Err((e.error_code@, e.error_message@)),
    }
}

/// The claims of a token for `client_id`, issued at `now` by the service at
/// `app_base_url`, when the client's credentials are valid; a 400 otherwise.
/// Any grant type is accepted and none changes the answer.
pub fn token(
    client_id: &String,
    app_base_url: &String,
    _grant_type: &String,
    credential_is_valid: bool,
    now: i64,
) -> (r: Result<Claims, JWTErrorResponse>)
    requires
        credential_is_valid ==> can_issue_at(now),
    ensures
        is_token_outcome(client_id@, app_base_url@, _grant_type@, credential_is_valid, now, r),
{
    if !credential_is_valid {
        return Err(JWTErrorResponse {
            error_code: String::from_str("400"),
            error_message: String::from_str("invalid client id or client secret"),
        });
    }
    let nbf = now;
    let expires_on: i64 = now + TOKEN_LIFETIME_SECS;
    let exp: usize = expires_on as usize;
    Ok(Claims {
        aud: app_base_url.clone(),
        exp: exp,
        iat: nbf as usize,
        iss: app_base_url.clone(),
        nbf: nbf as usize,
        sub: client_id.clone(),
    })
}

/// The response handing out `access_token`, the signed form of `claims`:
/// a bearer token whose `expires_in` is the expiry timestamp taken
/// `as u16` (it keeps the low 16 bits).
pub fn token_response(access_token: String, claims: &Claims) -> (r: JWTTokenResponse)
    ensures
        r.access_token@ == access_token@,
        r.token_type@ == "bearer"@,
        r.expires_in == claims.exp as u16,
        r.refresh_token@.len() == 0,
        r.scope@.len() == 0,
        r.state@.len() == 0,
{
    JWTTokenResponse {
        access_token,
        token_type: String::from_str("bearer"),
        expires_in: claims.exp as u16,
        refresh_token: String::new(),
        scope: String::new(),
        state: String::new(),
    }
}


/// The grant type never changes what `token` answers: for the same client,
/// service, credential verdict and second, any two grant types give equal
/// results.
pub proof fn lemma_token_ignores_grant_type(
    client_id: Seq<char>,
    base_url: Seq<char>,
    grant_type_a: Seq<char>,
    grant_type_b: Seq<char>,
    credential_is_valid: bool,
    now: i64,
    a: Result<Claims, JWTErrorResponse>,
    b: Result<Claims, JWTErrorResponse>,
)
    requires
        is_token_outcome(client_id, base_url, grant_type_a, credential_is_valid, now, a),
        is_token_outcome(client_id, base_url, grant_type_b, credential_is_valid, now, b),
    ensures
        token_result_view(a) == token_result_view(b),
{
}

/// Only an active client whose secret matches its stored hash passes the
/// credential check: when the lookup of a client (`credential_lookup_outcome`
/// on what the database returned) is judged valid by `is_valid`, the database
/// returned an active row whose stored secret checks out against the
/// presented one.
pub proof fn lemma_valid_client_is_active_and_verified(
    db: DbOutcome<RecordApiClientCredential>,
    lookup: Result<ApiClientCredential, ApiClientCredentialError>,
    client_secret: Seq<char>,
)
    requires
        credential_lookup_spec(db, lookup),
        lookup matches Ok(c) && verifies(client_secret, c.client_secret@),
    ensures
        db matches DbOutcome::Completed(row) && row.is_active && verifies(client_secret, row.client_secret@),
{
}

} // verus!
