//! API client credentials: SQL statements, the decisions taken on what the
//! database returns, and the client secret (generation, hashing, checking).

use crate::db::DbOutcome;
use crate::ids::{parse_uuid, text_result, uuid_parse, uuid_text, uuid_to_text};
use crate::text::{bool_text, bool_to_text, i64_text, int_text, push_char};
use crate::timestamp::Timestamp;
use argon2::password_hash::rand_core::OsRng;
use argon2::password_hash::SaltString;
use argon2::{Argon2, PasswordHash, PasswordHasher, PasswordVerifier};
use rand::RngExt;
use vstd::prelude::*;

verus! {

/// A credential as the service hands it out.
pub struct ApiClientCredential {
    pub id: String,
    pub client_id: String,
    pub client_secret: String,
    pub is_active: bool,
    pub created_on: String,
    pub updated_on: String,
}

/// Why a credential operation failed: an HTTP-like code and a message.
pub struct ApiClientCredentialError {
    pub error_code: String,
    pub error_message: String,
}

/// A row of `api_client_credentials`.
pub struct RecordApiClientCredential {
    pub id: u128,
    pub client_id: String,
    pub client_secret: String,
    pub is_active: bool,
    pub created_on: Timestamp,
    pub updated_on: Timestamp,
}

/// The row `create_api_client_credentials` returns: the new id as text.
pub struct RecordCreateApiClientCredential {
    pub _id: String,
}

/// A freshly generated client secret, in clear.
pub struct GeneratedClientSecret {
    pub client_secret: String,
}

/// Why generating a secret failed.
pub struct GeneratedClientSecretError {
    pub error: String,
}

/// A client secret as stored: an Argon2 PHC string.
pub struct EncryptedClientSecret {
    pub encrypted_secret: String,
}

/// Why hashing a secret failed.
pub struct EncryptedClientSecretError {
    pub error_message: String,
}

/// Why a stored secret could not be checked.
pub struct VerifyClientSecretError {
    pub error_message: String,
}

/// Why the allowance of a client could not be read.
pub struct IsClientValidError {
    pub error_code: String,
    pub error_message: String,
}

/// The row `is_client_allowed` returns.
pub struct RecordIsClientValid {
    pub is_allowed: bool,
}

/// What `create_credential` does once the insert has run: report a failure,
/// or read the saved credential back by its id.
pub enum CreateCredentialStep {
    Failed(ApiClientCredentialError),
    FetchSaved(u128),
}

/// The columns every credential query selects.
pub const CREDENTIAL_SELECT: &'static str = "SELECT acc.id, acc.client_id, acc.client_secret, acc.is_active, acc.created_on, acc.updated_on FROM api_client_credentials AS acc";

// ---------------------------------------------------------------- specs

/// `c` is the credential the service makes of `row`.
pub open spec fn is_credential_of(c: ApiClientCredential, row: RecordApiClientCredential) -> bool {
    &&& c.id@ == uuid_text(row.id)
    &&& c.client_id@ == row.client_id@
    &&& c.client_secret@ == row.client_secret@
    &&& c.is_active == row.is_active
    &&& c.created_on@ == row.created_on.text()
    &&& c.updated_on@ == row.updated_on.text()
}

/// `e` carries exactly this code and message.
pub open spec fn is_credential_error(e: ApiClientCredentialError, code: Seq<char>, message: Seq<char>) -> bool {
    e.error_code@ == code && e.error_message@ == message
}

/// The outcome of reading one credential (by client id or by id): a failed
/// connection is a 500, a failed query a 400, an inactive credential a 400.
pub open spec fn credential_lookup_spec(
    db: DbOutcome<RecordApiClientCredential>,
    r: Result<ApiClientCredential, ApiClientCredentialError>,
) -> bool {
    match db {
        DbOutcome::ConnectionFailed(m) => r matches Err(e) && is_credential_error(e, "500"@, m@),
        DbOutcome::QueryFailed(m) => r matches Err(e) && is_credential_error(e, "400"@, m@),
        DbOutcome::Completed(row) => if row.is_active {
            r matches Ok(c) && is_credential_of(c, row)
        } else {
            r matches Err(e) && is_credential_error(e, "400"@, "inactive client id"@)
        },
    }
}

/// An ASCII letter or digit.
pub open spec fn is_ascii_alphanumeric(c: char) -> bool {
    ||| 'a' <= c && c <= 'z'
    ||| 'A' <= c && c <= 'Z'
    ||| '0' <= c && c <= '9'
}

/// The length of a generated client secret.
pub const CLIENT_SECRET_LENGTH: usize = 32;

/// What `argon2` says of a password against a stored PHC string:
/// `PasswordHash::new(phc)` fails with a message, or the password is checked
/// with `Argon2::default().verify_password`.
pub uninterp spec fn argon2_verify(password: Seq<char>, phc: Seq<char>) -> Result<bool, Seq<char>>;

/// Checking `password` against the PHC string `phc` succeeds.
pub open spec fn verifies(password: Seq<char>, phc: Seq<char>) -> bool {
    argon2_verify(password, phc) matches Ok(ok) && ok
}


/// The secret check `verify_client_secret` reports: the parse error of the
/// stored string, or whether the incoming secret matches it.
pub open spec fn verify_client_secret_result(incoming: Seq<char>, stored: Seq<char>) -> Result<bool, Seq<char>> {
    argon2_verify(incoming, stored)
}

/// The longest password argon2 hashes, in bytes (`argon2::MAX_PWD_LEN`).
pub const ARGON2_MAX_PASSWORD_BYTES: usize = 0xFFFF_FFFF;

/// argon2 hashes `password`: its UTF-8 encoding is at most
/// `ARGON2_MAX_PASSWORD_BYTES` long.
pub open spec fn is_hashable_password(password: Seq<char>) -> bool {
    vstd::utf8::encode_utf8(password).len() <= ARGON2_MAX_PASSWORD_BYTES
}

/// The head of every PHC string that `Argon2::default()` writes: algorithm
/// Argon2id, version 19 (0x13) and the default costs (m = 19 MiB, t = 2
/// passes, p = 1 lane).
pub const ARGON2_PHC_PREFIX: &'static str = "$argon2id$v=19$m=19456,t=2,p=1$";

/// Length of the salt field of a stored hash: 16 random bytes in unpadded
/// Base64.
pub const ARGON2_SALT_B64_LEN: usize = 22;

/// Length of the hash field of a stored hash: 32 output bytes in unpadded
/// Base64.
pub const ARGON2_HASH_B64_LEN: usize = 43;

/// A character of the standard Base64 alphabet.
pub open spec fn is_b64_char(c: char) -> bool {
    is_ascii_alphanumeric(c) || c == '+' || c == '/'
}

/// `h` is a PHC string as `Argon2::default()` writes it for a generated salt:
/// `ARGON2_PHC_PREFIX`, a 22-character salt, `$`, and a 43-character hash,
/// salt and hash in the Base64 alphabet.
pub open spec fn is_default_argon2_phc(h: Seq<char>) -> bool {
    let p = ARGON2_PHC_PREFIX@;
    let salt_end = p.len() + ARGON2_SALT_B64_LEN;
    &&& h.len() == salt_end + 1 + ARGON2_HASH_B64_LEN
    &&& h.subrange(0, p.len() as int) == p
    &&& h[salt_end] == '$'
    &&& forall|i: int| p.len() <= i < h.len() && i != salt_end ==> is_b64_char(#[trigger] h[i])
}

/// `s` could be a secret drawn by `generate_client_secret`.
pub open spec fn is_client_secret_text(s: Seq<char>) -> bool {
    &&& s.len() == CLIENT_SECRET_LENGTH
    &&& forall|i: int| 0 <= i < s.len() ==> is_ascii_alphanumeric(#[trigger] s[i])
}

/// The outcome of creating a credential, up to reading it back.
pub open spec fn create_step_spec(db: DbOutcome<RecordCreateApiClientCredential>, step: CreateCredentialStep) -> bool {
    match db {
        DbOutcome::ConnectionFailed(m) => step matches CreateCredentialStep::Failed(e) && is_credential_error(e, "500"@, m@),
        DbOutcome::QueryFailed(m) => step matches CreateCredentialStep::Failed(e) && is_credential_error(e, "500"@, m@),
        DbOutcome::Completed(rec) => step matches CreateCredentialStep::FetchSaved(id) && uuid_parse(rec._id@) == Ok::<u128, Seq<char>>(id),
    }
}

// ---------------------------------------------------------------- outside calls

/// `rand::rng().sample(rand::distr::Alphanumeric)`: one byte drawn uniformly
/// from `A-Z`, `a-z`, `0-9` (rand's `Alphanumeric` only returns bytes of that
/// table). Which byte is drawn is left open. rand panics when the operating
/// system cannot seed its generator.
#[verifier::external_body]
fn random_alphanumeric() -> (b: u8)
    ensures
        is_ascii_alphanumeric(b as char),
{
    rand::rng().sample(rand::distr::Alphanumeric)
}

/// Argon2 (default parameters) of `password` with a fresh random salt from
/// `SaltString::generate(&mut OsRng)`, as a PHC string. Stated of the hash,
/// as argon2's source shows it: verifying the same password against it
/// succeeds, and its `Display` form is `ARGON2_PHC_PREFIX`, the 16-byte salt
/// and `$` and the 32-byte output, both in unpadded Base64. Hashing fails
/// exactly when the password is longer than `argon2::MAX_PWD_LEN` bytes
/// (`Error::PwdTooLong`; the generated salt, the default parameters and the
/// output length pass every other check of `hash_password`). Which salt and
/// hash characters come out, and the error text, are not stated.
#[verifier::external_body]
fn argon2_hash(password: &str) -> (r: Result<String, String>)
    ensures
        r matches Ok(h) ==> verifies(password@, h@),
        r matches Ok(h) ==> is_default_argon2_phc(h@),
        r is Ok <==> is_hashable_password(password@),
{
    let salt = SaltString::generate(&mut OsRng);
    match Argon2::default().hash_password(password.as_bytes(), &salt) {
        Ok(h) => Ok(h.to_string()),
        Err(e) => Err(e.to_string()),
    }
}

/// `PasswordHash::new(phc)` and, when it parses,
/// `Argon2::default().verify_password(password, &hash).is_ok()`; a parse
/// failure gives the error's `Display` text. Stated besides the name, as the
/// source shows it: whether `phc` parses, and the parse error, do not depend
/// on the password (the password is only read after the parse).
#[verifier::external_body]
fn argon2_check(password: &str, phc: &str) -> (r: Result<bool, String>)
    ensures
        text_result(r) == argon2_verify(password@, phc@),
        r is Ok ==> forall|p: Seq<char>| #[trigger] argon2_verify(p, phc@) is Ok,
        r is Err ==> forall|p: Seq<char>| #[trigger] argon2_verify(p, phc@) == text_result(r),
{
    match PasswordHash::new(phc) {
        Ok(h) => Ok(Argon2::default().verify_password(password.as_bytes(), &h).is_ok()),
        Err(e) => Err(e.to_string()),
    }
}

// ---------------------------------------------------------------- helpers

fn credential_error(code: &str, message: &str) -> (e: ApiClientCredentialError)
    ensures
        is_credential_error(e, code@, message@),
{
    ApiClientCredentialError { error_code: String::from_str(code), error_message: String::from_str(message) }
}

/// The credential made of a database row.
pub fn credential_from_row(row: &RecordApiClientCredential) -> (c: ApiClientCredential)
    ensures
        is_credential_of(c, *row),
{
    ApiClientCredential {
        id: uuid_to_text(row.id),
        client_id: row.client_id.clone(),
        client_secret: row.client_secret.clone(),
        is_active: row.is_active,
        created_on: row.created_on.to_text(),
        updated_on: row.updated_on.to_text(),
    }
}

// ---------------------------------------------------------------- statements

/// The statement that creates a credential through
/// `create_api_client_credentials`.
pub fn create_credential_statement(client_id: &str, client_secret: &str, is_active: bool) -> (s: String)
    ensures
        s@ == "SELECT * FROM create_api_client_credentials('"@ + client_id@ + "', '"@ + client_secret@
            + "', "@ + bool_text(is_active) + ") AS _id;"@,
{
    let mut s = String::from_str("SELECT * FROM create_api_client_credentials('");
    s.append(client_id);
    s.append("', '");
    s.append(client_secret);
    s.append("', ");
    let b = bool_to_text(is_active);
    s.append(b.as_str());
    s.append(") AS _id;");
    s
}

/// The statement that reads a credential by (a pattern of) its client id.
pub fn get_credential_statement(client_id: &str) -> (s: String)
    ensures
        s@ == CREDENTIAL_SELECT@ + " WHERE acc.client_id LIKE '%"@ + client_id@ + "%'"@,
{
    let mut s = String::from_str(CREDENTIAL_SELECT);
    s.append(" WHERE acc.client_id LIKE '%");
    s.append(client_id);
    s.append("%'");
    s
}

/// The statement that reads a credential by its id.
pub fn get_by_id_statement(id: u128) -> (s: String)
    ensures
        s@ == CREDENTIAL_SELECT@ + " WHERE acc.id = '"@ + uuid_text(id) + "'"@,
{
    let mut s = String::from_str(CREDENTIAL_SELECT);
    s.append(" WHERE acc.id = '");
    let t = uuid_to_text(id);
    s.append(t.as_str());
    s.append("'");
    s
}

/// The statement that deletes a credential by its id.
pub fn delete_credential_statement(id: u128) -> (s: String)
    ensures
        s@ == "DELETE FROM api_client_credentials WHERE id='"@ + uuid_text(id) + "'"@,
{
    let mut s = String::from_str("DELETE FROM api_client_credentials WHERE id='");
    let t = uuid_to_text(id);
    s.append(t.as_str());
    s.append("'");
    s
}

/// The statement that lists credentials, filtered by a client id pattern
/// when `search` is not empty.
pub fn get_api_client_credentials_statement(search: &str, offset: i32, limit: i32) -> (s: String)
    ensures
        search@.len() == 0 ==> s@ == CREDENTIAL_SELECT@ + " LIMIT "@ + int_text(limit as int) + " OFFSET "@
            + int_text(offset as int),
        search@.len() != 0 ==> s@ == CREDENTIAL_SELECT@ + " WHERE acc.client_id LIKE '%"@ + search@
            + "%'"@ + " LIMIT "@ + int_text(limit as int) + " OFFSET "@ + int_text(offset as int),
{
    let mut s = String::from_str(CREDENTIAL_SELECT);
    if !search.is_empty() {
        s.append(" WHERE acc.client_id LIKE '%");
        s.append(search);
        s.append("%'");
    }
    s.append(" LIMIT ");
    let l = i64_text(limit as i64);
    s.append(l.as_str());
    s.append(" OFFSET ");
    let o = i64_text(offset as i64);
    s.append(o.as_str());
    s
}

/// The statement that asks whether a client is allowed on the platform.
pub fn is_allowed_statement(client_id: &str) -> (s: String)
    ensures
        s@ == "SELECT is_client_allowed('"@ + client_id@ + "') AS is_allowed;"@,
{
    let mut s = String::from_str("SELECT is_client_allowed('");
    s.append(client_id);
    s.append("') AS is_allowed;");
    s
}


// ---------------------------------------------------------------- outcomes

/// What reading one credential comes to (`get_credential` and `get_by_id`
/// decide alike): a failed connection is a 500, a failed query a 400, an
/// inactive credential is refused with a 400, an active one is handed out.
pub fn credential_lookup_outcome(db: DbOutcome<RecordApiClientCredential>) -> (r: Result<ApiClientCredential, ApiClientCredentialError>)
    ensures
        credential_lookup_spec(db, r),
        r matches Ok(c) ==> c.is_active,
{
    match db {
        DbOutcome::ConnectionFailed(m) => Err(ApiClientCredentialError { error_code: String::from_str("500"), error_message: m }),
        DbOutcome::QueryFailed(m) => Err(ApiClientCredentialError { error_code: String::from_str("400"), error_message: m }),
        DbOutcome::Completed(row) => {
            if !row.is_active {
                Err(credential_error("400", "inactive client id"))
            } else {
                Ok(credential_from_row(&row))
            }
        },
    }
}

/// What deleting a credential comes to: the id of the deleted credential
/// (other fields empty, inactive) when a row went away, a 404 when none did,
/// a 500 when the database failed.
pub fn delete_credential_outcome(id: u128, db: DbOutcome<u64>) -> (r: Result<ApiClientCredential, ApiClientCredentialError>)
    ensures
        match db {
            DbOutcome::ConnectionFailed(m) => r matches Err(e) && is_credential_error(e, "500"@, m@),
            DbOutcome::QueryFailed(m) => r matches Err(e) && is_credential_error(e, "500"@, m@),
            DbOutcome::Completed(n) => if n > 0 {
                r matches Ok(c) && c.id@ == uuid_text(id) && c.client_id@.len() == 0
                    && c.client_secret@.len() == 0 && !c.is_active && c.created_on@.len() == 0
                    && c.updated_on@.len() == 0
            } else {
                r matches Err(e) && is_credential_error(e, "404"@, "invalid api client credentials"@)
            },
        },
{
    match db {
        DbOutcome::ConnectionFailed(m) => Err(ApiClientCredentialError { error_code: String::from_str("500"), error_message: m }),
        DbOutcome::QueryFailed(m) => Err(ApiClientCredentialError { error_code: String::from_str("500"), error_message: m }),
        DbOutcome::Completed(n) => {
            if n > 0 {
                Ok(ApiClientCredential {
                    id: uuid_to_text(id),
                    client_id: String::new(),
                    client_secret: String::new(),
                    is_active: false,
                    created_on: String::new(),
                    updated_on: String::new(),
                })
            } else {
                Err(credential_error("404", "invalid api client credentials"))
            }
        },
    }
}

/// What listing credentials comes to: every row, in order, or a 500.
pub fn api_client_credentials_outcome(db: DbOutcome<Vec<RecordApiClientCredential>>) -> (r: Result<Vec<ApiClientCredential>, ApiClientCredentialError>)
    ensures
        match db {
            DbOutcome::ConnectionFailed(m) => r matches Err(e) && is_credential_error(e, "500"@, m@),
            DbOutcome::QueryFailed(m) => r matches Err(e) && is_credential_error(e, "500"@, m@),
            DbOutcome::Completed(rows) => r matches Ok(v) && v.len() == rows.len()
                && forall|i: int| 0 <= i < rows.len() ==> is_credential_of(#[trigger] v[i], rows[i]),
        },
{
    match db {
        DbOutcome::ConnectionFailed(m) => Err(ApiClientCredentialError { error_code: String::from_str("500"), error_message: m }),
        DbOutcome::QueryFailed(m) => Err(ApiClientCredentialError { error_code: String::from_str("500"), error_message: m }),
        DbOutcome::Completed(rows) => {
            let mut data: Vec<ApiClientCredential> = Vec::new();
            let mut i: usize = 0;
            while i < rows.len()
                invariant
                    i <= rows.len(),
                    data.len() == i,
                    forall|j: int| 0 <= j < i ==> is_credential_of(#[trigger] data[j], rows[j]),
                decreases rows.len() - i,
            {
                let c = credential_from_row(&rows[i]);
                data.push(c);
                i = i + 1;
            }
            Ok(data)
        },
    }
}

/// What asking whether a client is allowed comes to.
pub fn is_allowed_outcome(db: DbOutcome<RecordIsClientValid>) -> (r: Result<bool, IsClientValidError>)
    ensures
        match db {
            DbOutcome::ConnectionFailed(m) => r matches Err(e) && e.error_code@ == "500"@ && e.error_message@ == m@,
            DbOutcome::QueryFailed(m) => r matches Err(e) && e.error_code@ == "500"@ && e.error_message@ == m@,
            DbOutcome::Completed(rec) => r == Ok::<bool, IsClientValidError>(rec.is_allowed),
        },
{
    match db {
        DbOutcome::ConnectionFailed(m) => Err(IsClientValidError { error_code: String::from_str("500"), error_message: m }),
        DbOutcome::QueryFailed(m) => Err(IsClientValidError { error_code: String::from_str("500"), error_message: m }),
        DbOutcome::Completed(rec) => Ok(rec.is_allowed),
    }
}

/// What creating a credential comes to once the insert has run; the new
/// id must be a UUID (the service unwraps its parse).
pub fn create_credential_next(db: DbOutcome<RecordCreateApiClientCredential>) -> (step: CreateCredentialStep)
    requires
        db matches DbOutcome::Completed(rec) ==> uuid_parse(rec._id@) is Ok,
    ensures
        create_step_spec(db, step),
{
    match db {
        DbOutcome::ConnectionFailed(m) => CreateCredentialStep::Failed(ApiClientCredentialError { error_code: String::from_str("500"), error_message: m }),
        DbOutcome::QueryFailed(m) => CreateCredentialStep::Failed(ApiClientCredentialError { error_code: String::from_str("500"), error_message: m }),
        DbOutcome::Completed(rec) => {
            match parse_uuid(rec._id.as_str()) {
                Ok(id) => CreateCredentialStep::FetchSaved(id),
                Err(_) => CreateCredentialStep::FetchSaved(0),
            }
        },
    }
}

/// `create_credential_next` where the returned id is checked first: `None`
/// exactly when the database returned an id that is not a UUID (where the
/// service panics).
pub fn create_credential_next_checked(db: DbOutcome<RecordCreateApiClientCredential>) -> (r: Option<CreateCredentialStep>)
    ensures
        r is None <==> (db matches DbOutcome::Completed(rec) && uuid_parse(rec._id@) is Err),
        r matches Some(step) ==> create_step_spec(db, step),
{
    if let DbOutcome::Completed(rec) = &db {
        if parse_uuid(rec._id.as_str()).is_err() {
            return None;
        }
    }
    Some(create_credential_next(db))
}

// ---------------------------------------------------------------- secrets

/// A new client secret: 32 characters drawn from `A-Z`, `a-z`, `0-9`.
pub fn generate_client_secret() -> (r: Result<GeneratedClientSecret, GeneratedClientSecretError>)
    ensures
        r matches Ok(g) && is_client_secret_text(g.client_secret@),
{
    let mut s = String::new();
    let mut i: usize = 0;
    while i < CLIENT_SECRET_LENGTH
        invariant
            i <= CLIENT_SECRET_LENGTH,
            s@.len() == i,
            forall|j: int| 0 <= j < i ==> is_ascii_alphanumeric(#[trigger] s@[j]),
        decreases CLIENT_SECRET_LENGTH - i,
    {
        let b = random_alphanumeric();
        push_char(&mut s, b as char);
        i = i + 1;
    }
    Ok(GeneratedClientSecret { client_secret: s })
}

/// A generated secret is short enough for argon2: 32 ASCII characters are
/// 32 bytes.
pub proof fn lemma_client_secret_is_hashable(s: Seq<char>)
    requires
        is_client_secret_text(s),
    ensures
        is_hashable_password(s),
{
    assert(vstd::utf8::is_ascii_chars(s)) by {
        assert forall|i: int| 0 <= i < s.len() implies '\0' <= #[trigger] s[i] <= '\u{7f}' by {
            assert(is_ascii_alphanumeric(s[i]));
        }
    }
    vstd::utf8::is_ascii_chars_encode_utf8(s);
}

/// Hashes a client secret for storage: it succeeds exactly for secrets of
/// at most `ARGON2_MAX_PASSWORD_BYTES` bytes; the stored string is then an
/// Argon2id PHC string with the default parameters, and it checks out
/// against the same secret.
pub fn encrypt_client_secret(client_secret: &String) -> (r: Result<EncryptedClientSecret, EncryptedClientSecretError>)
    ensures
        r is Ok <==> is_hashable_password(client_secret@),
        r matches Ok(e) ==> verifies(client_secret@, e.encrypted_secret@),
        r matches Ok(e) ==> is_default_argon2_phc(e.encrypted_secret@),
{
    match argon2_hash(client_secret.as_str()) {
        Ok(h) => Ok(EncryptedClientSecret { encrypted_secret: h }),
        Err(m) => Err(EncryptedClientSecretError { error_message: m }),
    }
}

/// Generates a client secret and hashes it: this always succeeds, and the
/// stored string is an Argon2id PHC string with the default parameters,
/// the hash of some 32-character alphanumeric secret.
pub fn generate_and_encrypt_client_secret() -> (r: Result<EncryptedClientSecret, EncryptedClientSecretError>)
    ensures
        r is Ok,
        r matches Ok(e) ==> exists|s: Seq<char>| is_client_secret_text(s) && #[trigger] verifies(s, e.encrypted_secret@),
        r matches Ok(e) ==> is_default_argon2_phc(e.encrypted_secret@),
{
    match generate_client_secret() {
        Ok(secret) => {
            let secret_value = secret.client_secret;
            proof {
                lemma_client_secret_is_hashable(secret_value@);
            }
            match encrypt_client_secret(&secret_value) {
                Ok(encrypted) => {
                    assert(verifies(secret_value@, encrypted.encrypted_secret@));
                    Ok(encrypted)
                },
                Err(e) => Err(EncryptedClientSecretError { error_message: e.error_message }),
            }
        },
        Err(err) => Err(EncryptedClientSecretError { error_message: err.error }),
    }
}

/// Checks an incoming secret against a stored one: `Ok` with the verdict
/// when the stored string is a PHC string, the parse error otherwise. Whether
/// it is `Ok`, and the error, depend on the stored string alone: every other
/// incoming secret gets the same.
pub fn verify_client_secret(incoming_client_secret: &String, stored_client_secret: &String) -> (r: Result<bool, VerifyClientSecretError>)
    ensures
        match verify_client_secret_result(incoming_client_secret@, stored_client_secret@) {
            Ok(b) => r matches Ok(v) && v == b,
            Err(m) => r matches Err(e) && e.error_message@ == m,
        },
        r is Ok ==> forall|p: Seq<char>| #[trigger] verify_client_secret_result(p, stored_client_secret@) is Ok,
        r matches Err(e) ==> forall|p: Seq<char>| #[trigger] verify_client_secret_result(p, stored_client_secret@)
            == Err::<bool, Seq<char>>(e.error_message@),
{
    match argon2_check(incoming_client_secret.as_str(), stored_client_secret.as_str()) {
        Ok(b) => Ok(b),
        Err(m) => Err(VerifyClientSecretError { error_message: m }),
    }
}

/// A secret checks out against the string its hashing produced:
/// whatever `encrypt_client_secret(s)` stores, `verify_client_secret(s, stored)`
/// answers `Ok(true)`.
pub proof fn lemma_encrypted_secret_verifies(secret: Seq<char>, stored: Seq<char>)
    requires
        verifies(secret, stored),
    ensures
        verify_client_secret_result(secret, stored) == Ok::<bool, Seq<char>>(true),
{
}

} // verus!
