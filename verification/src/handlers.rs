//! The bodies of the service's HTTP responses: which status, message,
//! errors and data each endpoint and each error catcher answers with.

use crate::api_client_service_impl::{ApiClientCredential, ApiClientCredentialError};
use crate::categories_service_impl::{ProductServiceError, RecordProductCategory};
use crate::http::{is_known_status, known_reason, reason_of};
use crate::ids::{parse_uuid, uuid_parse, uuid_text, uuid_to_text};
use crate::jwt_service_impl::{JWTErrorResponse, JWTTokenResponse};
use crate::text::{i64_text, int_text, lemma_parse_three_digits, parse_u16, parse_u16_spec};
use vstd::prelude::*;

verus! {

/// One error reported in a response body.
pub struct ResponseError {
    pub error_code: String,
    pub error_message: String,
}

/// The body of the index page.
pub struct IndexPageResponse {
    pub message: String,
    pub version: String,
    pub documentation_url: String,
}

/// A request for an access token.
pub struct TokenRequest {
    pub client_id: String,
    pub client_secret: String,
    pub grant_type: String,
}

/// The body answering a token request.
pub struct TokenResponse {
    pub status: u16,
    pub message: String,
    pub errors: Vec<ResponseError>,
    pub data: JWTTokenResponse,
}

/// The body of an error catcher.
pub struct CatchResponse {
    pub status: u16,
    pub message: String,
    pub errors: Vec<ResponseError>,
    pub data: Vec<String>,
}

/// A request to create an API client credential.
pub struct CreateApiCredentialRequest {
    pub client_id: String,
    pub is_active: bool,
}

/// The body answering a credential creation or deletion.
pub struct CreateApiClientCredentialResponse {
    pub status: u16,
    pub message: String,
    pub errors: Vec<ResponseError>,
    pub data: Vec<ApiClientCredential>,
}

/// The body answering a credential listing.
pub struct ListApiClientCredentials {
    pub status: u16,
    pub message: String,
    pub limit: i32,
    pub offset: i32,
    pub total_count: i32,
    pub errors: Vec<ResponseError>,
    pub data: Vec<ApiClientCredential>,
}

/// The query of a credential listing.
pub struct FilterOptions {
    pub search: String,
    pub offset: Option<usize>,
    pub limit: Option<usize>,
}

/// The body answering the permission endpoints.
pub struct ApiClientPermissionResponse {
    pub status: u16,
    pub message: String,
    pub limit: i32,
    pub offset: i32,
    pub errors: Vec<ResponseError>,
    pub data: Vec<ApiClientPermission>,
}

/// The permissions of an API client.
pub struct ApiClientPermission {
    pub client_id: String,
    pub permissions: Vec<String>,
}

/// A request to grant permissions to an API client.
pub struct CreateApiClientPermission {
    pub client_id: String,
    pub permissions: Vec<ApiClientPermission>,
}

/// A request to change the permissions of an API client.
pub struct UpdateApiClientPermission {}

/// The body answering a product category listing.
pub struct ProductCategoriesResponse {
    pub status: u16,
    pub message: String,
    pub limit: i32,
    pub offset: i32,
    pub total_count: i32,
    pub errors: Vec<ResponseError>,
    pub data: Vec<ProductCategory>,
}

/// A product category as the service hands it out.
pub struct ProductCategory {
    pub id: String,
    pub company_id: String,
    pub name: String,
    pub description: String,
    pub parent_category_id: String,
    pub created_at: String,
    pub modified_at: String,
    pub is_active: bool,
}

// ---------------------------------------------------------------- specs

/// `e` carries exactly this code and message.
pub open spec fn is_response_error(e: ResponseError, code: Seq<char>, message: Seq<char>) -> bool {
    e.error_code@ == code && e.error_message@ == message
}

/// `errors` is the single error with this code and message.
pub open spec fn is_single_error(errors: Seq<ResponseError>, code: Seq<char>, message: Seq<char>) -> bool {
    errors.len() == 1 && is_response_error(errors[0], code, message)
}

/// The token data sent when no token was issued: all empty, expiring at 0.
pub open spec fn is_empty_token(t: JWTTokenResponse) -> bool {
    &&& t.access_token@.len() == 0
    &&& t.token_type@.len() == 0
    &&& t.expires_in == 0
    &&& t.refresh_token@.len() == 0
    &&& t.scope@.len() == 0
    &&& t.state@.len() == 0
}

/// The body of an error catcher with this status, message phrase and
/// single error.
pub open spec fn is_catch_response(r: CatchResponse, status: u16, phrase_of: u16, code: Seq<char>, message: Seq<char>) -> bool {
    &&& r.status == status
    &&& r.message@ == reason_of(phrase_of)
    &&& is_single_error(r.errors@, code, message)
    &&& r.data.len() == 0
}

/// `p` is the product category made of `rec`; the parent is never
/// reported.
pub open spec fn is_product_category_of(p: ProductCategory, rec: RecordProductCategory) -> bool {
    &&& p.id@ == uuid_text(rec.id)
    &&& p.company_id@ == uuid_text(rec.company_id)
    &&& p.name@ == rec.name@
    &&& p.description@ == rec.description@
    &&& p.parent_category_id@.len() == 0
    &&& p.created_at@ == rec.created_at.text()
    &&& p.modified_at@ == rec.modified_at.text()
    &&& p.is_active == rec.is_active
}

// ---------------------------------------------------------------- helpers

fn response_error(code: &str, message: &str) -> (e: ResponseError)
    ensures
        is_response_error(e, code@, message@),
{
    ResponseError { error_code: String::from_str(code), error_message: String::from_str(message) }
}

fn single_error(e: ResponseError) -> (v: Vec<ResponseError>)
    ensures
        v@ == seq![e],
{
    let mut v: Vec<ResponseError> = Vec::new();
    v.push(e);
    v
}

fn catch_response(status: u16, phrase_of: u16, e: ResponseError) -> (r: CatchResponse)
    requires
        is_known_status(phrase_of),
    ensures
        r.status == status,
        r.message@ == reason_of(phrase_of),
        r.errors@ == seq![e],
        r.data.len() == 0,
{
    CatchResponse { status, message: known_reason(phrase_of), errors: single_error(e), data: Vec::new() }
}

fn message_with_uri(prefix: &str, uri: &str) -> (s: String)
    ensures
        s@ == prefix@ + uri@,
{
    let mut s = String::from_str(prefix);
    s.append(uri);
    s
}

// ---------------------------------------------------------------- endpoints

/// The index page.
pub fn index() -> (r: IndexPageResponse)
    ensures
        r.message@ == "Welcome to Project Eneo Restful API Service"@,
        r.version@ == "0.1.1a"@,
        r.documentation_url@.len() == 0,
{
    IndexPageResponse {
        message: String::from_str("Welcome to Project Eneo Restful API Service"),
        version: String::from_str("0.1.1a"),
        documentation_url: String::new(),
    }
}

/// The answer to a token request: 200 with the token, or 400 with the
/// reason and empty token data.
pub fn authentication_token_response(token_response: Result<JWTTokenResponse, JWTErrorResponse>) -> (r: TokenResponse)
    ensures
        r.message@ == reason_of(r.status),
        r.status == 200 <==> r.errors.len() == 0,
        match token_response {
            Ok(t) => r.status == 200 && r.errors.len() == 0 && r.data == t,
            Err(e) => r.status == 400 && is_single_error(r.errors@, e.error_code@, e.error_message@)
                && is_empty_token(r.data),
        },
{
    match token_response {
        Ok(resp) => TokenResponse { status: 200, message: known_reason(200), errors: Vec::new(), data: resp },
        Err(err) => {
            let token_data = JWTTokenResponse {
                access_token: String::new(),
                token_type: String::new(),
                expires_in: 0,
                refresh_token: String::new(),
                scope: String::new(),
                state: String::new(),
            };
            let e = ResponseError { error_code: err.error_code, error_message: err.error_message };
            TokenResponse { status: 400, message: known_reason(400), errors: single_error(e), data: token_data }
        },
    }
}

/// The answer to a credential creation: 200 with the credential, or the
/// error's own code as status (it must be a known status code; the service
/// panics otherwise).
pub fn create_api_credential_response(result: Result<ApiClientCredential, ApiClientCredentialError>) -> (r: CreateApiClientCredentialResponse)
    requires
        result matches Err(e) ==> (parse_u16_spec(e.error_code@) matches Some(c) && is_known_status(c)),
    ensures
        r.message@ == reason_of(r.status),
        match result {
            Ok(c) => r.status == 200 && r.errors.len() == 0 && r.data@ == seq![c],
            Err(e) => Some(r.status) == parse_u16_spec(e.error_code@)
                && is_single_error(r.errors@, e.error_code@, e.error_message@) && r.data.len() == 0,
        },
{
    match result {
        Ok(client) => {
            let mut data: Vec<ApiClientCredential> = Vec::new();
            data.push(client);
            CreateApiClientCredentialResponse { status: 200, message: known_reason(200), errors: Vec::new(), data }
        },
        Err(error) => {
            let status_code: u16 = match parse_u16(error.error_code.as_str()) {
                Some(c) => c,
                None => 500,
            };
            let e = ResponseError { error_code: error.error_code, error_message: error.error_message };
            CreateApiClientCredentialResponse {
                status: status_code,
                message: known_reason(status_code),
                errors: single_error(e),
                data: Vec::new(),
            }
        },
    }
}

/// The first step of deleting a credential: the id to delete, or a 400
/// answer carrying the parse error when the path id is not a UUID.
pub fn delete_api_client_credential_start(id: &str) -> (r: Result<u128, CreateApiClientCredentialResponse>)
    ensures
        match uuid_parse(id@) {
            Ok(v) => r matches Ok(w) && w == v,
            Err(m) => r matches Err(resp) && resp.status == 400 && resp.message@ == reason_of(400)
                && is_single_error(resp.errors@, "400"@, m) && resp.data.len() == 0,
        },
{
    match parse_uuid(id) {
        Ok(v) => Ok(v),
        Err(m) => {
            let e = ResponseError { error_code: String::from_str("400"), error_message: m };
            Err(CreateApiClientCredentialResponse {
                status: 400,
                message: known_reason(400),
                errors: single_error(e),
                data: Vec::new(),
            })
        },
    }
}

/// The answer once the delete has run: 200 or 400 with the error; the
/// deleted credential is not sent back.
pub fn delete_api_client_credential_finish(result: Result<ApiClientCredential, ApiClientCredentialError>) -> (r: CreateApiClientCredentialResponse)
    ensures
        r.message@ == reason_of(r.status),
        r.data.len() == 0,
        r.status == 200 <==> r.errors.len() == 0,
        match result {
            Ok(_) => r.status == 200 && r.errors.len() == 0,
            Err(e) => r.status == 400 && is_single_error(r.errors@, e.error_code@, e.error_message@),
        },
{
    match result {
        Ok(_) => CreateApiClientCredentialResponse { status: 200, message: known_reason(200), errors: Vec::new(), data: Vec::new() },
        Err(err) => {
            let e = ResponseError { error_code: err.error_code, error_message: err.error_message };
            CreateApiClientCredentialResponse { status: 400, message: known_reason(400), errors: single_error(e), data: Vec::new() }
        },
    }
}

/// The page asked for by a listing query, as `(offset, limit)` taken
/// `as i32`; both must be given (the service unwraps them).
pub fn get_api_client_credentials_page(filters: &FilterOptions) -> (r: (i32, i32))
    requires
        filters.offset is Some,
        filters.limit is Some,
    ensures
        r.0 == filters.offset->Some_0 as i32,
        r.1 == filters.limit->Some_0 as i32,
{
    let offset = match filters.offset {
        Some(o) => o as i32,
        None => 0,
    };
    let limit = match filters.limit {
        Some(l) => l as i32,
        None => 0,
    };
    (offset, limit)
}

/// The answer to a listing: 200 with the credentials, or 400 with the
/// error; the page is echoed and the total count is 0. The limit must not be
/// negative (the service reserves `limit as usize` entries, which panics).
pub fn get_api_client_credentials_response(offset: i32, limit: i32, result: Result<Vec<ApiClientCredential>, ApiClientCredentialError>) -> (r: ListApiClientCredentials)
    requires
        0 <= limit,
    ensures
        r.message@ == reason_of(r.status),
        r.offset == offset,
        r.limit == limit,
        r.total_count == 0,
        r.status == 200 <==> r.errors.len() == 0,
        match result {
            Ok(v) => r.status == 200 && r.errors.len() == 0 && r.data@ == v@,
            Err(e) => r.status == 400 && is_single_error(r.errors@, e.error_code@, e.error_message@)
                && r.data.len() == 0,
        },
{
    match result {
        Ok(credentials) => ListApiClientCredentials {
            status: 200,
            message: known_reason(200),
            limit,
            offset,
            total_count: 0,
            errors: Vec::new(),
            data: credentials,
        },
        Err(err) => {
            let e = ResponseError { error_code: err.error_code, error_message: err.error_message };
            ListApiClientCredentials {
                status: 400,
                message: known_reason(400),
                limit,
                offset,
                total_count: 0,
                errors: single_error(e),
                data: Vec::new(),
            }
        },
    }
}

/// The answer of every permission endpoint: 200, nothing in it.
pub fn api_client_permission_response() -> (r: ApiClientPermissionResponse)
    ensures
        r.status == 200,
        r.message@ == reason_of(200),
        r.limit == 0,
        r.offset == 0,
        r.errors.len() == 0,
        r.data.len() == 0,
{
    ApiClientPermissionResponse { status: 200, message: known_reason(200), limit: 0, offset: 0, errors: Vec::new(), data: Vec::new() }
}

/// The product category made of a database row.
pub fn product_category_from_record(rec: &RecordProductCategory) -> (p: ProductCategory)
    ensures
        is_product_category_of(p, *rec),
        p.id@ == uuid_text(rec.id),
        p.company_id@ == uuid_text(rec.company_id),
        p.name@ == rec.name@,
        p.description@ == rec.description@,
        p.parent_category_id@.len() == 0,
        p.created_at@ == rec.created_at.text(),
        p.modified_at@ == rec.modified_at.text(),
        p.is_active == rec.is_active,
{
    ProductCategory {
        id: uuid_to_text(rec.id),
        company_id: uuid_to_text(rec.company_id),
        name: rec.name.clone(),
        description: rec.description.clone(),
        parent_category_id: String::new(),
        created_at: rec.created_at.to_text(),
        modified_at: rec.modified_at.to_text(),
        is_active: rec.is_active,
    }
}

/// An answer of the category listing: always status 200, with the page
/// fields 0.
pub open spec fn is_categories_answer(r: ProductCategoriesResponse) -> bool {
    &&& r.status == 200
    &&& r.message@ == reason_of(200)
    &&& r.limit == 0
    &&& r.offset == 0
    &&& r.total_count == 0
}

/// The first step of listing the product categories of a company: the
/// company id, or the answer (still status 200) carrying a 400 error when
/// the path id is not a UUID.
pub fn get_product_categories_start(company_id: &str) -> (r: Result<u128, ProductCategoriesResponse>)
    ensures
        match uuid_parse(company_id@) {
            Ok(v) => r matches Ok(w) && w == v,
            Err(m) => r matches Err(resp) && is_categories_answer(resp)
                && is_single_error(resp.errors@, "400"@, m) && resp.data.len() == 0,
        },
{
    match parse_uuid(company_id) {
        Ok(v) => Ok(v),
        Err(m) => {
            let e = ResponseError { error_code: String::from_str("400"), error_message: m };
            Err(ProductCategoriesResponse {
                status: 200,
                message: known_reason(200),
                limit: 0,
                offset: 0,
                total_count: 0,
                errors: single_error(e),
                data: Vec::new(),
            })
        },
    }
}

/// The answer once the active categories have been read: every category,
/// in order, or the service error with its code in decimal; the status is
/// 200 either way.
pub fn get_product_categories_finish(result: Result<Vec<RecordProductCategory>, ProductServiceError>) -> (r: ProductCategoriesResponse)
    ensures
        is_categories_answer(r),
        match result {
            Ok(cats) => r.errors.len() == 0 && r.data.len() == cats.len()
                && forall|i: int| 0 <= i < cats.len() ==> is_product_category_of(#[trigger] r.data[i], cats[i]),
            Err(e) => is_single_error(r.errors@, int_text(e.error_code as int), e.error_message@)
                && r.data.len() == 0,
        },
{
    let mut errors: Vec<ResponseError> = Vec::new();
    let mut data: Vec<ProductCategory> = Vec::new();
    match result {
        Ok(categories) => {
            let mut i: usize = 0;
            while i < categories.len()
                invariant
                    i <= categories.len(),
                    data.len() == i,
                    forall|j: int| 0 <= j < i ==> is_product_category_of(#[trigger] data[j], categories[j]),
                decreases categories.len() - i,
            {
                let p = product_category_from_record(&categories[i]);
                data.push(p);
                i = i + 1;
            }
        },
        Err(err) => {
            let code = i64_text(err.error_code as i64);
            errors.push(ResponseError { error_code: code, error_message: err.error_message });
        },
    }
    ProductCategoriesResponse { status: 200, message: known_reason(200), limit: 0, offset: 0, total_count: 0, errors, data }
}


// ---------------------------------------------------------------- laws

/// The error codes the credential services report ("400", "404", "500")
/// are known HTTP statuses, so `create_api_credential_response` can answer
/// with them: its requirement holds for every error of
/// `credential_lookup_outcome`, `delete_credential_outcome` and
/// `create_credential_next`.
pub proof fn lemma_credential_error_codes_are_statuses(e: ApiClientCredentialError)
    requires
        e.error_code@ == "400"@ || e.error_code@ == "404"@ || e.error_code@ == "500"@,
    ensures
        parse_u16_spec(e.error_code@) matches Some(c) && is_known_status(c),
        e.error_code@ == "400"@ ==> parse_u16_spec(e.error_code@) == Some(400u16),
        e.error_code@ == "404"@ ==> parse_u16_spec(e.error_code@) == Some(404u16),
        e.error_code@ == "500"@ ==> parse_u16_spec(e.error_code@) == Some(500u16),
{
    reveal_strlit("400");
    reveal_strlit("404");
    reveal_strlit("500");
    assert("400"@ =~= seq!['4', '0', '0']);
    assert("404"@ =~= seq!['4', '0', '4']);
    assert("500"@ =~= seq!['5', '0', '0']);
    lemma_parse_three_digits('4', '0', '0');
    lemma_parse_three_digits('4', '0', '4');
    lemma_parse_three_digits('5', '0', '0');
}

// ---------------------------------------------------------------- catchers

/// The 404 catcher. It reports error code 400 with the uri.
pub fn not_found(uri: &str) -> (r: CatchResponse)
    ensures
        is_catch_response(r, 404, 404, "400"@, "resource not found. uri: "@ + uri@),
{
    let msg = message_with_uri("resource not found. uri: ", uri);
    catch_response(404, 404, ResponseError { error_code: String::from_str("400"), error_message: msg })
}

/// The 500 catcher; the uri is only logged.
pub fn internal_server_error(uri: &str) -> (r: CatchResponse)
    ensures
        is_catch_response(r, 500, 500, "500"@, "internal server error."@),
{
    catch_response(500, 500, response_error("500", "internal server error."))
}

/// The 401 catcher; the uri is only logged.
pub fn unauthorized(uri: &str) -> (r: CatchResponse)
    ensures
        is_catch_response(r, 401, 401, "401"@, "unauthorized"@),
{
    catch_response(401, 401, response_error("401", "unauthorized"))
}

/// The 400 catcher. It reports error code 404 with the uri.
pub fn bad_request(uri: &str) -> (r: CatchResponse)
    ensures
        is_catch_response(r, 400, 400, "404"@, "bad request not found. uri: "@ + uri@),
{
    let msg = message_with_uri("bad request not found. uri: ", uri);
    catch_response(400, 400, ResponseError { error_code: String::from_str("404"), error_message: msg })
}

/// The 422 catcher. Its body carries status 400 under the 422 phrase.
pub fn unprocessable_entity(uri: &str) -> (r: CatchResponse)
    ensures
        is_catch_response(r, 400, 422, "422"@, "Unprocessable Entity. uri: "@ + uri@),
{
    let msg = message_with_uri("Unprocessable Entity. uri: ", uri);
    catch_response(400, 422, ResponseError { error_code: String::from_str("422"), error_message: msg })
}

/// Every product category of a listing carries as `created_at` the text of
/// its row's creation time and as `modified_at` that of its row's last
/// modification, and keeps the row's ids, name, description and state.
pub proof fn lemma_listed_categories_keep_their_times(cats: Seq<RecordProductCategory>, data: Seq<ProductCategory>)
    requires
        data.len() == cats.len(),
        forall|i: int| 0 <= i < cats.len() ==> is_product_category_of(#[trigger] data[i], cats[i]),
    ensures
        forall|i: int| #![trigger data[i]] 0 <= i < cats.len() ==> {
            &&& data[i].created_at@ == cats[i].created_at.text()
            &&& data[i].modified_at@ == cats[i].modified_at.text()
            &&& data[i].id@ == uuid_text(cats[i].id)
            &&& data[i].company_id@ == uuid_text(cats[i].company_id)
            &&& data[i].name@ == cats[i].name@
            &&& data[i].description@ == cats[i].description@
            &&& data[i].is_active == cats[i].is_active
        },
{
}

} // verus!
