use eneo::api_client_service_impl::{
    credential_lookup_outcome, encrypt_client_secret, RecordApiClientCredential, ApiClientCredential, ApiClientCredentialError, IsClientValidError,
};
use eneo::auth::{after_allowed, after_decode, check_credential_present, AuthFailure, AuthStep};
use eneo::handlers::{
    api_client_permission_response, authentication_token_response, bad_request,
    create_api_credential_response, delete_api_client_credential_finish,
    delete_api_client_credential_start, get_api_client_credentials_page,
    get_api_client_credentials_response, get_product_categories_finish,
    get_product_categories_start, index, internal_server_error, not_found, unauthorized,
    unprocessable_entity, FilterOptions,
};
use eneo::categories_service_impl::{ProductServiceError, RecordProductCategory};
use eneo::jwt_service_impl::{is_valid, token, token_response, Claims, JWTErrorResponse, TOKEN_ALGORITHM, TOKEN_LIFETIME_SECS};
use eneo::db::DbOutcome;
use eneo::timestamp::Timestamp;

fn credential(secret: &str) -> ApiClientCredential {
    ApiClientCredential {
        id: "id".to_string(),
        client_id: "client".to_string(),
        client_secret: secret.to_string(),
        is_active: true,
        created_on: String::new(),
        updated_on: String::new(),
    }
}

fn err(code: &str, msg: &str) -> ApiClientCredentialError {
    ApiClientCredentialError { error_code: code.to_string(), error_message: msg.to_string() }
}

#[test]
fn index_page() {
    let r = index();
    assert_eq!(r.message, "Welcome to Project Eneo Restful API Service");
    assert_eq!(r.version, "0.1.1a");
    assert_eq!(r.documentation_url, "");
}

#[test]
fn catchers() {
    let r = not_found("/nowhere");
    assert_eq!((r.status, r.message.as_str()), (404, "Not Found"));
    assert_eq!(r.errors.len(), 1);
    assert_eq!(r.errors[0].error_code, "400");
    assert_eq!(r.errors[0].error_message, "resource not found. uri: /nowhere");
    assert!(r.data.is_empty());

    let r = internal_server_error("/x");
    assert_eq!((r.status, r.message.as_str()), (500, "Internal Server Error"));
    assert_eq!(r.errors[0].error_message, "internal server error.");

    let r = unauthorized("/x");
    assert_eq!((r.status, r.message.as_str()), (401, "Unauthorized"));
    assert_eq!((r.errors[0].error_code.as_str(), r.errors[0].error_message.as_str()), ("401", "unauthorized"));

    let r = bad_request("/b");
    assert_eq!((r.status, r.message.as_str()), (400, "Bad Request"));
    assert_eq!((r.errors[0].error_code.as_str(), r.errors[0].error_message.as_str()), ("404", "bad request not found. uri: /b"));

    let r = unprocessable_entity("/u");
    assert_eq!((r.status, r.message.as_str()), (400, "Unprocessable Entity"));
    assert_eq!((r.errors[0].error_code.as_str(), r.errors[0].error_message.as_str()), ("422", "Unprocessable Entity. uri: /u"));
}

#[test]
fn token_claims_last_sixty_minutes() {
    let claims = token(&"client".to_string(), &"https://eneo.test".to_string(), &"client_credentials".to_string(), true, 1_700_000_000).ok().unwrap();
    assert_eq!(claims.sub, "client");
    assert_eq!(claims.aud, "https://eneo.test");
    assert_eq!(claims.iss, "https://eneo.test");
    assert_eq!(claims.nbf, 1_700_000_000);
    assert_eq!(claims.iat, 1_700_000_000);
    assert_eq!(claims.exp, 1_700_003_600);
    assert_eq!(TOKEN_LIFETIME_SECS, 3600);
    let resp = token_response("signed".to_string(), &claims);
    assert_eq!(resp.access_token, "signed");
    assert_eq!(resp.token_type, "bearer");
    assert_eq!(resp.expires_in, (1_700_003_600usize % 65536) as u16);
    assert!(resp.refresh_token.is_empty() && resp.scope.is_empty() && resp.state.is_empty());
}

#[test]
fn invalid_credentials_get_no_token() {
    let e = token(&"c".to_string(), &"u".to_string(), &"client_credentials".to_string(), false, 0).err().unwrap();
    assert_eq!((e.error_code.as_str(), e.error_message.as_str()), ("400", "invalid client id or client secret"));
}

#[test]
fn credential_validity() {
    let secret = "right".to_string();
    let stored = encrypt_client_secret(&secret).ok().unwrap().encrypted_secret;
    assert!(is_valid(&secret, Ok(credential(&stored))));
    assert!(!is_valid(&"wrong".to_string(), Ok(credential(&stored))));
    assert!(!is_valid(&secret, Ok(credential("garbage"))));
    assert!(!is_valid(&secret, Err(err("400", "inactive client id"))));
}

fn claims(exp: usize) -> Claims {
    Claims {
        aud: "a".to_string(),
        exp,
        iat: 0,
        iss: "a".to_string(),
        nbf: 0,
        sub: "client-x".to_string(),
    }
}

#[test]
fn authentication_steps() {
    assert!(matches!(check_credential_present(""), Err(AuthFailure::HeaderMissing)));
    assert!(check_credential_present("abc").is_ok());
    assert!(matches!(after_decode(Err("bad".to_string()), 0, 0), AuthStep::Reject(AuthFailure::Unauthorized)));
    match after_decode(Ok(claims(100)), 100, 0) {
        AuthStep::CheckAllowed(s) => assert_eq!(s, "client-x"),
        AuthStep::Reject(_) => panic!("token still valid at its expiry second"),
    }
    assert!(matches!(after_decode(Ok(claims(100)), 100, 1), AuthStep::Reject(AuthFailure::Forbidden)));
    assert!(matches!(after_decode(Ok(claims(100)), 101, 0), AuthStep::Reject(AuthFailure::Forbidden)));
    let a = after_allowed(Ok(true), "client-x".to_string()).ok().unwrap();
    assert_eq!(a.subject, "client-x");
    assert!(matches!(after_allowed(Ok(false), "c".to_string()), Err(AuthFailure::Forbidden)));
    let e = IsClientValidError { error_code: "500".to_string(), error_message: "m".to_string() };
    assert!(matches!(after_allowed(Err(e), "c".to_string()), Err(AuthFailure::Unauthorized)));
}

#[test]
fn issued_token_passes_until_expiry() {
    let issued: i64 = 1_700_000_000;
    let c = token(&"client-x".to_string(), &"u".to_string(), &"client_credentials".to_string(), true, issued).ok().unwrap();
    assert!(matches!(after_decode(Ok(c), issued + 3600, 0), AuthStep::CheckAllowed(_)));
    let c = token(&"client-x".to_string(), &"u".to_string(), &"client_credentials".to_string(), true, issued).ok().unwrap();
    assert!(matches!(after_decode(Ok(c), issued + 3600, 5), AuthStep::Reject(AuthFailure::Forbidden)));
}

#[test]
fn token_endpoint_answers() {
    let ok = token_response("t".to_string(), &claims(5));
    let r = authentication_token_response(Ok(ok));
    assert_eq!((r.status, r.message.as_str()), (200, "OK"));
    assert!(r.errors.is_empty());
    assert_eq!(r.data.access_token, "t");
    let e = JWTErrorResponse { error_code: "400".to_string(), error_message: "no".to_string() };
    let r = authentication_token_response(Err(e));
    assert_eq!((r.status, r.message.as_str()), (400, "Bad Request"));
    assert_eq!(r.errors[0].error_message, "no");
    assert_eq!(r.data.access_token, "");
    assert_eq!(r.data.expires_in, 0);
}

#[test]
fn create_endpoint_answers_with_the_error_code() {
    let r = create_api_credential_response(Ok(credential("h")));
    assert_eq!((r.status, r.message.as_str(), r.data.len()), (200, "OK", 1));
    let r = create_api_credential_response(Err(err("500", "boom")));
    assert_eq!((r.status, r.message.as_str()), (500, "Internal Server Error"));
    assert_eq!(r.errors[0].error_message, "boom");
    assert!(r.data.is_empty());
    let r = create_api_credential_response(Err(err("404", "gone")));
    assert_eq!(r.status, 404);
    let r = create_api_credential_response(Err(err("400", "inactive client id")));
    assert_eq!((r.status, r.message.as_str()), (400, "Bad Request"));
}

#[test]
fn delete_endpoint() {
    let id = delete_api_client_credential_start("550e8400-e29b-41d4-a716-446655440000").ok().unwrap();
    assert_eq!(id, 0x550e8400e29b41d4a716446655440000);
    let r = delete_api_client_credential_start("zz").err().unwrap();
    assert_eq!((r.status, r.message.as_str()), (400, "Bad Request"));
    assert_eq!(r.errors[0].error_code, "400");
    let r = delete_api_client_credential_finish(Ok(credential("h")));
    assert_eq!((r.status, r.errors.len(), r.data.len()), (200, 0, 0));
    let r = delete_api_client_credential_finish(Err(err("404", "invalid api client credentials")));
    assert_eq!((r.status, r.errors[0].error_code.as_str()), (400, "404"));
}

#[test]
fn listing_endpoint() {
    let f = FilterOptions { search: String::new(), offset: Some(3), limit: Some(7) };
    assert_eq!(get_api_client_credentials_page(&f), (3, 7));
    let f = FilterOptions { search: String::new(), offset: Some(3_000_000_000), limit: Some(7) };
    assert_eq!(get_api_client_credentials_page(&f).0, 3_000_000_000usize as i32);
    let r = get_api_client_credentials_response(3, 7, Ok(vec![credential("a"), credential("b")]));
    assert_eq!((r.status, r.offset, r.limit, r.total_count, r.data.len()), (200, 3, 7, 0, 2));
    let r = get_api_client_credentials_response(0, 1, Err(err("500", "db")));
    assert_eq!((r.status, r.message.as_str(), r.errors.len(), r.data.len()), (400, "Bad Request", 1, 0));
}

#[test]
fn permission_endpoints() {
    let r = api_client_permission_response();
    assert_eq!((r.status, r.message.as_str(), r.limit, r.offset), (200, "OK", 0, 0));
    assert!(r.errors.is_empty() && r.data.is_empty());
}

#[test]
fn categories_endpoint() {
    let id = get_product_categories_start("550e8400-e29b-41d4-a716-446655440000").ok().unwrap();
    assert_eq!(id, 0x550e8400e29b41d4a716446655440000);
    let r = get_product_categories_start("bad").err().unwrap();
    assert_eq!((r.status, r.errors[0].error_code.as_str()), (200, "400"));
    let rec = RecordProductCategory {
        id: 1,
        company_id: 2,
        name: "Tools".to_string(),
        description: "d".to_string(),
        parent_category_id: Some(3),
        created_at: Timestamp::from_unix(0, 0).unwrap(),
        modified_at: Timestamp::from_unix(60, 0).unwrap(),
        is_active: true,
    };
    let r = get_product_categories_finish(Ok(vec![rec]));
    assert_eq!((r.status, r.data.len()), (200, 1));
    assert_eq!(r.data[0].id, "00000000-0000-0000-0000-000000000001");
    assert_eq!(r.data[0].company_id, "00000000-0000-0000-0000-000000000002");
    assert_eq!(r.data[0].parent_category_id, "");
    assert_eq!(r.data[0].modified_at, "1970-01-01 00:01:00");
    let r = get_product_categories_finish(Err(ProductServiceError { error_code: 500, error_message: "down".to_string() }));
    assert_eq!((r.status, r.errors[0].error_code.as_str(), r.errors[0].error_message.as_str()), (200, "500", "down"));
}

#[test]
fn only_active_clients_with_matching_secrets_pass() {
    let secret = "right".to_string();
    let stored = encrypt_client_secret(&secret).ok().unwrap().encrypted_secret;
    let row = |active: bool| RecordApiClientCredential {
        id: 7,
        client_id: "client".to_string(),
        client_secret: stored.clone(),
        is_active: active,
        created_on: Timestamp::from_unix(0, 0).unwrap(),
        updated_on: Timestamp::from_unix(0, 0).unwrap(),
    };
    assert!(is_valid(&secret, credential_lookup_outcome(DbOutcome::Completed(row(true)))));
    assert!(!is_valid(&secret, credential_lookup_outcome(DbOutcome::Completed(row(false)))));
    assert!(!is_valid(&"wrong".to_string(), credential_lookup_outcome(DbOutcome::Completed(row(true)))));
    assert!(!is_valid(&secret, credential_lookup_outcome(DbOutcome::QueryFailed("none".to_string()))));
}

#[test]
fn grant_type_does_not_change_the_token() {
    let a = token(&"client".to_string(), &"u".to_string(), &"client_credentials".to_string(), true, 1_700_000_000).ok().unwrap();
    let b = token(&"client".to_string(), &"u".to_string(), &"bogus".to_string(), true, 1_700_000_000).ok().unwrap();
    assert_eq!((a.aud, a.exp, a.iat, a.iss, a.nbf, a.sub), (b.aud, b.exp, b.iat, b.iss, b.nbf, b.sub));
    let a = token(&"c".to_string(), &"u".to_string(), &"client_credentials".to_string(), false, 0).err().unwrap();
    let b = token(&"c".to_string(), &"u".to_string(), &"".to_string(), false, 0).err().unwrap();
    assert_eq!((a.error_code, a.error_message), (b.error_code, b.error_message));
    assert_eq!(TOKEN_ALGORITHM, "HS512");
}
