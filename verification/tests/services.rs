use eneo::api_client_service_impl::{
    api_client_credentials_outcome, create_credential_next, create_credential_next_checked,
    create_credential_statement, credential_from_row, credential_lookup_outcome,
    delete_credential_outcome, delete_credential_statement, encrypt_client_secret,
    generate_and_encrypt_client_secret, generate_client_secret, get_api_client_credentials_statement,
    get_by_id_statement, get_credential_statement, is_allowed_outcome, is_allowed_statement,
    verify_client_secret, CreateCredentialStep, RecordApiClientCredential,
    RecordCreateApiClientCredential, RecordIsClientValid, ARGON2_HASH_B64_LEN, ARGON2_PHC_PREFIX,
    ARGON2_SALT_B64_LEN,
};
use eneo::categories_service_impl::{
    get_categories_by_company_id_outcome, get_categories_by_company_id_statement,
};
use eneo::company_service_impl::{
    create_outcome, get_by_id_outcome, get_by_id_statement as company_by_id_statement,
    get_companies_by_filters_outcome, get_companies_by_filters_statement, prepare_company_insert,
    RecordCompany, COMPANY_INSERT,
};
use eneo::db::DbOutcome;
use eneo::geofencing_services_impl::{
    within_fence_member_id, within_fence_outcome, WithinFenceRequestFilter,
};
use eneo::geospatial_computations::{cross_product_for_point_orientation, ray_casting_algorithm};
use eneo::timestamp::Timestamp;

const ID: u128 = 0x550e8400e29b41d4a716446655440000;
const ID_TEXT: &str = "550e8400-e29b-41d4-a716-446655440000";

fn row(active: bool) -> RecordApiClientCredential {
    RecordApiClientCredential {
        id: ID,
        client_id: "client-a".to_string(),
        client_secret: "$argon2id$stored".to_string(),
        is_active: active,
        created_on: Timestamp::from_unix(0, 0).unwrap(),
        updated_on: Timestamp::from_unix(86_400, 0).unwrap(),
    }
}

#[test]
fn credential_statements() {
    assert_eq!(
        create_credential_statement("abc", "h", true),
        "SELECT * FROM create_api_client_credentials('abc', 'h', true) AS _id;"
    );
    assert_eq!(
        get_credential_statement("abc"),
        "SELECT acc.id, acc.client_id, acc.client_secret, acc.is_active, acc.created_on, acc.updated_on FROM api_client_credentials AS acc WHERE acc.client_id LIKE '%abc%'"
    );
    assert_eq!(
        get_by_id_statement(ID),
        format!("SELECT acc.id, acc.client_id, acc.client_secret, acc.is_active, acc.created_on, acc.updated_on FROM api_client_credentials AS acc WHERE acc.id = '{}'", ID_TEXT)
    );
    assert_eq!(
        delete_credential_statement(ID),
        format!("DELETE FROM api_client_credentials WHERE id='{}'", ID_TEXT)
    );
    assert_eq!(
        get_api_client_credentials_statement("", 5, 10),
        "SELECT acc.id, acc.client_id, acc.client_secret, acc.is_active, acc.created_on, acc.updated_on FROM api_client_credentials AS acc LIMIT 10 OFFSET 5"
    );
    assert_eq!(
        get_api_client_credentials_statement("ab", -1, 0),
        "SELECT acc.id, acc.client_id, acc.client_secret, acc.is_active, acc.created_on, acc.updated_on FROM api_client_credentials AS acc WHERE acc.client_id LIKE '%ab%' LIMIT 0 OFFSET -1"
    );
    assert_eq!(is_allowed_statement("c1"), "SELECT is_client_allowed('c1') AS is_allowed;");
}

#[test]
fn lookup_hands_out_active_credentials_only() {
    let c = credential_lookup_outcome(DbOutcome::Completed(row(true))).ok().unwrap();
    assert_eq!(c.id, ID_TEXT);
    assert_eq!(c.client_id, "client-a");
    assert_eq!(c.client_secret, "$argon2id$stored");
    assert!(c.is_active);
    assert_eq!(c.created_on, "1970-01-01 00:00:00");
    assert_eq!(c.updated_on, "1970-01-02 00:00:00");

    let e = credential_lookup_outcome(DbOutcome::Completed(row(false))).err().unwrap();
    assert_eq!((e.error_code.as_str(), e.error_message.as_str()), ("400", "inactive client id"));
    let e = credential_lookup_outcome(DbOutcome::QueryFailed("no rows".to_string())).err().unwrap();
    assert_eq!((e.error_code.as_str(), e.error_message.as_str()), ("400", "no rows"));
    let e = credential_lookup_outcome(DbOutcome::ConnectionFailed("down".to_string())).err().unwrap();
    assert_eq!((e.error_code.as_str(), e.error_message.as_str()), ("500", "down"));
}

#[test]
fn delete_outcomes() {
    let c = delete_credential_outcome(ID, DbOutcome::Completed(1)).ok().unwrap();
    assert_eq!(c.id, ID_TEXT);
    assert!(c.client_id.is_empty() && c.client_secret.is_empty() && !c.is_active);
    let e = delete_credential_outcome(ID, DbOutcome::Completed(0)).err().unwrap();
    assert_eq!((e.error_code.as_str(), e.error_message.as_str()), ("404", "invalid api client credentials"));
    let e = delete_credential_outcome(ID, DbOutcome::QueryFailed("x".to_string())).err().unwrap();
    assert_eq!(e.error_code, "500");
}

#[test]
fn listing_keeps_every_row_in_order() {
    let mut second = row(false);
    second.client_id = "client-b".to_string();
    let v = api_client_credentials_outcome(DbOutcome::Completed(vec![row(true), second])).ok().unwrap();
    assert_eq!(v.len(), 2);
    assert_eq!(v[0].client_id, "client-a");
    assert_eq!(v[1].client_id, "client-b");
    assert!(!v[1].is_active);
    let e = api_client_credentials_outcome(DbOutcome::ConnectionFailed("down".to_string())).err().unwrap();
    assert_eq!(e.error_code, "500");
    assert_eq!(credential_from_row(&row(true)).id, ID_TEXT);
}

#[test]
fn allowance_outcomes() {
    assert_eq!(is_allowed_outcome(DbOutcome::Completed(RecordIsClientValid { is_allowed: true })).ok(), Some(true));
    assert_eq!(is_allowed_outcome(DbOutcome::Completed(RecordIsClientValid { is_allowed: false })).ok(), Some(false));
    let e = is_allowed_outcome(DbOutcome::QueryFailed("q".to_string())).err().unwrap();
    assert_eq!((e.error_code.as_str(), e.error_message.as_str()), ("500", "q"));
}

#[test]
fn create_steps() {
    let rec = RecordCreateApiClientCredential { _id: ID_TEXT.to_string() };
    match create_credential_next(DbOutcome::Completed(rec)) {
        CreateCredentialStep::FetchSaved(id) => assert_eq!(id, ID),
        CreateCredentialStep::Failed(_) => panic!("expected the saved id"),
    }
    match create_credential_next(DbOutcome::QueryFailed("dup".to_string())) {
        CreateCredentialStep::Failed(e) => assert_eq!((e.error_code.as_str(), e.error_message.as_str()), ("500", "dup")),
        CreateCredentialStep::FetchSaved(_) => panic!("expected a failure"),
    }
    let bad = RecordCreateApiClientCredential { _id: "nope".to_string() };
    assert!(create_credential_next_checked(DbOutcome::Completed(bad)).is_none());
    assert!(create_credential_next_checked(DbOutcome::ConnectionFailed("d".to_string())).is_some());
}

#[test]
fn generated_secrets_are_alphanumeric() {
    let s = generate_client_secret().ok().unwrap().client_secret;
    assert_eq!(s.len(), 32);
    assert!(s.chars().all(|c| c.is_ascii_alphanumeric()));
    let t = generate_client_secret().ok().unwrap().client_secret;
    assert_ne!(s, t);
}

#[test]
fn encrypted_secret_verifies() {
    let secret = "s3cr3t-value".to_string();
    let stored = encrypt_client_secret(&secret).ok().unwrap().encrypted_secret;
    assert!(stored.starts_with("$argon2id$"));
    assert_ne!(stored, secret);
    assert_eq!(verify_client_secret(&secret, &stored).ok(), Some(true));
    assert_eq!(verify_client_secret(&"other".to_string(), &stored).ok(), Some(false));
    assert!(verify_client_secret(&secret, &"not a phc string".to_string()).is_err());
    let generated = generate_and_encrypt_client_secret().ok().unwrap();
    assert!(generated.encrypted_secret.starts_with("$argon2id$"));
}

#[test]
fn categories() {
    assert_eq!(
        get_categories_by_company_id_statement(ID, true),
        format!("SELECT * FROM get_company_by_id_and_status('{}', true);", ID_TEXT)
    );
    let e = get_categories_by_company_id_outcome(DbOutcome::ConnectionFailed("c".to_string())).err().unwrap();
    assert_eq!((e.error_code, e.error_message.as_str()), (500, "c"));
    assert_eq!(get_categories_by_company_id_outcome(DbOutcome::Completed(vec![])).ok().unwrap().len(), 0);
}

fn company(max_products: i32) -> RecordCompany {
    RecordCompany {
        id: ID,
        name: "Acme".to_string(),
        email: "a@acme.test".to_string(),
        subscription_tier: "gold".to_string(),
        max_products,
        max_categories: 3,
        is_enabled: true,
        operates_in: 1,
        created_at: Timestamp::from_unix(0, 0).unwrap(),
        updated_at: Timestamp::from_unix(0, 0).unwrap(),
    }
}

#[test]
fn companies() {
    let dto = create_outcome(DbOutcome::Completed(company(10))).ok().unwrap();
    assert_eq!(dto.id, ID_TEXT);
    assert_eq!(dto.operates_in, "00000000-0000-0000-0000-000000000001");
    assert_eq!(dto.max_products, 10);
    let dto = get_by_id_outcome(DbOutcome::Completed(company(-1))).ok().unwrap();
    assert_eq!(dto.max_products, usize::MAX);
    assert_eq!(get_by_id_outcome(DbOutcome::QueryFailed("q".to_string())).err().unwrap().error_code, "400");
    assert_eq!(create_outcome(DbOutcome::QueryFailed("q".to_string())).err().unwrap().error_code, "500");
    let page = get_companies_by_filters_outcome(DbOutcome::Completed(vec![company(1), company(2)])).ok().unwrap();
    assert_eq!(page.total_count, 0);
    assert_eq!(page.data.len(), 2);
    assert_eq!(page.data[1].max_products, 2);
    assert!(company_by_id_statement(ID).ends_with(&format!("FROM company AS c WHERE c.id = '{}'", ID_TEXT)));
    assert!(get_companies_by_filters_statement(20, 10).ends_with("FROM company AS c OFFSET 20 LIMIT 10"));
    assert!(get_companies_by_filters_statement(0, 1).starts_with("SELECT c.id, \n                c.name,"));
    let insert = prepare_company_insert();
    assert_eq!(insert.statement, COMPANY_INSERT);
    assert_eq!((insert.id >> 76) & 0xf, 4);
}

#[test]
fn geofencing() {
    let q = WithinFenceRequestFilter { company_member_id: ID_TEXT.to_string() };
    assert_eq!(within_fence_member_id(&q).ok(), Some(ID));
    let q = WithinFenceRequestFilter { company_member_id: "x".to_string() };
    let e = within_fence_member_id(&q).err().unwrap();
    assert_eq!(e.error_code, "400");
    assert!(!e.error_message.is_empty());
    assert!(within_fence_outcome(Ok(())).is_ok());
    let e = within_fence_outcome(Err("gone".to_string())).err().unwrap();
    assert_eq!(e.error_message, "invalid company member id passed.");
}

#[test]
fn polygons_need_three_vertices() {
    assert!(ray_casting_algorithm((0, 0), vec![(0, 0), (1, 0), (0, 1)]).is_ok());
    let e = ray_casting_algorithm((0, 0), vec![(0, 0), (1, 0)]).err().unwrap();
    assert_eq!((e.code, e.field.as_str(), e.message.as_str()), (400, "polygon", "size of polygon less than three"));
    assert!(ray_casting_algorithm((0, 0), Vec::<(i32, i32)>::new()).is_err());
    assert!(cross_product_for_point_orientation((0, 0), vec![(1, 1)]).is_ok());
}

#[test]
fn stored_secrets_are_default_argon2id_phc_strings() {
    let stored = encrypt_client_secret(&"a-client-secret".to_string()).ok().unwrap().encrypted_secret;
    assert!(stored.starts_with(ARGON2_PHC_PREFIX));
    assert_eq!(ARGON2_PHC_PREFIX, "$argon2id$v=19$m=19456,t=2,p=1$");
    let rest = &stored[ARGON2_PHC_PREFIX.len()..];
    let parts: Vec<&str> = rest.split('$').collect();
    assert_eq!(parts.len(), 2);
    assert_eq!(parts[0].len(), ARGON2_SALT_B64_LEN);
    assert_eq!(parts[1].len(), ARGON2_HASH_B64_LEN);
    assert!(rest.chars().all(|c| c.is_ascii_alphanumeric() || c == '+' || c == '/' || c == '$'));
    let generated = generate_and_encrypt_client_secret().ok().unwrap().encrypted_secret;
    assert!(generated.starts_with(ARGON2_PHC_PREFIX));
    assert_eq!(generated.len(), stored.len());
}

#[test]
fn a_stored_string_that_does_not_parse_fails_for_every_secret() {
    let stored = "not-a-hash".to_string();
    let a = verify_client_secret(&"one".to_string(), &stored).err().unwrap();
    let b = verify_client_secret(&"another".to_string(), &stored).err().unwrap();
    assert_eq!(a.error_message, b.error_message);
    let good = encrypt_client_secret(&"s".to_string()).ok().unwrap().encrypted_secret;
    assert!(verify_client_secret(&"one".to_string(), &good).is_ok());
    assert!(verify_client_secret(&"another".to_string(), &good).is_ok());
}
