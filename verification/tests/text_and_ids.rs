use eneo::api_client_service_impl::delete_credential_statement;
use eneo::handlers::delete_api_client_credential_start;
use eneo::sign_up_service_impl::is_valid_msisdn;
use eneo::text::{bool_to_text, i64_text, parse_u16, u64_text};
use eneo::timestamp::Timestamp;

#[test]
fn msisdn_accepts_e164_numbers() {
    assert!(is_valid_msisdn("+1"));
    assert!(is_valid_msisdn("+254712345678"));
    assert!(is_valid_msisdn("+123456789012345"));
}

#[test]
fn msisdn_rejects_other_texts() {
    assert!(!is_valid_msisdn(""));
    assert!(!is_valid_msisdn("+"));
    assert!(!is_valid_msisdn("254712345678"));
    assert!(!is_valid_msisdn("+0712345678"));
    assert!(!is_valid_msisdn("+1234567890123456"));
    assert!(!is_valid_msisdn("+12a45"));
    assert!(!is_valid_msisdn("++12345"));
    assert!(!is_valid_msisdn("+1٣"));
}

#[test]
fn decimal_rendering() {
    assert_eq!(u64_text(0), "0");
    assert_eq!(u64_text(18446744073709551615), "18446744073709551615");
    assert_eq!(i64_text(-42), "-42");
    assert_eq!(i64_text(i64::MIN), "-9223372036854775808");
    assert_eq!(i64_text(i64::MAX), i64::MAX.to_string());
    assert_eq!(bool_to_text(true), "true");
    assert_eq!(bool_to_text(false), "false");
}

#[test]
fn u16_parsing_matches_std() {
    for s in ["0", "500", "+404", "65535", "65536", "", "+", "-1", "12a", "007", "99999999999"] {
        assert_eq!(parse_u16(s), s.parse::<u16>().ok(), "input {:?}", s);
    }
}

fn uuid_in(statement: &str) -> String {
    let start = statement.find("id='").unwrap() + 4;
    statement[start..statement.len() - 1].to_string()
}

#[test]
fn uuid_text_is_hyphenated_lower_case() {
    assert_eq!(
        uuid_in(&delete_credential_statement(0x550e8400e29b41d4a716446655440000)),
        "550e8400-e29b-41d4-a716-446655440000"
    );
    assert_eq!(uuid_in(&delete_credential_statement(0)), "00000000-0000-0000-0000-000000000000");
}

#[test]
fn uuid_text_parses_back() {
    let v: u128 = 0x67e5504410b1426f9247bb680e5fe0c8;
    let text = uuid_in(&delete_credential_statement(v));
    assert_eq!(delete_api_client_credential_start(&text).ok(), Some(v));
    assert_eq!(delete_api_client_credential_start("67E5504410B1426F9247BB680E5FE0C8").ok(), Some(v));
    assert_eq!(delete_api_client_credential_start("{67e55044-10b1-426f-9247-bb680e5fe0c8}").ok(), Some(v));
    assert!(delete_api_client_credential_start("not-a-uuid").is_err());
}

#[test]
fn timestamp_renders_like_chrono() {
    let t = Timestamp::from_unix(0, 0).unwrap();
    assert_eq!(t.to_text(), "1970-01-01 00:00:00");
    let t = Timestamp::from_unix(1_700_000_000, 500_000_000).unwrap();
    assert_eq!(t.to_text(), "2023-11-14 22:13:20.500");
    assert_eq!(t.secs(), 1_700_000_000);
    assert_eq!(t.nanos(), 500_000_000);
    assert!(Timestamp::from_unix(i64::MAX, 0).is_none());
}
