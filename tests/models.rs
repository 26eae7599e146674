use smartlab::models::{
    computer_status_or_default, credentials_error, extract_token_from_header, registration_error,
    valid_role, ApiResponse, RegisterRequest,
};

#[test]
fn bearer_token_extraction() {
    assert_eq!(extract_token_from_header(Some("Bearer abc.def")), Some("abc.def".to_string()));
    assert_eq!(extract_token_from_header(Some("Bearer ")), Some(String::new()));
    assert_eq!(extract_token_from_header(Some("bearer abc")), None);
    assert_eq!(extract_token_from_header(Some("Token abc")), None);
    assert_eq!(extract_token_from_header(Some("Bear")), None);
    assert_eq!(extract_token_from_header(None), None);
}

#[test]
fn api_response_envelopes() {
    let ok = ApiResponse::ok(5u32);
    assert!(ok.success);
    assert_eq!(ok.data, Some(5));
    assert!(ok.error.is_none());
    let err: ApiResponse<u32> = ApiResponse::err("User not found");
    assert!(!err.success);
    assert!(err.data.is_none());
    assert_eq!(err.error.as_deref(), Some("User not found"));
}

#[test]
fn registration_checks() {
    assert_eq!(credentials_error("ab", "secret1").as_deref(), Some("Username must be at least 3 characters"));
    assert_eq!(credentials_error("abc", "12345").as_deref(), Some("Password must be at least 6 characters"));
    assert_eq!(credentials_error("abc", "123456"), None);
    let req = RegisterRequest { username: "alice".into(), password: "secret12".into(), role: "Janitor".into() };
    assert_eq!(
        registration_error(&req).as_deref(),
        Some("Invalid role. Must be Student, Teacher, or Administrator")
    );
    let req = RegisterRequest { username: "alice".into(), password: "secret12".into(), role: "Teacher".into() };
    assert_eq!(registration_error(&req), None);
    assert!(valid_role("Administrator"));
    assert!(!valid_role("student"));
}

#[test]
fn computer_status_default() {
    assert_eq!(computer_status_or_default(&None), "Active");
    assert_eq!(computer_status_or_default(&Some("Broken".to_string())), "Broken");
}
