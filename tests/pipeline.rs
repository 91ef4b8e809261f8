use llm_gateway::config::{Config, MissingSetting};
use llm_gateway::middleware::{
    authorize, completion_log_level, is_success_status, LogLevel, STATUS_UNAUTHORIZED,
};

#[test]
fn matching_key_is_accepted() {
    assert_eq!(authorize(Some("s3cret"), "s3cret"), Ok(()));
}

#[test]
fn key_check_is_case_sensitive_and_exact() {
    assert_eq!(authorize(Some("S3CRET"), "s3cret"), Err(401));
    assert_eq!(authorize(Some("s3cre"), "s3cret"), Err(401));
    assert_eq!(authorize(Some("s3cret "), "s3cret"), Err(401));
    assert_eq!(authorize(Some(""), "s3cret"), Err(401));
}

#[test]
fn missing_key_is_rejected() {
    assert_eq!(authorize(None, "s3cret"), Err(STATUS_UNAUTHORIZED));
    assert_eq!(STATUS_UNAUTHORIZED, 401);
}

#[test]
fn interleaved_requests_get_their_own_answer() {
    let headers = [Some("k"), Some("bad"), None, Some("k"), Some("K"), Some("k")];
    let answers: Vec<bool> = headers.iter().map(|h| authorize(*h, "k").is_ok()).collect();
    assert_eq!(answers, vec![true, false, false, true, false, true]);
}

#[test]
fn success_range_is_two_hundreds() {
    assert!(is_success_status(200));
    assert!(is_success_status(204));
    assert!(is_success_status(299));
    assert!(!is_success_status(199));
    assert!(!is_success_status(300));
    assert!(!is_success_status(401));
    assert!(!is_success_status(500));
}

#[test]
fn failed_requests_log_as_errors() {
    assert_eq!(completion_log_level(200), LogLevel::Info);
    assert_eq!(completion_log_level(401), LogLevel::Error);
    assert_eq!(completion_log_level(500), LogLevel::Error);
}

#[test]
fn config_defaults() {
    let c = Config::from_vars(Some("ok".to_string()), None, None, None, Some("gw".to_string()))
        .expect("both keys given");
    assert_eq!(c.openai_api_key, "ok");
    assert_eq!(c.qdrant_url, "http://localhost:6333");
    assert_eq!(c.qdrant_api_key, None);
    assert_eq!(c.collection_name, "documents");
    assert_eq!(c.api_key, "gw");
}

#[test]
fn config_takes_given_values() {
    let c = Config::from_vars(
        Some("ok".to_string()),
        Some("http://store:6334".to_string()),
        Some("qk".to_string()),
        Some("notes".to_string()),
        Some("gw".to_string()),
    )
    .expect("both keys given");
    assert_eq!(c.qdrant_url, "http://store:6334");
    assert_eq!(c.qdrant_api_key, Some("qk".to_string()));
    assert_eq!(c.collection_name, "notes");
}

#[test]
fn config_needs_provider_key_first() {
    let e = Config::from_vars(None, None, None, None, None).unwrap_err();
    assert_eq!(e, MissingSetting { name: "OPENAI_API_KEY".to_string() });
}

#[test]
fn config_needs_gateway_key() {
    let e = Config::from_vars(Some("ok".to_string()), None, None, None, None).unwrap_err();
    assert_eq!(e.name, "API_KEY");
}
