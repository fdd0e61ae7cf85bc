use gitk_rs::errors::{ErrorSeverity, GitError, InputValidator};

#[test]
fn test_input_validation() {
    assert!(InputValidator::validate_commit_id("abc123").is_ok());
    assert!(InputValidator::validate_commit_id("xyz").is_err());
    assert!(InputValidator::validate_commit_id("").is_err());
    assert!(InputValidator::validate_ref_name("feature/branch").is_ok());
    assert!(InputValidator::validate_ref_name("../evil").is_err());
    assert!(InputValidator::validate_search_query("normal search").is_ok());
    assert!(InputValidator::validate_search_query(&"a".repeat(2000)).is_err());
    assert!(InputValidator::validate_file_path("src/main.rs").is_ok());
    assert!(InputValidator::validate_file_path("../../../etc/passwd").is_err());
}

#[test]
fn test_error_properties() {
    let security_error = GitError::security("test violation");
    assert!(!security_error.is_recoverable());
    assert_eq!(security_error.severity(), ErrorSeverity::Critical);
    let timeout_error = GitError::timeout("test operation", 5000);
    assert!(timeout_error.is_recoverable());
    assert_eq!(timeout_error.severity(), ErrorSeverity::Low);
}
