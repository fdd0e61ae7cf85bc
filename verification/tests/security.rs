use gitk_rs::errors::InputValidator;
use gitk_rs::security::{InputSanitizer, RateLimiter, SecurityValidator};

#[test]
fn test_security_validator() {
    let validator = SecurityValidator::new().unwrap();
    assert!(validator.validate_command("log").is_ok());
    assert!(validator.validate_command("rev-list").is_ok());
    assert!(validator.validate_command("push").is_err());
    assert!(validator.validate_command("commit").is_err());
    assert!(validator.validate_arguments(&["--upload-pack"]).is_err());
    assert!(validator.validate_arguments(&["../../../etc/passwd"]).is_err());
    assert!(validator.validate_arguments(&["|rm -rf /"]).is_err());
}

#[test]
fn test_input_sanitizer() {
    assert!(InputSanitizer::sanitize_commit_id("abc123").is_ok());
    assert!(InputSanitizer::sanitize_commit_id("xyz").is_err());
    assert!(InputSanitizer::sanitize_ref_name("feature/branch").is_ok());
    assert!(InputSanitizer::sanitize_ref_name("../../../etc/passwd").is_err());
    assert!(InputSanitizer::sanitize_ref_name("refs/heads/main").is_ok());
    assert!(InputSanitizer::sanitize_search_query("search term").is_ok());
    assert!(InputSanitizer::sanitize_search_query("").is_err());
    assert!(InputSanitizer::sanitize_search_query(&"x".repeat(2000)).is_err());
}

#[test]
fn test_input_validator() {
    assert!(InputValidator::validate_commit_id("a1b2c3d4e5f6789012345678901234567890abcd").is_ok());
    assert!(InputValidator::validate_commit_id("short").is_err());
    assert!(InputValidator::validate_commit_id("invalid_chars!").is_err());
    assert!(InputValidator::validate_commit_id("").is_err());
    assert!(InputValidator::validate_search_query("valid search").is_ok());
    assert!(InputValidator::validate_search_query("").is_err());
    assert!(InputValidator::validate_search_query(&"x".repeat(1500)).is_err());
    assert!(InputValidator::validate_ref_name("main").is_ok());
    assert!(InputValidator::validate_ref_name("feature/branch-name").is_ok());
    assert!(InputValidator::validate_ref_name("refs/heads/main").is_ok());
    assert!(InputValidator::validate_ref_name("").is_err());
    assert!(InputValidator::validate_ref_name("../invalid").is_err());
    assert!(InputValidator::validate_ref_name("branch with spaces").is_err());
}

#[test]
fn test_rate_limiter() {
    let mut limiter = RateLimiter::new(2, 1);
    assert!(limiter.check_rate_limit().is_ok());
    limiter.start_command();
    assert!(limiter.check_rate_limit().is_err());
    limiter.end_command();
    assert!(limiter.check_rate_limit().is_ok());
}

#[test]
fn test_sanitize_commit_message() {
    let normal_msg = "Add new feature\n\nThis adds a new feature to the application.";
    assert_eq!(InputSanitizer::sanitize_commit_message(normal_msg).unwrap(), normal_msg);
    let msg_with_controls = "Add feature\x00with\x01null\x02bytes";
    let sanitized = InputSanitizer::sanitize_commit_message(msg_with_controls).unwrap();
    assert!(!sanitized.contains('\x00'));
    assert!(!sanitized.contains('\x01'));
    assert!(!sanitized.contains('\x02'));
    let long_msg = "x".repeat(3000);
    let sanitized = InputSanitizer::sanitize_commit_message(&long_msg).unwrap();
    assert!(sanitized.len() <= 2048);
    let msg_with_whitespace = "First line\n\tSecond line with tab";
    let sanitized = InputSanitizer::sanitize_commit_message(msg_with_whitespace).unwrap();
    assert_eq!(sanitized, msg_with_whitespace);
}

#[test]
fn test_path_traversal_detection() {
    let validator = SecurityValidator::new().unwrap();
    assert!(validator.validate_arguments(&["file.txt"]).is_ok());
    assert!(validator.validate_arguments(&["src/main.rs"]).is_ok());
    assert!(validator.validate_arguments(&["docs/README.md"]).is_ok());
    assert!(validator.validate_arguments(&["../../../etc/passwd"]).is_err());
    assert!(validator.validate_arguments(&["..\\..\\windows\\system32"]).is_err());
    assert!(validator.validate_arguments(&["/etc/passwd"]).is_err());
    assert!(validator.validate_arguments(&["C:\\Windows\\System32"]).is_err());
}

#[test]
fn test_command_injection_prevention() {
    let validator = SecurityValidator::new().unwrap();
    assert!(validator.validate_arguments(&["; rm -rf /"]).is_err());
    assert!(validator.validate_arguments(&["| cat /etc/passwd"]).is_err());
    assert!(validator.validate_arguments(&["&& echo pwned"]).is_err());
    assert!(validator.validate_arguments(&["$(whoami)"]).is_err());
    assert!(validator.validate_arguments(&["`id`"]).is_err());
    assert!(validator.validate_arguments(&["--oneline"]).is_ok());
    assert!(validator.validate_arguments(&["HEAD~5"]).is_ok());
    assert!(validator.validate_arguments(&["feature/branch"]).is_ok());
}

#[test]
fn test_dangerous_git_options() {
    let validator = SecurityValidator::new().unwrap();
    assert!(validator.validate_arguments(&["--upload-pack=/bin/sh"]).is_err());
    assert!(validator.validate_arguments(&["--receive-pack=evil"]).is_err());
    assert!(validator.validate_arguments(&["--ext=sh -c 'rm -rf /'"]).is_err());
    assert!(validator.validate_arguments(&["--config=alias.test=!sh"]).is_err());
    assert!(validator.validate_arguments(&["--pretty=oneline"]).is_ok());
    assert!(validator.validate_arguments(&["--graph"]).is_ok());
    assert!(validator.validate_arguments(&["--decorate"]).is_ok());
}

#[test]
fn test_commit_id_validation_valid_full_sha() {
    assert!(InputValidator::validate_commit_id("a1b2c3d4e5f6789012345678901234567890abcd").is_ok());
}

#[test]
fn test_commit_id_validation_valid_short_sha() {
    assert!(InputValidator::validate_commit_id("a1b2c3d").is_ok());
}

#[test]
fn test_commit_id_validation_head() {
    assert!(InputValidator::validate_commit_id("HEAD").is_ok());
}

#[test]
fn test_commit_id_validation_refused() {
    assert!(InputValidator::validate_commit_id("").is_err());
    assert!(InputValidator::validate_commit_id("invalid!").is_err());
    assert!(InputValidator::validate_commit_id("xyz").is_err());
}

#[test]
fn test_ref_name_validation_tabs_refused() {
    assert!(InputValidator::validate_ref_name("branch\twith\ttabs").is_err());
}

#[test]
fn test_commit_id_sanitization_keeps_lowercase_hex() {
    assert_eq!(InputSanitizer::sanitize_commit_id("deadbeef1").unwrap(), "deadbeef1");
    assert_eq!(InputSanitizer::sanitize_commit_id("DEADBEEF").unwrap(), "deadbeef");
}
