use gitk_rs::{DESCRIPTION, NAME, VERSION};

#[test]
fn test_version_constants() {
    assert!(!VERSION.is_empty());
    assert!(!NAME.is_empty());
    assert!(!DESCRIPTION.is_empty());
}

#[test]
fn test_library_metadata() {
    assert_eq!(NAME, "gitk-rs");
    assert!(VERSION.chars().next().unwrap().is_ascii_digit());
}
