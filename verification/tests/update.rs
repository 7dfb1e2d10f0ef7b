use tanakai::config::update::{is_valid_version, release_tag, update_available, UpdateError};

#[test]
fn the_release_is_read_from_the_tag_name() {
    assert_eq!(
        release_tag("{\"url\":\"u\",\"tag_name\":\"1.2.3\",\"name\":\"Release\"}"),
        Some("1.2.3".to_string())
    );
    assert_eq!(release_tag("tag_name\": \"v2\""), Some("v2".to_string()));
    assert_eq!(release_tag("tag_name\"\"\"rest"), Some(String::new()));
    assert_eq!(release_tag("tag_name\":\""), Some(String::new()));
}

#[test]
fn the_release_is_looked_for_before_the_next_tag_name() {
    assert_eq!(release_tag("tag_name\":tag_name\":\"1.0.0\""), None);
    assert_eq!(release_tag("tag_name\":\"1.0.0tag_name\""), Some("1.0.0".to_string()));
}

#[test]
fn an_answer_without_a_tag_names_no_release() {
    assert_eq!(release_tag(""), None);
    assert_eq!(release_tag("{\"name\":\"1.2.3\"}"), None);
    assert_eq!(release_tag("tag_name"), None);
    assert_eq!(release_tag("tag_name\":1"), None);
    assert_eq!(release_tag("tag_name\":"), None);
}

#[test]
fn versions_are_three_numbers() {
    assert!(is_valid_version("0.1.0"));
    assert!(is_valid_version("1.2.3-alpha.1+build"));
    assert!(!is_valid_version("1.0"));
    assert!(!is_valid_version("v1.0.0"));
    assert!(!is_valid_version("1.0.01"));
    assert!(!is_valid_version(""));
}

#[test]
fn a_greater_release_is_an_update() {
    let answer = |tag: &str| format!("{{\"tag_name\":\"{}\"}}", tag);
    assert_eq!(update_available("0.1.0", &answer("0.2.0")), Ok(true));
    assert_eq!(update_available("0.1.0", &answer("0.1.1")), Ok(true));
    assert_eq!(update_available("0.9.0", &answer("0.10.0")), Ok(true));
    assert_eq!(update_available("1.0.0-rc.1", &answer("1.0.0")), Ok(true));
    assert_eq!(update_available("0.1.0", &answer("0.1.0")), Ok(false));
    assert_eq!(update_available("0.2.0", &answer("0.1.9")), Ok(false));
    assert_eq!(update_available("1.0.0", &answer("1.0.0-rc.1")), Ok(false));
}

#[test]
fn what_is_wrong_is_reported_in_order() {
    assert_eq!(update_available("one", "nothing"), Err(UpdateError::InvalidCurrentVersion));
    assert_eq!(
        update_available("one", "{\"tag_name\":\"1.0.0\"}"),
        Err(UpdateError::InvalidCurrentVersion)
    );
    assert_eq!(update_available("0.1.0", "nothing"), Err(UpdateError::ReleaseNotFound));
    assert_eq!(
        update_available("0.1.0", "{\"tag_name\":\"v1.0.0\"}"),
        Err(UpdateError::InvalidReleaseVersion)
    );
}
