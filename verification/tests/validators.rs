use gcmake::validators::is_valid_target_name;

#[test]
fn target_name_with_hyphen_and_underscore_is_accepted() {
    assert!(is_valid_target_name("my-target_1"));
}

#[test]
fn target_name_with_blank_and_punctuation_is_rejected() {
    assert!(!is_valid_target_name("my target!"));
}

#[test]
fn target_name_edges() {
    assert!(!is_valid_target_name(""));
    assert!(is_valid_target_name("-"));
    assert!(is_valid_target_name("A_z-09"));
    assert!(!is_valid_target_name("a.b"));
    assert!(!is_valid_target_name("a\n"));
    assert!(!is_valid_target_name("caf\u{e9}"));
    assert!(!is_valid_target_name("a[b"));
    assert!(!is_valid_target_name("a^b"));
}
