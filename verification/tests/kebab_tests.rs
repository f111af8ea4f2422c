use parse_royale::util::is_kebab_case;

#[test]
fn rejects_leading_hyphen() {
    assert!(!is_kebab_case("-foo"));
}

#[test]
fn rejects_trailing_hyphen() {
    assert!(!is_kebab_case("foo-"));
}

#[test]
fn rejects_double_hyphen() {
    assert!(!is_kebab_case("fo--o"));
}

#[test]
fn rejects_uppercase() {
    assert!(!is_kebab_case("Foo"));
}

#[test]
fn rejects_empty_string() {
    assert!(!is_kebab_case(""));
}

#[test]
fn rejects_space_and_underscore() {
    assert!(!is_kebab_case("mega minion"));
    assert!(!is_kebab_case("mega_minion"));
}

#[test]
fn accepts_plain_word() {
    assert!(is_kebab_case("knight"));
}

#[test]
fn accepts_hyphenated_words() {
    assert!(is_kebab_case("mega-minion"));
    assert!(is_kebab_case("x-bow"));
}

#[test]
fn accepts_digits() {
    assert!(is_kebab_case("a1-b2"));
}

#[test]
fn accepts_single_letter() {
    assert!(is_kebab_case("x"));
}
