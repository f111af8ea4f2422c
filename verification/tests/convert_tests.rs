use parse_royale::convert::{capitalized_to_identifier, kebab_to_capitalized};

#[test]
fn capitalizes_kebab_name() {
    assert_eq!(kebab_to_capitalized("mega-minion").unwrap(), "Mega Minion");
}

#[test]
fn capitalize_identifier_round_trip() {
    let capitalized = kebab_to_capitalized("mega-minion").unwrap();
    assert_eq!(capitalized, "Mega Minion");
    let identifier = capitalized_to_identifier(&capitalized).unwrap();
    assert_eq!(identifier, "MegaMinion");
}

#[test]
fn round_trip_preserves_letters_on_longer_name() {
    let capitalized = kebab_to_capitalized("three-musketeers").unwrap();
    assert_eq!(capitalized, "Three Musketeers");
    let identifier = capitalized_to_identifier(&capitalized).unwrap();
    assert_eq!(identifier, "ThreeMusketeers");
}

#[test]
fn capitalize_treats_underscore_and_period_as_separators() {
    assert_eq!(kebab_to_capitalized("a_b.c-d").unwrap(), "A B C D");
}

#[test]
fn capitalize_lowercases_interior_letters() {
    assert_eq!(kebab_to_capitalized("mEGa-mINIon").unwrap(), "Mega Minion");
}

#[test]
fn capitalize_keeps_digits() {
    assert_eq!(kebab_to_capitalized("a1-b2").unwrap(), "A1 B2");
}

#[test]
fn capitalize_rejects_invalid_character() {
    let err = kebab_to_capitalized("Mega Minion!").unwrap_err();
    assert_eq!(
        err,
        "The string \"Mega Minion!\" cannot be converted to capitalized words"
    );
}

#[test]
fn identifier_strips_spaces() {
    assert_eq!(capitalized_to_identifier("Mega Minion").unwrap(), "MegaMinion");
}

#[test]
fn identifier_keeps_letter_case() {
    assert_eq!(capitalized_to_identifier("tHe LoG").unwrap(), "tHeLoG");
}

#[test]
fn identifier_rejects_non_letter() {
    let err = capitalized_to_identifier("Mega Minion 2").unwrap_err();
    assert_eq!(
        err,
        "The string \"Mega Minion 2\" cannot be converted to an identifier"
    );
}

#[test]
fn identifier_of_empty_is_empty() {
    assert_eq!(capitalized_to_identifier("").unwrap(), "");
}
