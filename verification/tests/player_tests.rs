use parse_royale::cards::Card;
use parse_royale::json::JsonValue;
use parse_royale::player::card::{
    get_card_evo_level, get_card_info, get_card_level, get_card_mastery_level,
    get_card_star_level,
};
use parse_royale::player::info::{
    get_card_collection_info, get_clan_info, get_player_info, get_win_loss_numbers,
};
use parse_royale::player::Player;

const BAD_JSON: &str = "Got a bad JSON response from the Clash Royale API";

fn obj(fields: Vec<(&str, JsonValue)>) -> JsonValue {
    JsonValue::Object(
        fields
            .into_iter()
            .map(|(k, v)| (k.to_string(), v))
            .collect(),
    )
}

fn player_named(name: &str, mut extra: Vec<(&str, JsonValue)>) -> Player {
    let mut fields = vec![("name", JsonValue::Str(name.to_string()))];
    fields.append(&mut extra);
    Player::new(obj(fields)).unwrap()
}

#[test]
fn level_is_relative_to_cap_of_fourteen() {
    let entry = obj(vec![
        ("level", JsonValue::Int(11)),
        ("maxLevel", JsonValue::Int(11)),
    ]);
    assert_eq!(get_card_level(&entry).unwrap(), "\n\tLevel: 14");
}

#[test]
fn level_below_max_is_shifted_down() {
    let entry = obj(vec![
        ("level", JsonValue::Int(8)),
        ("maxLevel", JsonValue::Int(11)),
    ]);
    assert_eq!(get_card_level(&entry).unwrap(), "\n\tLevel: 11");
}

#[test]
fn level_far_below_max_can_be_negative() {
    let entry = obj(vec![
        ("level", JsonValue::Int(1)),
        ("maxLevel", JsonValue::Int(20)),
    ]);
    assert_eq!(get_card_level(&entry).unwrap(), "\n\tLevel: -5");
}

#[test]
fn level_requires_integer_fields() {
    let entry = obj(vec![("level", JsonValue::Int(8))]);
    assert_eq!(get_card_level(&entry).unwrap_err(), BAD_JSON);
    let entry = obj(vec![
        ("level", JsonValue::Str("8".to_string())),
        ("maxLevel", JsonValue::Int(11)),
    ]);
    assert_eq!(get_card_level(&entry).unwrap_err(), BAD_JSON);
}

#[test]
fn evo_line_is_empty_without_evolution() {
    let entry = obj(vec![("level", JsonValue::Int(1))]);
    assert_eq!(get_card_evo_level(&entry).unwrap(), "");
}

#[test]
fn evo_line_reports_unlock_state() {
    let entry = obj(vec![
        ("maxEvolutionLevel", JsonValue::Int(1)),
        ("evolutionLevel", JsonValue::Int(1)),
    ]);
    assert_eq!(get_card_evo_level(&entry).unwrap(), "\n\tEvo unlocked: true");
    let entry = obj(vec![("maxEvolutionLevel", JsonValue::Int(1))]);
    assert_eq!(get_card_evo_level(&entry).unwrap(), "\n\tEvo unlocked: false");
}

#[test]
fn star_level_defaults_to_zero() {
    let entry = obj(vec![]);
    assert_eq!(get_card_star_level(&entry).unwrap(), "\n\tStar Level: 0");
}

#[test]
fn star_level_reports_value() {
    let entry = obj(vec![("starLevel", JsonValue::Int(3))]);
    assert_eq!(get_card_star_level(&entry).unwrap(), "\n\tStar Level: 3");
}

#[test]
fn mastery_defaults_to_level_zero_without_badge() {
    // A badges array with no entry named "MasteryMegaMinion".
    let doc = obj(vec![(
        "badges",
        JsonValue::Array(vec![obj(vec![(
            "name",
            JsonValue::Str("MasteryKnight".to_string()),
        )])]),
    )]);
    let card = Card::from_name("mega-minion").unwrap();
    assert_eq!(
        get_card_mastery_level(&doc, &card).unwrap(),
        "\n\tMastery Level 0"
    );
}

#[test]
fn mastery_defaults_to_level_zero_without_badges_array() {
    let doc = obj(vec![]);
    let card = Card::from_name("knight").unwrap();
    assert_eq!(
        get_card_mastery_level(&doc, &card).unwrap(),
        "\n\tMastery Level 0"
    );
}

#[test]
fn mastery_reports_level_out_of_max() {
    let doc = obj(vec![(
        "badges",
        JsonValue::Array(vec![obj(vec![
            ("name", JsonValue::Str("MasteryKnight".to_string())),
            ("level", JsonValue::Int(5)),
            ("maxLevel", JsonValue::Int(10)),
        ])]),
    )]);
    let card = Card::from_name("knight").unwrap();
    assert_eq!(
        get_card_mastery_level(&doc, &card).unwrap(),
        "\n\tMastery Level: 5/10"
    );
}

#[test]
fn mastery_with_badge_but_no_level_is_malformed() {
    let doc = obj(vec![(
        "badges",
        JsonValue::Array(vec![obj(vec![(
            "name",
            JsonValue::Str("MasteryKnight".to_string()),
        )])]),
    )]);
    let card = Card::from_name("knight").unwrap();
    assert_eq!(get_card_mastery_level(&doc, &card).unwrap_err(), BAD_JSON);
}

#[test]
fn card_info_reports_not_unlocked() {
    // No cards array entry matches the card's id.
    let player = player_named(
        "player-one",
        vec![("cards", JsonValue::Array(vec![]))],
    );
    let output = get_card_info(&player, "knight").unwrap();
    assert_eq!(output, "- \"player-one\" Knight:\n\tNot unlocked");
    assert!(output.ends_with("Not unlocked"));
}

#[test]
fn card_info_without_cards_array_reports_not_unlocked() {
    let player = player_named("someone", vec![]);
    let output = get_card_info(&player, "mega-minion").unwrap();
    assert_eq!(output, "- \"someone\" Mega Minion:\n\tNot unlocked");
}

#[test]
fn card_info_full_output() {
    let player = player_named(
        "ace",
        vec![
            (
                "cards",
                JsonValue::Array(vec![obj(vec![
                    ("id", JsonValue::Int(26000000)),
                    ("level", JsonValue::Int(11)),
                    ("maxLevel", JsonValue::Int(11)),
                    ("maxEvolutionLevel", JsonValue::Int(1)),
                    ("evolutionLevel", JsonValue::Int(1)),
                    ("starLevel", JsonValue::Int(2)),
                ])]),
            ),
            (
                "badges",
                JsonValue::Array(vec![obj(vec![
                    ("name", JsonValue::Str("MasteryKnight".to_string())),
                    ("level", JsonValue::Int(5)),
                    ("maxLevel", JsonValue::Int(10)),
                ])]),
            ),
        ],
    );
    let output = get_card_info(&player, "knight").unwrap();
    assert_eq!(
        output,
        "- \"ace\" Knight:\n\tLevel: 14\n\tEvo unlocked: true\n\tStar Level: 2\n\tMastery Level: 5/10"
    );
}

#[test]
fn card_info_without_evolution_or_badge() {
    let player = player_named(
        "ace",
        vec![(
            "cards",
            JsonValue::Array(vec![obj(vec![
                ("id", JsonValue::Int(26000039)),
                ("level", JsonValue::Int(9)),
                ("maxLevel", JsonValue::Int(11)),
            ])]),
        )],
    );
    let output = get_card_info(&player, "mega-minion").unwrap();
    assert_eq!(
        output,
        "- \"ace\" Mega Minion:\n\tLevel: 12\n\tStar Level: 0\n\tMastery Level 0"
    );
}

#[test]
fn card_info_picks_first_matching_card_entry() {
    let player = player_named(
        "ace",
        vec![(
            "cards",
            JsonValue::Array(vec![
                obj(vec![
                    ("id", JsonValue::Int(26000000)),
                    ("level", JsonValue::Int(11)),
                    ("maxLevel", JsonValue::Int(11)),
                ]),
                obj(vec![
                    ("id", JsonValue::Int(26000000)),
                    ("level", JsonValue::Int(1)),
                    ("maxLevel", JsonValue::Int(11)),
                ]),
            ]),
        )],
    );
    let output = get_card_info(&player, "knight").unwrap();
    assert_eq!(
        output,
        "- \"ace\" Knight:\n\tLevel: 14\n\tStar Level: 0\n\tMastery Level 0"
    );
}

#[test]
fn malformed_kebab_input_fails_before_any_lookup() {
    let player = player_named("ace", vec![]);
    let err = get_card_info(&player, "Mega_Minion!").unwrap_err();
    assert_eq!(err, "The card name \"Mega_Minion!\" is not kebab-case");
}

#[test]
fn unknown_card_name_fails_resolution() {
    let player = player_named("ace", vec![]);
    let err = get_card_info(&player, "not-a-card").unwrap_err();
    assert_eq!(err, "Unknown card name: \"not-a-card\"");
}

#[test]
fn card_info_with_malformed_entry_is_an_error() {
    let player = player_named(
        "ace",
        vec![(
            "cards",
            JsonValue::Array(vec![obj(vec![("id", JsonValue::Int(26000000))])]),
        )],
    );
    assert_eq!(get_card_info(&player, "knight").unwrap_err(), BAD_JSON);
}

#[test]
fn player_new_reads_username() {
    let player = Player::new(obj(vec![("name", JsonValue::Str("ace".to_string()))])).unwrap();
    assert_eq!(player.username, "ace");
}

#[test]
fn player_new_without_name_is_malformed() {
    assert_eq!(Player::new(obj(vec![])).unwrap_err(), BAD_JSON);
    assert_eq!(
        Player::new(obj(vec![("name", JsonValue::Int(3))])).unwrap_err(),
        BAD_JSON
    );
}

#[test]
fn win_loss_numbers_are_extracted() {
    let player = player_named(
        "ace",
        vec![
            ("wins", JsonValue::Int(10)),
            ("losses", JsonValue::Int(5)),
        ],
    );
    assert_eq!(get_win_loss_numbers(&player).unwrap(), (10, 5));
}

#[test]
fn win_loss_numbers_require_both_fields() {
    let player = player_named("ace", vec![("wins", JsonValue::Int(10))]);
    assert_eq!(get_win_loss_numbers(&player).unwrap_err(), BAD_JSON);
}

#[test]
fn collection_info_counts_cards() {
    let player = player_named(
        "ace",
        vec![(
            "cards",
            JsonValue::Array(vec![obj(vec![]), obj(vec![]), obj(vec![])]),
        )],
    );
    assert_eq!(
        get_card_collection_info(&player).unwrap(),
        "\n\tCards Unlocked: 3/121"
    );
}

#[test]
fn collection_info_without_cards_array_counts_zero() {
    // A missing cards array means no cards unlocked, not a malformed
    // document.
    let player = player_named("ace", vec![]);
    assert_eq!(
        get_card_collection_info(&player).unwrap(),
        "\n\tCards Unlocked: 0/121"
    );
    let player = player_named("ace", vec![("cards", JsonValue::Int(3))]);
    assert_eq!(
        get_card_collection_info(&player).unwrap(),
        "\n\tCards Unlocked: 0/121"
    );
}

#[test]
fn player_info_composes_all_sections() {
    let player = player_named(
        "ace",
        vec![
            (
                "cards",
                JsonValue::Array(vec![obj(vec![]), obj(vec![])]),
            ),
            (
                "clan",
                obj(vec![
                    ("tag", JsonValue::Str("#ABC123".to_string())),
                    ("name", JsonValue::Str("The Clan".to_string())),
                ]),
            ),
            ("role", JsonValue::Str("elder".to_string())),
        ],
    );
    let win_loss_line = "\n\t10 wins, 5 losses (66.67% winrate)";
    assert_eq!(
        get_player_info(&player, win_loss_line).unwrap(),
        "- \"ace\" Info:\n\t10 wins, 5 losses (66.67% winrate)\n\tCards Unlocked: 2/121\n\tClan: elder of #ABC123; \"The Clan\""
    );
}

#[test]
fn player_info_without_clan_or_cards() {
    let player = player_named("solo", vec![]);
    assert_eq!(
        get_player_info(&player, "\n\t0 wins, 0 losses (NaN% winrate)").unwrap(),
        "- \"solo\" Info:\n\t0 wins, 0 losses (NaN% winrate)\n\tCards Unlocked: 0/121\n\tClan: None"
    );
}

#[test]
fn player_info_with_malformed_clan_is_an_error() {
    let player = player_named(
        "ace",
        vec![("clan", obj(vec![("tag", JsonValue::Int(1))]))],
    );
    assert_eq!(get_player_info(&player, "").unwrap_err(), BAD_JSON);
}

#[test]
fn clan_info_reports_membership() {
    let player = player_named(
        "ace",
        vec![
            (
                "clan",
                obj(vec![
                    ("tag", JsonValue::Str("#ABC123".to_string())),
                    ("name", JsonValue::Str("The Clan".to_string())),
                ]),
            ),
            ("role", JsonValue::Str("elder".to_string())),
        ],
    );
    assert_eq!(
        get_clan_info(&player).unwrap(),
        "\n\tClan: elder of #ABC123; \"The Clan\""
    );
}

#[test]
fn clan_info_reports_none_without_clan() {
    let player = player_named("ace", vec![]);
    assert_eq!(get_clan_info(&player).unwrap(), "\n\tClan: None");
}

#[test]
fn clan_info_without_role_is_malformed() {
    let player = player_named(
        "ace",
        vec![(
            "clan",
            obj(vec![
                ("tag", JsonValue::Str("#ABC123".to_string())),
                ("name", JsonValue::Str("The Clan".to_string())),
            ]),
        )],
    );
    assert_eq!(get_clan_info(&player).unwrap_err(), BAD_JSON);
}
