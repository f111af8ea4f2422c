//! Gathering info about one of the player's cards: its level relative to the
//! fixed cap, its evolution, its star level and its mastery progress.
use vstd::prelude::*;

use crate::cards::{spec_card_for, Card};
use crate::json::{spec_field_i64, JsonValue};
use crate::numfmt::{i128_to_string, i64_to_string, spec_int_string};
use crate::player::Player;
use crate::util::{
    find_in_json_array, lemma_first_match_at, lemma_first_match_none, spec_array_entries,
    spec_find_in_json_array, spec_found_at, spec_first_match, str_eq, BAD_JSON_ERR_MSG,
};

verus! {

/// The entry has an integer field `id` equal to `id`.
pub open spec fn spec_entry_id_is(v: JsonValue, id: int) -> bool {
    match spec_field_i64(v, "id"@) {
        Some(n) => n == id,
        None => false,
    }
}

/// The entry has a string field `name` equal to `name`.
pub open spec fn spec_entry_name_is(v: JsonValue, name: Seq<char>) -> bool {
    match v.spec_get("name"@) {
        Some(f) => f.spec_as_str() == Some(name),
        None => false,
    }
}

/// The first entry of the `cards` array whose `id` field equals `id`.
pub open spec fn spec_card_entry(json: JsonValue, id: int) -> Option<JsonValue> {
    spec_find_in_json_array(json, "cards"@, |v: JsonValue| spec_entry_id_is(v, id))
}

/// The first entry of the `badges` array whose `name` field equals `badge`.
pub open spec fn spec_badge_entry(json: JsonValue, badge: Seq<char>) -> Option<JsonValue> {
    spec_find_in_json_array(json, "badges"@, |v: JsonValue| spec_entry_name_is(v, badge))
}

/// The level line of a card entry: the card's level relative to a fixed
/// reference cap of 14 above the card's own maximum. `None` when the entry
/// lacks the integer fields `level` and `maxLevel`.
pub open spec fn spec_level_line(entry: JsonValue) -> Option<Seq<char>> {
    match (spec_field_i64(entry, "level"@), spec_field_i64(entry, "maxLevel"@)) {
        (Some(level), Some(max_level)) => Some(
            "\n\tLevel: "@ + spec_int_string(level - max_level + 14),
        ),
        _ => None,
    }
}

/// The evolution line of a card entry: empty when the card has no evolution
/// at all, otherwise whether the player has unlocked it.
pub open spec fn spec_evo_line(entry: JsonValue) -> Seq<char> {
    if entry.spec_get("maxEvolutionLevel"@) is None {
        Seq::<char>::empty()
    } else if entry.spec_get("evolutionLevel"@) is Some {
        "\n\tEvo unlocked: "@ + "true"@
    } else {
        "\n\tEvo unlocked: "@ + "false"@
    }
}

/// The star-level line of a card entry; a missing or non-integer `starLevel`
/// counts as zero stars.
pub open spec fn spec_star_line(entry: JsonValue) -> Seq<char> {
    match spec_field_i64(entry, "starLevel"@) {
        Some(star) => "\n\tStar Level: "@ + spec_int_string(star as int),
        None => "\n\tStar Level: "@ + spec_int_string(0),
    }
}

/// The mastery line for a badge: level 0 when the player has no badge entry
/// of that name, otherwise the entry's level out of its maximum. `None` when
/// an entry exists but lacks the integer fields `level` and `maxLevel`.
pub open spec fn spec_mastery_line(json: JsonValue, badge: Seq<char>) -> Option<Seq<char>> {
    match spec_badge_entry(json, badge) {
        None => Some("\n\tMastery Level 0"@),
        Some(entry) => match (spec_field_i64(entry, "level"@), spec_field_i64(entry, "maxLevel"@)) {
            (Some(level), Some(max_level)) => Some(
                "\n\tMastery Level: "@ + spec_int_string(level as int) + "/"@ + spec_int_string(
                    max_level as int,
                ),
            ),
            _ => None,
        },
    }
}

/// Parses the card's level info and returns it in a string.
/// The string is formatted to be pushed onto `get_card_info`'s `output`.
///
/// The given JSON root must be the card's info.
pub fn get_card_level(json: &JsonValue) -> (r: Result<String, String>)
    ensures
        match r {
            Ok(t) => spec_level_line(*json) == Some(t@),
            Err(e) => spec_level_line(*json) is None && e@ == BAD_JSON_ERR_MSG@,
        },
{
    // We need the level and max level to get it relative to level 15.
    // Level just returns the number of times the card has been leveled up
    // (minus one).
    let level = match json.get("level") {
        Some(v) => match v.as_i64() {
            Some(n) => n,
            None => {
                return Err(String::from_str(BAD_JSON_ERR_MSG));
            },
        },
        None => {
            return Err(String::from_str(BAD_JSON_ERR_MSG));
        },
    };
    let max_level = match json.get("maxLevel") {
        Some(v) => match v.as_i64() {
            Some(n) => n,
            None => {
                return Err(String::from_str(BAD_JSON_ERR_MSG));
            },
        },
        None => {
            return Err(String::from_str(BAD_JSON_ERR_MSG));
        },
    };
    let relative_level: i128 = level as i128 - max_level as i128 + 14;
    let rendered = i128_to_string(relative_level);
    let mut out = String::from_str("\n\tLevel: ");
    out.append(rendered.as_str());
    Ok(out)
}

/// Parses the card's evolution level and returns its info in a string.
/// If the card does not have an evolution, returns an empty string.
///
/// The given JSON root must be the card's info.
pub fn get_card_evo_level(json: &JsonValue) -> (r: Result<String, String>)
    ensures
        match r {
            Ok(t) => t@ == spec_evo_line(*json),
            Err(_) => false,
        },
{
    // If this field doesn't exist the card doesn't have an evolution.
    if json.get("maxEvolutionLevel").is_none() {
        return Ok(String::new());
    }
    // If this field exists the player has the evolution; it will only ever
    // be 1.
    let mut out = String::from_str("\n\tEvo unlocked: ");
    if json.get("evolutionLevel").is_some() {
        out.append("true");
    } else {
        out.append("false");
    }
    Ok(out)
}

/// Parses the card's star level info and returns it in a string.
/// The string is formatted to be pushed onto `get_card_info`'s `output`.
///
/// The given JSON root must be the card's info.
pub fn get_card_star_level(json: &JsonValue) -> (r: Result<String, String>)
    ensures
        match r {
            Ok(t) => t@ == spec_star_line(*json),
            Err(_) => false,
        },
{
    let star_level = match json.get("starLevel") {
        Some(v) => match v.as_i64() {
            Some(n) => n,
            None => 0,
        },
        None => 0,
    };
    let rendered = i64_to_string(star_level);
    let mut out = String::from_str("\n\tStar Level: ");
    out.append(rendered.as_str());
    Ok(out)
}

/// Parses the card's mastery level info and returns it in a string.
/// The string is formatted to be pushed onto `get_card_info`'s `output`.
///
/// The given JSON root must be the player's info.
pub fn get_card_mastery_level(json: &JsonValue, card: &Card) -> (r: Result<String, String>)
    ensures
        match r {
            Ok(t) => spec_mastery_line(*json, card@.badge_name) == Some(t@),
            Err(e) => spec_mastery_line(*json, card@.badge_name) is None && e@
                == BAD_JSON_ERR_MSG@,
        },
{
    let badge = card.badge_name.as_str();
    let predicate = |v: &JsonValue| -> (b: bool)
        ensures
            b == spec_entry_name_is(*v, badge@),
        {
            match v.get("name") {
                Some(f) => match f.as_str() {
                    Some(s) => str_eq(s, badge),
                    None => false,
                },
                None => false,
            }
        };
    let found = find_in_json_array(json, "badges", predicate);
    let ghost p = |v: JsonValue| spec_entry_name_is(v, card@.badge_name);
    match found {
        None => {
            proof {
                match spec_array_entries(*json, "badges"@) {
                    Some(entries) => {
                        assert forall|j: int| 0 <= j < entries.len() implies !p(
                            #[trigger] entries[j],
                        ) by {
                            assert(call_ensures(predicate, (&entries[j],), false));
                        }
                        lemma_first_match_none(entries, p);
                    },
                    None => {},
                }
                assert(spec_badge_entry(*json, card@.badge_name) is None);
            }
            Ok(String::from_str("\n\tMastery Level 0"))
        },
        Some(mastery_info) => {
            proof {
                let entries = spec_array_entries(*json, "badges"@)->Some_0;
                let i = choose|i: int|
                    spec_found_at(entries, predicate, *mastery_info, i);
                assert(p(entries[i]));
                assert forall|j: int| 0 <= j < i implies !p(#[trigger] entries[j]) by {
                    assert(call_ensures(predicate, (&entries[j],), false));
                }
                lemma_first_match_at(entries, p, i);
                assert(spec_first_match(entries, p) == Some(*mastery_info));
                assert(spec_badge_entry(*json, card@.badge_name) == Some(*mastery_info));
            }
            // Get level and max level.
            let level = match mastery_info.get("level") {
                Some(v) => match v.as_i64() {
                    Some(n) => n,
                    None => {
                        return Err(String::from_str(BAD_JSON_ERR_MSG));
                    },
                },
                None => {
                    return Err(String::from_str(BAD_JSON_ERR_MSG));
                },
            };
            let max_level = match mastery_info.get("maxLevel") {
                Some(v) => match v.as_i64() {
                    Some(n) => n,
                    None => {
                        return Err(String::from_str(BAD_JSON_ERR_MSG));
                    },
                },
                None => {
                    return Err(String::from_str(BAD_JSON_ERR_MSG));
                },
            };
            let level_rendered = i64_to_string(level);
            let max_rendered = i64_to_string(max_level);
            let mut out = String::from_str("\n\tMastery Level: ");
            out.append(level_rendered.as_str());
            out.append("/");
            out.append(max_rendered.as_str());
            Ok(out)
        },
    }
}

/// Gathers and returns info about the player's card, or returns an error if
/// any are encountered.
pub fn get_card_info(player: &Player, name: &str) -> (r: Result<String, String>)
    ensures
        match r {
            Ok(t) => crate::util::spec_is_kebab_case(name@) && match spec_card_for(name@) {
                Some(card) => ({
                    let header = "- \""@ + player.username@ + "\" "@ + card.name + ":"@;
                    match spec_card_entry(player.json, card.id) {
                        None => t@ == header + "\n\tNot unlocked"@,
                        Some(entry) => spec_level_line(entry) is Some && spec_mastery_line(
                            player.json,
                            card.badge_name,
                        ) is Some && t@ == header + spec_level_line(entry)->Some_0 + spec_evo_line(
                            entry,
                        ) + spec_star_line(entry) + spec_mastery_line(
                            player.json,
                            card.badge_name,
                        )->Some_0,
                    }
                }),
                None => false,
            },
            Err(e) => if !crate::util::spec_is_kebab_case(name@) {
                e@ == "The card name \""@ + name@ + "\" is not kebab-case"@
            } else if spec_card_for(name@) is None {
                e@ == "Unknown card name: \""@ + name@ + "\""@
            } else {
                ({
                    let card = spec_card_for(name@)->Some_0;
                    match spec_card_entry(player.json, card.id) {
                        Some(entry) => (spec_level_line(entry) is None || spec_mastery_line(
                            player.json,
                            card.badge_name,
                        ) is None) && e@ == BAD_JSON_ERR_MSG@,
                        None => false,
                    }
                })
            },
        },
{
    let card = match Card::from_name(name) {
        Ok(c) => c,
        Err(e) => {
            return Err(e);
        },
    };
    let mut output = String::new();
    output.append("- \"");
    output.append(player.username.as_str());
    output.append("\" ");
    output.append(card.name.as_str());
    output.append(":");

    // Find the card's info.
    let id = card.id;
    let predicate = |v: &JsonValue| -> (b: bool)
        ensures
            b == spec_entry_id_is(*v, id as int),
        {
            match v.get("id") {
                Some(f) => match f.as_i64() {
                    Some(n) => n == id,
                    None => false,
                },
                None => false,
            }
        };
    let found = find_in_json_array(&player.json, "cards", predicate);
    let ghost p = |v: JsonValue| spec_entry_id_is(v, card@.id);
    match found {
        None => {
            // The card is not in the array if it isn't unlocked.
            // Assume this is the case.
            proof {
                match spec_array_entries(player.json, "cards"@) {
                    Some(entries) => {
                        assert forall|j: int| 0 <= j < entries.len() implies !p(
                            #[trigger] entries[j],
                        ) by {
                            assert(call_ensures(predicate, (&entries[j],), false));
                        }
                        lemma_first_match_none(entries, p);
                    },
                    None => {},
                }
                assert(spec_card_entry(player.json, card@.id) is None);
            }
            output.append("\n\tNot unlocked");
            Ok(output)
        },
        Some(card_info) => {
            proof {
                let entries = spec_array_entries(player.json, "cards"@)->Some_0;
                let i = choose|i: int| spec_found_at(entries, predicate, *card_info, i);
                assert(p(entries[i]));
                assert forall|j: int| 0 <= j < i implies !p(#[trigger] entries[j]) by {
                    assert(call_ensures(predicate, (&entries[j],), false));
                }
                lemma_first_match_at(entries, p, i);
                assert(spec_card_entry(player.json, card@.id) == Some(*card_info));
            }
            let level_part = match get_card_level(card_info) {
                Ok(t) => t,
                Err(e) => {
                    return Err(e);
                },
            };
            output.append(level_part.as_str());
            let evo_part = match get_card_evo_level(card_info) {
                Ok(t) => t,
                Err(e) => {
                    return Err(e);
                },
            };
            output.append(evo_part.as_str());
            let star_part = match get_card_star_level(card_info) {
                Ok(t) => t,
                Err(e) => {
                    return Err(e);
                },
            };
            output.append(star_part.as_str());
            let mastery_part = match get_card_mastery_level(&player.json, &card) {
                Ok(t) => t,
                Err(e) => {
                    return Err(e);
                },
            };
            output.append(mastery_part.as_str());
            Ok(output)
        },
    }
}

} // verus!
