//! Info about the player as a whole: win/loss counts, card-collection
//! progress and clan membership.
use vstd::prelude::*;

use crate::cards::NUM_CARDS;
use crate::json::{spec_field_str, JsonValue};
use crate::numfmt::{spec_int_string, usize_to_string};
use crate::player::Player;
use crate::util::{spec_array_entries, BAD_JSON_ERR_MSG};

verus! {

/// How many cards the player document shows as unlocked. A document without
/// a `cards` array means no cards unlocked, not a malformed document.
pub open spec fn spec_unlocked_count(json: JsonValue) -> int {
    match spec_array_entries(json, "cards"@) {
        Some(entries) => entries.len() as int,
        None => 0,
    }
}

/// The card-collection line: how many cards the player has unlocked, out of
/// the catalog's total.
pub open spec fn spec_collection_line(json: JsonValue) -> Seq<char> {
    "\n\tCards Unlocked: "@ + spec_int_string(spec_unlocked_count(json)) + "/"@ + spec_int_string(
        NUM_CARDS as int,
    )
}

/// The clan line: the player's role, the clan's tag and its name, or `None`
/// (the text) for a player without a clan. The spec is `None` (no line) only
/// when a clan record is present but its expected string fields are not.
pub open spec fn spec_clan_line(json: JsonValue) -> Option<Seq<char>> {
    match json.spec_get("clan"@) {
        None => Some("\n\tClan: None"@),
        Some(clan) => match (spec_field_str(json, "role"@), spec_field_str(clan, "tag"@),
            spec_field_str(clan, "name"@)) {
            (Some(role), Some(tag), Some(clan_name)) => Some(
                "\n\tClan: "@ + role + " of "@ + tag + "; \""@ + clan_name + "\""@,
            ),
            _ => None,
        },
    }
}

/// Returns the player's win and loss counts.
pub fn get_win_loss_numbers(player: &Player) -> (r: Result<(i64, i64), String>)
    ensures
        match r {
            Ok(counts) => crate::json::spec_field_i64(player.json, "wins"@) == Some(counts.0)
                && crate::json::spec_field_i64(player.json, "losses"@) == Some(counts.1),
            Err(e) => (crate::json::spec_field_i64(player.json, "wins"@) is None
                || crate::json::spec_field_i64(player.json, "losses"@) is None) && e@
                == BAD_JSON_ERR_MSG@,
        },
{
    let wins = match player.json.get("wins") {
        Some(v) => match v.as_i64() {
            Some(n) => n,
            None => {
                return Err(String::from_str(BAD_JSON_ERR_MSG));
            },
        },
        None => {
            return Err(String::from_str(BAD_JSON_ERR_MSG));
        },
    };
    let losses = match player.json.get("losses") {
        Some(v) => match v.as_i64() {
            Some(n) => n,
            None => {
                return Err(String::from_str(BAD_JSON_ERR_MSG));
            },
        },
        None => {
            return Err(String::from_str(BAD_JSON_ERR_MSG));
        },
    };
    Ok((wins, losses))
}

/// Returns a string containing the player's card collection info.
///
/// A missing or non-array `cards` field counts as no cards unlocked.
pub fn get_card_collection_info(player: &Player) -> (r: Result<String, String>)
    ensures
        match r {
            Ok(t) => t@ == spec_collection_line(player.json),
            Err(_) => false,
        },
{
    let num_unlocked = match player.json.get("cards") {
        Some(v) => match v.as_array() {
            Some(arr) => arr.len(),
            None => 0,
        },
        None => 0,
    };
    let unlocked_rendered = usize_to_string(num_unlocked);
    let total_rendered = usize_to_string(NUM_CARDS);
    let mut out = String::from_str("\n\tCards Unlocked: ");
    out.append(unlocked_rendered.as_str());
    out.append("/");
    out.append(total_rendered.as_str());
    Ok(out)
}

/// Returns a string containing the player's clan's info.
pub fn get_clan_info(player: &Player) -> (r: Result<String, String>)
    ensures
        match r {
            Ok(t) => spec_clan_line(player.json) == Some(t@),
            Err(e) => spec_clan_line(player.json) is None && e@ == BAD_JSON_ERR_MSG@,
        },
{
    match player.json.get("clan") {
        Some(clan_info) => {
            let role = match player.json.get("role") {
                Some(v) => match v.as_str() {
                    Some(s) => s,
                    None => {
                        return Err(String::from_str(BAD_JSON_ERR_MSG));
                    },
                },
                None => {
                    return Err(String::from_str(BAD_JSON_ERR_MSG));
                },
            };
            let tag = match clan_info.get("tag") {
                Some(v) => match v.as_str() {
                    Some(s) => s,
                    None => {
                        return Err(String::from_str(BAD_JSON_ERR_MSG));
                    },
                },
                None => {
                    return Err(String::from_str(BAD_JSON_ERR_MSG));
                },
            };
            let clan_name = match clan_info.get("name") {
                Some(v) => match v.as_str() {
                    Some(s) => s,
                    None => {
                        return Err(String::from_str(BAD_JSON_ERR_MSG));
                    },
                },
                None => {
                    return Err(String::from_str(BAD_JSON_ERR_MSG));
                },
            };
            let mut out = String::from_str("\n\tClan: ");
            out.append(role);
            out.append(" of ");
            out.append(tag);
            out.append("; \"");
            out.append(clan_name);
            out.append("\"");
            Ok(out)
        },
        None => Ok(String::from_str("\n\tClan: None")),
    }
}

/// Composes the player-info block: a header with the username, then the
/// given win/loss line, then the card-collection and clan lines.
///
/// The win/loss line is handed in ready-made, since its winrate percentage
/// is floating-point work that this library does not hold.
pub fn get_player_info(player: &Player, win_loss_line: &str) -> (r: Result<String, String>)
    ensures
        match r {
            Ok(t) => spec_clan_line(player.json) is Some && t@ == "- \""@ + player.username@
                + "\" Info:"@ + win_loss_line@ + spec_collection_line(player.json)
                + spec_clan_line(player.json)->Some_0,
            Err(e) => spec_clan_line(player.json) is None && e@ == BAD_JSON_ERR_MSG@,
        },
{
    let mut output = String::new();
    output.append("- \"");
    output.append(player.username.as_str());
    output.append("\" Info:");
    output.append(win_loss_line);
    let collection = match get_card_collection_info(player) {
        Ok(t) => t,
        Err(e) => {
            return Err(e);
        },
    };
    output.append(collection.as_str());
    let clan = match get_clan_info(player) {
        Ok(t) => t,
        Err(e) => {
            return Err(e);
        },
    };
    output.append(clan.as_str());
    Ok(output)
}

} // verus!
