//! A player's basic info, read from the player document that the upstream
//! API returns.
pub mod card;
pub mod info;

use vstd::prelude::*;

use crate::json::JsonValue;
use crate::util::BAD_JSON_ERR_MSG;

verus! {

/// A player's basic info.
#[derive(Debug)]
pub struct Player {
    /// Clash Royale username.
    pub username: String,

    /// JSON data.
    pub json: JsonValue,
}

impl Player {
    /// Player data from the given player document.
    ///
    /// Reads the player's username, since it's displayed with all data
    /// output; fails when the document has no string field `name`.
    pub fn new(json: JsonValue) -> (r: Result<Player, String>)
        ensures
            match r {
                Ok(p) => crate::json::spec_field_str(json, "name"@) == Some(p.username@) && p.json
                    == json,
                Err(e) => crate::json::spec_field_str(json, "name"@) is None && e@
                    == BAD_JSON_ERR_MSG@,
            },
    {
        let username = match json.get("name") {
            Some(v) => match v.as_str() {
                Some(s) => s.to_owned(),
                None => {
                    return Err(String::from_str(BAD_JSON_ERR_MSG));
                },
            },
            None => {
                return Err(String::from_str(BAD_JSON_ERR_MSG));
            },
        };
        Ok(Player { username, json })
    }
}

} // verus!
