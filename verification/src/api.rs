//! The check applied to every response of the Clash Royale API: error
//! responses carry a `reason` field, good responses don't.
use vstd::prelude::*;

use crate::json::{spec_field_str, JsonValue};

verus! {

/// Catches error responses. All have the `reason` value, good responses
/// don't.
pub fn check_api_response(json: &JsonValue) -> (r: Result<(), String>)
    ensures
        match r {
            Ok(_) => spec_field_str(*json, "reason"@) is None,
            Err(e) => match spec_field_str(*json, "reason"@) {
                Some(reason) => e@ == "Clash Royale API returned an error \""@ + reason + "\""@,
                None => false,
            },
        },
{
    let reason = match json.get("reason") {
        Some(v) => v.as_str(),
        None => None,
    };
    match reason {
        Some(err) => {
            let mut e = String::new();
            e.append("Clash Royale API returned an error \"");
            e.append(err);
            e.append("\"");
            Err(e)
        },
        None => Ok(()),
    }
}

} // verus!
