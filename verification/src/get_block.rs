//! The compute half of the chain queries.  Fetching is I/O and lives with
//! the caller; what the library owns is the contract on the head endpoint's
//! response: a JSON object whose `number` member holds a string-encoded
//! integer.  Any other shape is a contract violation and yields nothing.

use vstd::prelude::*;
use crate::json::{JsonValue, spec_obj_get, obj_get, parse_u64, all_dec_digits, digits_val};

verus! {

/// A well-shaped head response: an object with a `number` member holding a
/// string of decimal digits whose value fits an unsigned 64-bit height.
pub open spec fn head_number_ok(v: JsonValue) -> bool {
    v matches JsonValue::Obj(fs) && (spec_obj_get(fs@, "number"@) matches Some(JsonValue::Str(s))
        && s@.len() > 0 && all_dec_digits(s@) && digits_val(s@) <= u64::MAX)
}

/// Reads the current chain head height out of the head endpoint's response.
pub fn parse_head_number(v: &JsonValue) -> (r: Option<u64>)
    ensures
        (r is Some) == head_number_ok(*v),
        r matches Some(n) ==> (v matches JsonValue::Obj(fs) && (spec_obj_get(
            fs@,
            "number"@,
        ) matches Some(JsonValue::Str(s)) && n == digits_val(s@))),
{
    match v {
        JsonValue::Obj(fs) => {
            let key: String = "number".to_owned();
            match obj_get(fs, &key) {
                Option::Some(member) => match member {
                    JsonValue::Str(s) => parse_u64(s.as_str()),
                    _ => Option::None,
                },
                Option::None => Option::None,
            }
        },
        _ => Option::None,
    }
}

} // verus!
