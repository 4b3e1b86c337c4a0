//! The economy endpoints: what the core computes for them.

use vstd::prelude::*;
use vstd::string::*;

use crate::apis::Id;
use crate::json;
use crate::json::{Jv, JsonValue};

verus! {

/// The URL of a group's funds endpoint.
pub fn group_funds_url(group: Id) -> (r: String)
    ensures
        r@ == "https://economy.roblox.com/v1/groups/"@ + json::u64_dec(group.spec_get() as nat)
            + "/currency"@,
{
    let mut r = String::from_str("https://economy.roblox.com/v1/groups/");
    let id = group.to_dec_string();
    r.append(id.as_str());
    r.append("/currency");
    r
}

/// The funds count from a decoded funds response: the `robux` member, a
/// non-negative integer. Anything else fails.
pub fn group_funds_from_body(body: &str) -> (r: Option<u64>)
    ensures
        match json::spec_parse_json(body@) {
            Some(Jv::Obj(ps)) => match json::obj_get(ps, "robux"@) {
                Some(Jv::Int(k)) => {
                    if k >= 0 {
                        r matches Some(v) && v == k
                    } else {
                        r is None
                    }
                },
                _ => r is None,
            },
            _ => r is None,
        },
{
    match json::parse_json(body) {
        Some(v) => match &v {
            JsonValue::Obj(ps) => {
                proof {
                    json::lemma_obj_view(v);
                }
                let key = String::from_str("robux");
                match json::obj_get_x(ps, &key) {
                    Some(JsonValue::Int(k)) => {
                        if *k >= 0 {
                            Some(*k as u64)
                        } else {
                            None
                        }
                    },
                    _ => None,
                }
            },
            _ => None,
        },
        None => None,
    }
}

} // verus!
