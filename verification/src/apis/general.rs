//! The general API endpoints: what the core computes for them.

use vstd::prelude::*;
use vstd::string::*;

use crate::apis::{Id, OptionId};
use crate::json;
use crate::json::{Jv, JsonValue};

verus! {

/// The URL of the place-to-universe lookup.
pub fn universe_url(place: Id) -> (r: String)
    ensures
        r@ == "https://apis.roblox.com/universes/v1/places/"@ + json::u64_dec(
            place.spec_get() as nat,
        ) + "/universe"@,
{
    let mut r = String::from_str("https://apis.roblox.com/universes/v1/places/");
    let id = place.to_dec_string();
    r.append(id.as_str());
    r.append("/universe");
    r
}

/// The universe identifier from a decoded lookup response: the
/// `universeId` member, which is `null` for a place without a universe.
/// Anything else fails.
pub fn universe_from_body(body: &str) -> (r: Option<OptionId>)
    ensures
        match json::spec_parse_json(body@) {
            Some(Jv::Obj(ps)) => match json::obj_get(ps, "universeId"@) {
                Some(Jv::Null) => r matches Some(oid) && oid is Absent,
                Some(Jv::Int(k)) => {
                    if 1 <= k {
                        r matches Some(oid) && (oid matches OptionId::Present(id)
                            && id.spec_get() == k)
                    } else {
                        r is None
                    }
                },
                _ => r is None,
            },
            _ => r is None,
        },
{
    match json::parse_json(body) {
        Some(v) => match &v {
            JsonValue::Obj(ps) => {
                proof {
                    json::lemma_obj_view(v);
                }
                let key = String::from_str("universeId");
                match json::obj_get_x(ps, &key) {
                    Some(member) => OptionId::from_json(member),
                    None => None,
                }
            },
            _ => None,
        },
        None => None,
    }
}

} // verus!
