//! The game endpoints: what the core computes for them.

use vstd::prelude::*;
use vstd::string::*;

use crate::apis::{Id, RequestLimit, SortOrder, SortOrderDefaultAscending};
use crate::clients::pair_views;
use crate::json;

verus! {

/// Which server listing a place exposes.
#[derive(Debug, PartialEq, Eq, Structural, Clone, Copy)]
pub enum ServerType {
    Public,
    Friend,
}

impl ServerType {
    /// The numeric wire value: public listings are `0`, friend listings
    /// `1`.
    pub open spec fn spec_wire_value(&self) -> u8 {
        match self {
            ServerType::Public => 0,
            ServerType::Friend => 1,
        }
    }

    /// The numeric wire value.
    pub fn wire_value(&self) -> (r: u8)
        ensures
            r == self.spec_wire_value(),
    {
        match self {
            ServerType::Public => 0,
            ServerType::Friend => 1,
        }
    }
}

/// The genre a place reports for itself.
#[derive(Debug, Clone)]
pub struct AssetGenreViewModel {
    pub display_name: String,
    pub id: u8,
}

/// The URL of the place details endpoint.
pub fn place_details_url() -> (r: &'static str)
    ensures
        r@ == "https://www.roblox.com/places/api-get-details"@,
{
    "https://www.roblox.com/places/api-get-details"
}

/// The query of the place details endpoint.
pub fn place_details_query(place_id: Id) -> (r: Vec<(String, String)>)
    ensures
        pair_views(r@) == seq![("assetId"@, json::u64_dec(place_id.spec_get() as nat))],
{
    let mut r: Vec<(String, String)> = Vec::new();
    r.push((String::from_str("assetId"), place_id.to_dec_string()));
    proof {
        assert(pair_views(r@) =~= seq![("assetId"@, json::u64_dec(place_id.spec_get() as nat))]);
    }
    r
}

/// The URL of one place's server listing.
pub fn public_servers_url(place_id: Id, server_type: ServerType) -> (r: String)
    ensures
        r@ == "https://games.roblox.com/v1/games/"@ + json::u64_dec(place_id.spec_get() as nat)
            + "/servers/"@ + json::u64_dec(server_type.spec_wire_value() as nat),
{
    let mut r = String::from_str("https://games.roblox.com/v1/games/");
    let id = place_id.to_dec_string();
    r.append(id.as_str());
    r.append("/servers/");
    let t = json::u64_to_string(server_type.wire_value() as u64);
    r.append(t.as_str());
    r
}

/// The query pairs of one server listing page. Fields carrying their
/// default are omitted: the sort order when ascending, the full-server
/// filter when off, the limit when ten, the cursor when there is none.
pub open spec fn spec_servers_query(
    sort_order: SortOrder,
    exclude_full_servers: bool,
    limit: RequestLimit,
    cursor: Option<Seq<char>>,
) -> Seq<(Seq<char>, Seq<char>)> {
    let q0 = Seq::<(Seq<char>, Seq<char>)>::empty();
    let q1 = if sort_order is Descending {
        q0.push(("sortOrder"@, "2"@))
    } else {
        q0
    };
    let q2 = if exclude_full_servers {
        q1.push(("excludeFullGames"@, "true"@))
    } else {
        q1
    };
    let q3 = if !(limit is Ten) {
        q2.push(("limit"@, json::u64_dec(limit.spec_wire_value() as nat)))
    } else {
        q2
    };
    match cursor {
        Some(c) => q3.push(("cursor"@, c)),
        None => q3,
    }
}

/// Builds the query of one server listing page.
pub fn public_servers_query(
    sort_order: SortOrder,
    exclude_full_servers: bool,
    limit: RequestLimit,
    cursor: Option<&str>,
) -> (r: Vec<(String, String)>)
    ensures
        pair_views(r@) == spec_servers_query(
            sort_order,
            exclude_full_servers,
            limit,
            match cursor {
                Some(c) => Some(c@),
                None => None,
            },
        ),
{
    let mut r: Vec<(String, String)> = Vec::new();
    let wire: SortOrderDefaultAscending = SortOrderDefaultAscending::from(sort_order);
    if wire == SortOrderDefaultAscending::Descending {
        r.push((String::from_str("sortOrder"), String::from_str(wire.query_str())));
    }
    if exclude_full_servers {
        r.push((String::from_str("excludeFullGames"), String::from_str("true")));
    }
    if !(limit == RequestLimit::Ten) {
        r.push((String::from_str("limit"), String::from_str(limit.query_str())));
    }
    match cursor {
        Some(c) => {
            r.push((String::from_str("cursor"), String::from_str(c)));
        },
        None => {},
    }
    proof {
        assert(pair_views(r@) =~= spec_servers_query(
            sort_order,
            exclude_full_servers,
            limit,
            match cursor {
                Some(c) => Some(c@),
                None => None,
            },
        ));
    }
    r
}

} // verus!
