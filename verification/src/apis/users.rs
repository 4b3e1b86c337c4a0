//! The user endpoints: what the core computes for them.

use vstd::prelude::*;
use vstd::string::*;

use crate::apis::{bool_str, ids_csv, spec_bool_str, spec_ids_csv, Id};
use crate::json;
use crate::json::{Jv, JsonValue};

verus! {

/// The account the session is authenticated as.
#[derive(Debug, Clone)]
pub struct AuthenticatedUser {
    pub id: Id,
    pub name: String,
    pub display_name: String,
}

/// One user looked up by identifier.
#[derive(Debug, Clone)]
pub struct BatchUserInfoFromId {
    pub id: Id,
    pub name: String,
    pub display_name: String,
    pub has_verified_badge: bool,
}

/// One user looked up by username.
#[derive(Debug, Clone)]
pub struct BatchUserInfoFromUsername {
    pub requested_username: String,
    pub id: Id,
    pub name: String,
    pub display_name: String,
    pub has_verified_badge: bool,
}

/// The authenticated-user payload: an object carrying the account's
/// identifier, login name and display name.
pub open spec fn spec_authenticated_user(s: Seq<char>) -> Option<(int, Seq<char>, Seq<char>)> {
    match json::spec_parse_json(s) {
        Some(Jv::Obj(ps)) => match (
            json::obj_get(ps, "id"@),
            json::obj_get(ps, "name"@),
            json::obj_get(ps, "displayName"@),
        ) {
            (Some(Jv::Int(k)), Some(Jv::Str(n)), Some(Jv::Str(d))) => {
                if 1 <= k {
                    Some((k as int, n, d))
                } else {
                    None
                }
            },
            _ => None,
        },
        _ => None,
    }
}

/// Decodes the authenticated-user payload. Anything that does not carry
/// an in-domain identifier and both names fails.
pub fn authenticated_user_from_body(body: &str) -> (r: Option<AuthenticatedUser>)
    ensures
        match r {
            Some(u) => spec_authenticated_user(body@) == Some(
                (u.id.spec_get() as int, u.name@, u.display_name@),
            ) && u.id.valid(),
            None => spec_authenticated_user(body@) is None,
        },
{
    match json::parse_json(body) {
        Some(v) => match &v {
            JsonValue::Obj(ps) => {
                proof {
                    json::lemma_obj_view(v);
                }
                let id_key = String::from_str("id");
                let name_key = String::from_str("name");
                let display_key = String::from_str("displayName");
                let id_member = json::obj_get_x(ps, &id_key);
                let name_member = json::obj_get_x(ps, &name_key);
                let display_member = json::obj_get_x(ps, &display_key);
                match (id_member, name_member, display_member) {
                    (Some(id_value), Some(JsonValue::Str(n)), Some(JsonValue::Str(d))) => {
                        match Id::from_json(id_value) {
                            Some(id) => Some(
                                AuthenticatedUser {
                                    id,
                                    name: n.clone(),
                                    display_name: d.clone(),
                                },
                            ),
                            None => None,
                        }
                    },
                    _ => None,
                }
            },
            _ => None,
        },
        None => None,
    }
}

/// The URL of the authenticated-user endpoint.
pub fn authenticated_user_url() -> (r: &'static str)
    ensures
        r@ == "https://users.roblox.com/v1/users/authenticated"@,
{
    "https://users.roblox.com/v1/users/authenticated"
}

/// The URL of the users-by-identifier batch endpoint.
pub fn users_batch_url() -> (r: &'static str)
    ensures
        r@ == "https://users.roblox.com/v1/users"@,
{
    "https://users.roblox.com/v1/users"
}

/// The URL of the users-by-username batch endpoint.
pub fn usernames_batch_url() -> (r: &'static str)
    ensures
        r@ == "https://users.roblox.com/v1/usernames/users"@,
{
    "https://users.roblox.com/v1/usernames/users"
}

/// The body of a users-by-identifier batch request.
pub open spec fn spec_user_ids_body(users: Seq<Id>, exclude_banned_users: bool) -> Seq<char> {
    "{\"userIds\":["@ + spec_ids_csv(users) + "],\"excludeBannedUsers\":"@ + spec_bool_str(
        exclude_banned_users,
    ) + "}"@
}

/// Serializes a users-by-identifier batch request.
pub fn user_ids_body(users: &Vec<Id>, exclude_banned_users: bool) -> (r: String)
    ensures
        r@ == spec_user_ids_body(users@, exclude_banned_users),
{
    let mut r = String::from_str("{\"userIds\":[");
    let csv = ids_csv(users);
    r.append(csv.as_str());
    r.append("],\"excludeBannedUsers\":");
    r.append(bool_str(exclude_banned_users));
    r.append("}");
    r
}

/// Usernames as JSON string literals, joined by commas.
pub open spec fn spec_json_strings_csv(xs: Seq<Seq<char>>) -> Seq<char>
    decreases xs.len(),
{
    if xs.len() == 0 {
        Seq::empty()
    } else if xs.len() == 1 {
        json::spec_json_string(xs[0])
    } else {
        spec_json_strings_csv(xs.drop_last()) + seq![','] + json::spec_json_string(xs.last())
    }
}

/// The views of a list of strings.
pub open spec fn str_views(xs: Seq<String>) -> Seq<Seq<char>> {
    Seq::new(
        xs.len(),
        |i: int|
            if 0 <= i < xs.len() {
                xs[i]@
            } else {
                Seq::empty()
            },
    )
}

/// The body of a users-by-username batch request.
pub open spec fn spec_usernames_body(usernames: Seq<Seq<char>>, exclude_banned_users: bool) -> Seq<
    char,
> {
    "{\"usernames\":["@ + spec_json_strings_csv(usernames) + "],\"excludeBannedUsers\":"@
        + spec_bool_str(exclude_banned_users) + "}"@
}

/// Serializes a users-by-username batch request; each username is written
/// as an escaped JSON string.
pub fn usernames_body(usernames: &Vec<String>, exclude_banned_users: bool) -> (r: String)
    ensures
        r@ == spec_usernames_body(str_views(usernames@), exclude_banned_users),
{
    let ghost names = str_views(usernames@);
    let mut r = String::from_str("{\"usernames\":[");
    let ghost start = r@;
    let mut k: usize = 0;
    while k < usernames.len()
        invariant
            k <= usernames@.len(),
            names == str_views(usernames@),
            r@ == start + spec_json_strings_csv(names.take(k as int)),
        decreases usernames@.len() - k,
    {
        if k > 0 {
            r.append(",");
            proof {
                reveal_strlit(",");
                assert(","@ =~= seq![',']);
            }
        }
        json::append_json_string(&mut r, usernames[k].as_str());
        proof {
            assert(names.take(k as int + 1).drop_last() =~= names.take(k as int));
            assert(names.take(k as int + 1).last() == names[k as int]);
            if k == 0 {
                assert(names.take(1).len() == 1);
                assert(start + spec_json_strings_csv(names.take(1)) =~= start
                    + json::spec_json_string(names[0]));
            }
            assert(r@ =~= start + spec_json_strings_csv(names.take(k as int + 1)));
        }
        k = k + 1;
    }
    proof {
        assert(names.take(usernames@.len() as int) =~= names);
        assert(spec_json_strings_csv(names.take(0)) =~= Seq::<char>::empty());
    }
    r.append("],\"excludeBannedUsers\":");
    r.append(bool_str(exclude_banned_users));
    r.append("}");
    r
}

} // verus!
