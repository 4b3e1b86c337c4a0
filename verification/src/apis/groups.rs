//! The group endpoints: what the core computes for them.

use vstd::prelude::*;
use vstd::string::*;

use crate::apis::{
    ids_csv, spec_ids_csv, Id, RequestLimit, SortOrder, SortOrderDefaultAscending,
};
use crate::clients::pair_views;
use crate::json;

verus! {

/// Metadata for joining a group when the platform demanded a captcha; the
/// solved challenge is passed through opaquely, never interpreted.
#[derive(Debug, Clone)]
pub struct SolvedCaptcha {
    pub session_id: String,
    pub redemption_token: String,
    pub captcha_id: String,
    pub captcha_token: String,
    pub captcha_provider: String,
    pub challenge_id: String,
}

/// Who owns a group; the platform only ever reports a user.
#[derive(Debug, PartialEq, Eq, Structural, Clone, Copy)]
pub enum GroupOwnerType {
    User,
}

/// Platform-wide group settings.
#[derive(Debug, PartialEq, Eq, Structural, Clone, Copy)]
pub struct GroupMetadata {
    pub group_limit: u32,
    pub current_group_count: u32,
    pub group_status_max_length: u32,
    pub group_post_max_length: u32,
    pub group_wall_notifications_enabled: bool,
    pub group_wall_notifications_subscribe_interval: u32,
    pub profile_groups_hidden: bool,
    pub group_details_policy_enabled: bool,
    pub show_previous_group_names: bool,
}

/// The URL of one group's info endpoint.
pub fn group_info_url(group: Id) -> (r: String)
    ensures
        r@ == "https://groups.roblox.com/v1/groups/"@ + json::u64_dec(group.spec_get() as nat),
{
    let mut r = String::from_str("https://groups.roblox.com/v1/groups/");
    let id = group.to_dec_string();
    r.append(id.as_str());
    r
}

/// The URL of the group metadata endpoint.
pub fn group_metadata_url() -> (r: &'static str)
    ensures
        r@ == "https://groups.roblox.com/v1/groups/metadata"@,
{
    "https://groups.roblox.com/v1/groups/metadata"
}

/// The URL of the batched group info endpoint.
pub fn groups_batch_url() -> (r: &'static str)
    ensures
        r@ == "https://groups.roblox.com/v2/groups"@,
{
    "https://groups.roblox.com/v2/groups"
}

/// The query of the batched group info endpoint: the requested group
/// identifiers, comma-joined under `groupIds`.
pub fn group_ids_query(groups: &Vec<Id>) -> (r: Vec<(String, String)>)
    ensures
        pair_views(r@) == seq![("groupIds"@, spec_ids_csv(groups@))],
{
    let mut r: Vec<(String, String)> = Vec::new();
    r.push((String::from_str("groupIds"), ids_csv(groups)));
    proof {
        assert(pair_views(r@) =~= seq![("groupIds"@, spec_ids_csv(groups@))]);
    }
    r
}

/// The URL of the group members listing. The group is carried in the
/// query, not in the path.
pub fn group_members_url() -> (r: &'static str)
    ensures
        r@ == "https://groups.roblox.com//v1/groups/{}/users"@,
{
    "https://groups.roblox.com//v1/groups/{}/users"
}

/// The query pairs of one group members page. Fields carrying their
/// default are omitted: the limit when it is ten, the sort order when it
/// is ascending, the cursor when there is none.
pub open spec fn spec_members_query(
    group: Id,
    limit: RequestLimit,
    cursor: Option<Seq<char>>,
    sort_order: SortOrder,
) -> Seq<(Seq<char>, Seq<char>)> {
    let q0 = seq![("group"@, json::u64_dec(group.spec_get() as nat))];
    let q1 = if !(limit is Ten) {
        q0.push(("limit"@, json::u64_dec(limit.spec_wire_value() as nat)))
    } else {
        q0
    };
    let q2 = match cursor {
        Some(c) => q1.push(("cursor"@, c)),
        None => q1,
    };
    if sort_order is Descending {
        q2.push(("sortOrder"@, "2"@))
    } else {
        q2
    }
}

/// Builds the query of one group members page.
pub fn group_members_query(
    group: Id,
    limit: RequestLimit,
    cursor: Option<&str>,
    sort_order: SortOrder,
) -> (r: Vec<(String, String)>)
    ensures
        pair_views(r@) == spec_members_query(
            group,
            limit,
            match cursor {
                Some(c) => Some(c@),
                None => None,
            },
            sort_order,
        ),
{
    let mut r: Vec<(String, String)> = Vec::new();
    r.push((String::from_str("group"), group.to_dec_string()));
    if !(limit == RequestLimit::Ten) {
        r.push((String::from_str("limit"), String::from_str(limit.query_str())));
    }
    match cursor {
        Some(c) => {
            r.push((String::from_str("cursor"), String::from_str(c)));
        },
        None => {},
    }
    let wire: SortOrderDefaultAscending = SortOrderDefaultAscending::from(sort_order);
    if wire == SortOrderDefaultAscending::Descending {
        r.push((String::from_str("sortOrder"), String::from_str(wire.query_str())));
    }
    proof {
        assert(pair_views(r@) =~= spec_members_query(
            group,
            limit,
            match cursor {
                Some(c) => Some(c@),
                None => None,
            },
            sort_order,
        ));
    }
    r
}

/// The URL for joining a group.
pub fn join_group_url(group: Id) -> (r: String)
    ensures
        r@ == "https://groups.roblox.com/v1/groups/"@ + json::u64_dec(group.spec_get() as nat)
            + "/users"@,
{
    let mut r = String::from_str("https://groups.roblox.com/v1/groups/");
    let id = group.to_dec_string();
    r.append(id.as_str());
    r.append("/users");
    r
}

/// The URL for claiming a group's ownership.
pub fn claim_group_url(group: Id) -> (r: String)
    ensures
        r@ == "https://groups.roblox.com/v1/groups/"@ + json::u64_dec(group.spec_get() as nat)
            + "/claim-ownership"@,
{
    let mut r = String::from_str("https://groups.roblox.com/v1/groups/");
    let id = group.to_dec_string();
    r.append(id.as_str());
    r.append("/claim-ownership");
    r
}

/// The URL for removing a user from a group.
pub fn remove_user_url(group: Id, target: Id) -> (r: String)
    ensures
        r@ == "https://groups.roblox.com/v1/groups/"@ + json::u64_dec(group.spec_get() as nat)
            + "/users/"@ + json::u64_dec(target.spec_get() as nat),
{
    let mut r = String::from_str("https://groups.roblox.com/v1/groups/");
    let gid = group.to_dec_string();
    r.append(gid.as_str());
    r.append("/users/");
    let tid = target.to_dec_string();
    r.append(tid.as_str());
    r
}

/// The body of a join-group request carrying a solved captcha: every
/// challenge field as a JSON string, in the wire's member order.
pub open spec fn spec_captcha_body(c: SolvedCaptcha) -> Seq<char> {
    "{\"sessionId\":"@ + json::spec_json_string(c.session_id@) + ",\"redemptionToken\":"@
        + json::spec_json_string(c.redemption_token@) + ",\"captchaId\":"@
        + json::spec_json_string(c.captcha_id@) + ",\"captchaToken\":"@
        + json::spec_json_string(c.captcha_token@) + ",\"captchaProvider\":"@
        + json::spec_json_string(c.captcha_provider@) + ",\"challengeId\":"@
        + json::spec_json_string(c.challenge_id@) + "}"@
}

/// Serializes a solved captcha for the join-group request.
pub fn captcha_body(c: &SolvedCaptcha) -> (r: String)
    ensures
        r@ == spec_captcha_body(*c),
{
    let mut r = String::from_str("{\"sessionId\":");
    json::append_json_string(&mut r, c.session_id.as_str());
    r.append(",\"redemptionToken\":");
    json::append_json_string(&mut r, c.redemption_token.as_str());
    r.append(",\"captchaId\":");
    json::append_json_string(&mut r, c.captcha_id.as_str());
    r.append(",\"captchaToken\":");
    json::append_json_string(&mut r, c.captcha_token.as_str());
    r.append(",\"captchaProvider\":");
    json::append_json_string(&mut r, c.captcha_provider.as_str());
    r.append(",\"challengeId\":");
    json::append_json_string(&mut r, c.challenge_id.as_str());
    r.append("}");
    r
}

} // verus!
