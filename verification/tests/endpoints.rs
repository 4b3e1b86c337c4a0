//! The endpoint modules' URLs, queries and bodies.

use roblox_api::apis::economy::{group_funds_from_body, group_funds_url};
use roblox_api::apis::games::{
    place_details_query, place_details_url, public_servers_query, public_servers_url, ServerType,
};
use roblox_api::apis::general::{universe_from_body, universe_url};
use roblox_api::apis::groups::{
    captcha_body, claim_group_url, group_ids_query, group_info_url, group_members_query,
    group_members_url, group_metadata_url, groups_batch_url, join_group_url, remove_user_url,
    SolvedCaptcha,
};
use roblox_api::apis::thumbnails::{
    batch_body, batch_request_body, batch_thumbnail_results, batch_thumbnails_url, BatchRequest,
    BatchThumbnailResultExt, InnerBatchThumbnail, ThumbnailErrorState, ThumbnailFormat,
    ThumbnailSize, ThumbnailState, ThumbnailType, ThumbnailVersion,
};
use roblox_api::apis::users::{
    authenticated_user_from_body, authenticated_user_url, user_ids_body, usernames_batch_url,
    usernames_body, users_batch_url,
};
use roblox_api::apis::{
    Id, MembershipType, OptionId, RequestLimit, SortOrder, SortOrderDefaultAscending,
    SortOrderDefaultDescending,
};
use roblox_api::utils::{is_default, option_id_is_none};

fn id(n: u64) -> Id {
    Id::new(n).unwrap()
}

#[test]
fn economy_urls_and_decoding() {
    assert_eq!(
        group_funds_url(id(5)),
        "https://economy.roblox.com/v1/groups/5/currency"
    );
    assert_eq!(group_funds_from_body("{\"robux\":120}"), Some(120));
    assert_eq!(group_funds_from_body("{\"robux\":-1}"), None);
    assert_eq!(group_funds_from_body("{\"coins\":120}"), None);
    assert_eq!(group_funds_from_body("[]"), None);
}

#[test]
fn universe_lookup_urls_and_decoding() {
    assert_eq!(
        universe_url(id(77)),
        "https://apis.roblox.com/universes/v1/places/77/universe"
    );
    assert!(matches!(
        universe_from_body("{\"universeId\":null}"),
        Some(OptionId::Absent)
    ));
    match universe_from_body("{\"universeId\":88}") {
        Some(OptionId::Present(u)) => assert_eq!(u.get(), 88),
        other => panic!("88 must decode to a present id, got {other:?}"),
    }
    assert!(universe_from_body("{\"universeId\":0}").is_none());
    assert!(universe_from_body("{}").is_none());
}

#[test]
fn group_urls() {
    assert_eq!(group_info_url(id(9)), "https://groups.roblox.com/v1/groups/9");
    assert_eq!(
        group_metadata_url(),
        "https://groups.roblox.com/v1/groups/metadata"
    );
    assert_eq!(groups_batch_url(), "https://groups.roblox.com/v2/groups");
    assert_eq!(
        group_members_url(),
        "https://groups.roblox.com//v1/groups/{}/users"
    );
    assert_eq!(
        join_group_url(id(12)),
        "https://groups.roblox.com/v1/groups/12/users"
    );
    assert_eq!(
        claim_group_url(id(12)),
        "https://groups.roblox.com/v1/groups/12/claim-ownership"
    );
    assert_eq!(
        remove_user_url(id(12), id(34)),
        "https://groups.roblox.com/v1/groups/12/users/34"
    );
}

#[test]
fn group_batch_query_joins_ids() {
    let q = group_ids_query(&vec![id(1), id(22), id(333)]);
    assert_eq!(q, vec![(String::from("groupIds"), String::from("1,22,333"))]);
}

#[test]
fn group_members_query_omits_defaults() {
    let q = group_members_query(id(7), RequestLimit::Ten, None, SortOrder::Ascending);
    assert_eq!(q, vec![(String::from("group"), String::from("7"))]);

    let q = group_members_query(
        id(7),
        RequestLimit::OneHundred,
        Some("curs"),
        SortOrder::Descending,
    );
    assert_eq!(
        q,
        vec![
            (String::from("group"), String::from("7")),
            (String::from("limit"), String::from("100")),
            (String::from("cursor"), String::from("curs")),
            (String::from("sortOrder"), String::from("2")),
        ]
    );
}

#[test]
fn captcha_body_escapes_fields() {
    let c = SolvedCaptcha {
        session_id: String::from("s"),
        redemption_token: String::from("r\"t"),
        captcha_id: String::from("ci"),
        captcha_token: String::from("ct"),
        captcha_provider: String::from("p"),
        challenge_id: String::from("ch"),
    };
    assert_eq!(
        captcha_body(&c),
        "{\"sessionId\":\"s\",\"redemptionToken\":\"r\\\"t\",\"captchaId\":\"ci\",\
         \"captchaToken\":\"ct\",\"captchaProvider\":\"p\",\"challengeId\":\"ch\"}"
    );
}

#[test]
fn user_urls_and_bodies() {
    assert_eq!(
        authenticated_user_url(),
        "https://users.roblox.com/v1/users/authenticated"
    );
    assert_eq!(users_batch_url(), "https://users.roblox.com/v1/users");
    assert_eq!(
        usernames_batch_url(),
        "https://users.roblox.com/v1/usernames/users"
    );
    assert_eq!(
        user_ids_body(&vec![id(1), id(2)], false),
        "{\"userIds\":[1,2],\"excludeBannedUsers\":false}"
    );
    assert_eq!(
        user_ids_body(&vec![], true),
        "{\"userIds\":[],\"excludeBannedUsers\":true}"
    );
    assert_eq!(
        usernames_body(&vec![String::from("ann"), String::from("bo\"b")], true),
        "{\"usernames\":[\"ann\",\"bo\\\"b\"],\"excludeBannedUsers\":true}"
    );
}

#[test]
fn authenticated_user_decoding() {
    let user =
        authenticated_user_from_body("{\"id\":42,\"name\":\"ann\",\"displayName\":\"Ann\"}")
            .unwrap();
    assert_eq!(user.id.get(), 42);
    assert_eq!(user.name, "ann");
    assert_eq!(user.display_name, "Ann");
    assert!(authenticated_user_from_body("{\"id\":0,\"name\":\"a\",\"displayName\":\"A\"}").is_none());
    assert!(authenticated_user_from_body("{\"name\":\"a\",\"displayName\":\"A\"}").is_none());
    assert!(authenticated_user_from_body("[]").is_none());
}

#[test]
fn game_urls_and_queries() {
    assert_eq!(
        place_details_url(),
        "https://www.roblox.com/places/api-get-details"
    );
    assert_eq!(
        place_details_query(id(42)),
        vec![(String::from("assetId"), String::from("42"))]
    );
    assert_eq!(
        public_servers_url(id(42), ServerType::Public),
        "https://games.roblox.com/v1/games/42/servers/0"
    );
    assert_eq!(
        public_servers_url(id(42), ServerType::Friend),
        "https://games.roblox.com/v1/games/42/servers/1"
    );

    let q = public_servers_query(SortOrder::Ascending, false, RequestLimit::Ten, None);
    assert!(q.is_empty());

    let q = public_servers_query(
        SortOrder::Descending,
        true,
        RequestLimit::TwentyFive,
        Some("c"),
    );
    assert_eq!(
        q,
        vec![
            (String::from("sortOrder"), String::from("2")),
            (String::from("excludeFullGames"), String::from("true")),
            (String::from("limit"), String::from("25")),
            (String::from("cursor"), String::from("c")),
        ]
    );
}

#[test]
fn thumbnail_batch_bodies_omit_defaults() {
    assert_eq!(
        batch_thumbnails_url(),
        "https://thumbnails.roblox.com/v1/batch"
    );
    let plain = BatchRequest {
        request_id: None,
        target_id: OptionId::Present(id(42)),
        token: None,
        alias: None,
        thumbnail_type: ThumbnailType::GameIcon,
        size: ThumbnailSize::_420x420,
        format: ThumbnailFormat::Webp,
        circular: false,
    };
    assert_eq!(
        batch_request_body(&plain),
        "{\"targetId\":42,\"type\":3,\"size\":\"420x420\"}"
    );

    let full = BatchRequest {
        request_id: Some(String::from("req-1")),
        target_id: OptionId::Absent,
        token: Some(String::from("tk")),
        alias: Some(String::from("al")),
        thumbnail_type: ThumbnailType::Avatar,
        size: ThumbnailSize::_30x30,
        format: ThumbnailFormat::Png,
        circular: true,
    };
    assert_eq!(
        batch_request_body(&full),
        "{\"requestId\":\"req-1\",\"token\":\"tk\",\"alias\":\"al\",\"type\":1,\
         \"size\":\"30x30\",\"format\":\"Png\",\"isCircular\":true}"
    );

    assert_eq!(
        batch_body(&vec![plain.clone(), plain]),
        "[{\"targetId\":42,\"type\":3,\"size\":\"420x420\"},\
         {\"targetId\":42,\"type\":3,\"size\":\"420x420\"}]"
    );
}

#[test]
fn thumbnail_results_split_on_state() {
    let done = InnerBatchThumbnail {
        request_id: Some(String::from("a")),
        error_code: 0,
        error_message: String::new(),
        target_id: OptionId::Present(id(1)),
        state: ThumbnailState::Completed,
        image_url: Some(String::from("https://img.test/1")),
        version: Some(ThumbnailVersion::TN3),
    };
    let failed = InnerBatchThumbnail {
        request_id: None,
        error_code: 2,
        error_message: String::from("blocked"),
        target_id: OptionId::Absent,
        state: ThumbnailState::Blocked,
        image_url: None,
        version: None,
    };
    let rs = batch_thumbnail_results(vec![done, failed]);
    assert_eq!(rs.len(), 2);
    match &rs[0] {
        Ok(t) => {
            assert_eq!(t.image_url, "https://img.test/1");
            assert_eq!(rs[0].request_id(), Some("a"));
            assert_eq!(rs[0].target_id().get(), Some(1));
        }
        Err(_) => panic!("a completed entry yields the thumbnail"),
    }
    match &rs[1] {
        Err(e) => {
            assert_eq!(e.error_code, 2);
            assert_eq!(e.error_message, "blocked");
            assert!(matches!(e.state, ThumbnailErrorState::Blocked));
            assert!(rs[1].request_id().is_none());
            assert!(rs[1].target_id().is_none());
        }
        Ok(_) => panic!("a blocked entry yields the error"),
    }
}

#[test]
fn wire_enumerations() {
    assert_eq!(RequestLimit::Ten.wire_value(), 10);
    assert_eq!(RequestLimit::TwentyFive.wire_value(), 25);
    assert_eq!(RequestLimit::Fifty.wire_value(), 50);
    assert_eq!(RequestLimit::OneHundred.wire_value(), 100);
    assert_eq!(RequestLimit::default(), RequestLimit::Ten);

    assert_eq!(MembershipType::from_wire(0), Some(MembershipType::NoMembership));
    assert_eq!(MembershipType::from_wire(4), Some(MembershipType::Premium));
    assert_eq!(MembershipType::from_wire(5), None);
    assert_eq!(MembershipType::default(), MembershipType::NoMembership);

    assert_eq!(
        SortOrderDefaultAscending::from(SortOrder::Descending),
        SortOrderDefaultAscending::Descending
    );
    assert_eq!(
        SortOrderDefaultAscending::default(),
        SortOrderDefaultAscending::Ascending
    );
    assert_eq!(
        SortOrderDefaultDescending::from(SortOrder::Ascending),
        SortOrderDefaultDescending::Ascending
    );
    assert_eq!(
        SortOrderDefaultDescending::default(),
        SortOrderDefaultDescending::Descending
    );

    assert_eq!(ThumbnailType::Look.wire_value(), 17);
    assert_eq!(ThumbnailSize::_768x432.wire_str(), "768x432");
    assert_eq!(ThumbnailFormat::Jpeg.wire_str(), "Jpeg");

    assert!(is_default(&RequestLimit::Ten));
    assert!(!is_default(&RequestLimit::Fifty));
    assert!(option_id_is_none(&OptionId::Absent));
    assert!(!option_id_is_none(&OptionId::Present(id(3))));
}
