//! The thumbnail endpoints: what the core computes for them.

use vstd::prelude::*;
use vstd::string::*;

use crate::apis::{bool_str, opt_view, OptionId};
use crate::json;

verus! {

/// The image format a thumbnail is requested in.
#[derive(Debug, PartialEq, Eq, Structural, Clone, Copy)]
pub enum ThumbnailFormat {
    Webp,
    Png,
    Jpeg,
}

impl ThumbnailFormat {
    /// The wire name of the format.
    pub open spec fn spec_wire_str(&self) -> Seq<char> {
        match self {
            ThumbnailFormat::Webp => "Webp"@,
            ThumbnailFormat::Png => "Png"@,
            ThumbnailFormat::Jpeg => "Jpeg"@,
        }
    }

    /// The wire name of the format.
    pub fn wire_str(&self) -> (r: &'static str)
        ensures
            r@ == self.spec_wire_str(),
    {
        match self {
            ThumbnailFormat::Webp => "Webp",
            ThumbnailFormat::Png => "Png",
            ThumbnailFormat::Jpeg => "Jpeg",
        }
    }
}

impl Default for ThumbnailFormat {
    /// Thumbnails default to WebP.
    fn default() -> (r: Self)
        ensures
            r == ThumbnailFormat::Webp,
    {
        ThumbnailFormat::Webp
    }
}

/// The pixel size a thumbnail is requested in.
#[derive(Debug, PartialEq, Eq, Structural, Clone, Copy)]
pub enum ThumbnailSize {
    _30x30,
    _42x42,
    _48x48,
    _50x50,
    _60x60,
    _60x62,
    _75x75,
    _100x100,
    _110x110,
    _140x140,
    _150x150,
    _180x180,
    _160x100,
    _160x600,
    _250x250,
    _256x144,
    _300x250,
    _352x352,
    _304x166,
    _384x216,
    _396x216,
    _420x420,
    _480x270,
    _512x512,
    _576x324,
    _700x700,
    _720x720,
    _728x90,
    _768x432,
    _1200x80,
    _256x256,
    _128x128,
}

impl ThumbnailSize {
    /// The wire name of the size, as `width x height`.
    pub open spec fn spec_wire_str(&self) -> Seq<char> {
        match self {
            ThumbnailSize::_30x30 => "30x30"@,
            ThumbnailSize::_42x42 => "42x42"@,
            ThumbnailSize::_48x48 => "48x48"@,
            ThumbnailSize::_50x50 => "50x50"@,
            ThumbnailSize::_60x60 => "60x60"@,
            ThumbnailSize::_60x62 => "60x62"@,
            ThumbnailSize::_75x75 => "75x75"@,
            ThumbnailSize::_100x100 => "100x100"@,
            ThumbnailSize::_110x110 => "110x110"@,
            ThumbnailSize::_140x140 => "140x140"@,
            ThumbnailSize::_150x150 => "150x150"@,
            ThumbnailSize::_180x180 => "180x180"@,
            ThumbnailSize::_160x100 => "160x100"@,
            ThumbnailSize::_160x600 => "160x600"@,
            ThumbnailSize::_250x250 => "250x250"@,
            ThumbnailSize::_256x144 => "256x144"@,
            ThumbnailSize::_300x250 => "300x250"@,
            ThumbnailSize::_352x352 => "352x352"@,
            ThumbnailSize::_304x166 => "304x166"@,
            ThumbnailSize::_384x216 => "384x216"@,
            ThumbnailSize::_396x216 => "396x216"@,
            ThumbnailSize::_420x420 => "420x420"@,
            ThumbnailSize::_480x270 => "480x270"@,
            ThumbnailSize::_512x512 => "512x512"@,
            ThumbnailSize::_576x324 => "576x324"@,
            ThumbnailSize::_700x700 => "700x700"@,
            ThumbnailSize::_720x720 => "720x720"@,
            ThumbnailSize::_728x90 => "728x90"@,
            ThumbnailSize::_768x432 => "768x432"@,
            ThumbnailSize::_1200x80 => "1200x80"@,
            ThumbnailSize::_256x256 => "256x256"@,
            ThumbnailSize::_128x128 => "128x128"@,
        }
    }

    /// The wire name of the size.
    pub fn wire_str(&self) -> (r: &'static str)
        ensures
            r@ == self.spec_wire_str(),
    {
        match self {
            ThumbnailSize::_30x30 => "30x30",
            ThumbnailSize::_42x42 => "42x42",
            ThumbnailSize::_48x48 => "48x48",
            ThumbnailSize::_50x50 => "50x50",
            ThumbnailSize::_60x60 => "60x60",
            ThumbnailSize::_60x62 => "60x62",
            ThumbnailSize::_75x75 => "75x75",
            ThumbnailSize::_100x100 => "100x100",
            ThumbnailSize::_110x110 => "110x110",
            ThumbnailSize::_140x140 => "140x140",
            ThumbnailSize::_150x150 => "150x150",
            ThumbnailSize::_180x180 => "180x180",
            ThumbnailSize::_160x100 => "160x100",
            ThumbnailSize::_160x600 => "160x600",
            ThumbnailSize::_250x250 => "250x250",
            ThumbnailSize::_256x144 => "256x144",
            ThumbnailSize::_300x250 => "300x250",
            ThumbnailSize::_352x352 => "352x352",
            ThumbnailSize::_304x166 => "304x166",
            ThumbnailSize::_384x216 => "384x216",
            ThumbnailSize::_396x216 => "396x216",
            ThumbnailSize::_420x420 => "420x420",
            ThumbnailSize::_480x270 => "480x270",
            ThumbnailSize::_512x512 => "512x512",
            ThumbnailSize::_576x324 => "576x324",
            ThumbnailSize::_700x700 => "700x700",
            ThumbnailSize::_720x720 => "720x720",
            ThumbnailSize::_728x90 => "728x90",
            ThumbnailSize::_768x432 => "768x432",
            ThumbnailSize::_1200x80 => "1200x80",
            ThumbnailSize::_256x256 => "256x256",
            ThumbnailSize::_128x128 => "128x128",
        }
    }
}

impl Default for ThumbnailSize {
    /// The smallest size is the default.
    fn default() -> (r: Self)
        ensures
            r == ThumbnailSize::_30x30,
    {
        ThumbnailSize::_30x30
    }
}

/// What a thumbnail depicts.
#[derive(Debug, PartialEq, Eq, Structural, Clone, Copy)]
pub enum ThumbnailType {
    Avatar,
    AvatarHeadShot,
    GameIcon,
    BadgeIcon,
    GameThumbnail,
    GamePass,
    Asset,
    BundleThumbnail,
    Outfit,
    GroupIcon,
    DeveloperProduct,
    AutoGeneratedAsset,
    AvatarBust,
    PlaceIcon,
    AutoGeneratedGameIcon,
    ForceAutoGeneratedGameIcon,
    Look,
}

impl ThumbnailType {
    /// The numeric wire value, counting from one in declaration order.
    pub open spec fn spec_wire_value(&self) -> u8 {
        match self {
            ThumbnailType::Avatar => 1,
            ThumbnailType::AvatarHeadShot => 2,
            ThumbnailType::GameIcon => 3,
            ThumbnailType::BadgeIcon => 4,
            ThumbnailType::GameThumbnail => 5,
            ThumbnailType::GamePass => 6,
            ThumbnailType::Asset => 7,
            ThumbnailType::BundleThumbnail => 8,
            ThumbnailType::Outfit => 9,
            ThumbnailType::GroupIcon => 10,
            ThumbnailType::DeveloperProduct => 11,
            ThumbnailType::AutoGeneratedAsset => 12,
            ThumbnailType::AvatarBust => 13,
            ThumbnailType::PlaceIcon => 14,
            ThumbnailType::AutoGeneratedGameIcon => 15,
            ThumbnailType::ForceAutoGeneratedGameIcon => 16,
            ThumbnailType::Look => 17,
        }
    }

    /// The numeric wire value.
    pub fn wire_value(&self) -> (r: u8)
        ensures
            r == self.spec_wire_value(),
    {
        match self {
            ThumbnailType::Avatar => 1,
            ThumbnailType::AvatarHeadShot => 2,
            ThumbnailType::GameIcon => 3,
            ThumbnailType::BadgeIcon => 4,
            ThumbnailType::GameThumbnail => 5,
            ThumbnailType::GamePass => 6,
            ThumbnailType::Asset => 7,
            ThumbnailType::BundleThumbnail => 8,
            ThumbnailType::Outfit => 9,
            ThumbnailType::GroupIcon => 10,
            ThumbnailType::DeveloperProduct => 11,
            ThumbnailType::AutoGeneratedAsset => 12,
            ThumbnailType::AvatarBust => 13,
            ThumbnailType::PlaceIcon => 14,
            ThumbnailType::AutoGeneratedGameIcon => 15,
            ThumbnailType::ForceAutoGeneratedGameIcon => 16,
            ThumbnailType::Look => 17,
        }
    }
}

impl Default for ThumbnailType {
    /// An avatar thumbnail is the default.
    fn default() -> (r: Self)
        ensures
            r == ThumbnailType::Avatar,
    {
        ThumbnailType::Avatar
    }
}

/// The fetch state the platform reports for one thumbnail.
#[derive(Debug, PartialEq, Eq, Structural, Clone, Copy)]
pub enum ThumbnailState {
    Completed,
    Blocked,
    Error,
    InReview,
    Pending,
    TemporarilyUnavailable,
}

/// The states under which a thumbnail fetch did not complete.
#[derive(Debug, PartialEq, Eq, Structural, Clone, Copy)]
pub enum ThumbnailErrorState {
    Error,
    Blocked,
    InReview,
    Pending,
    TemporarilyUnavailable,
}

impl ThumbnailErrorState {
    /// The error state matching a fetch state. A completed fetch names no
    /// error and is left out of the domain.
    pub fn from_state(value: ThumbnailState) -> (r: Self)
        requires
            !(value is Completed),
        ensures
            value is Blocked ==> r == ThumbnailErrorState::Blocked,
            value is Error ==> r == ThumbnailErrorState::Error,
            value is InReview ==> r == ThumbnailErrorState::InReview,
            value is Pending ==> r == ThumbnailErrorState::Pending,
            value is TemporarilyUnavailable ==> r == ThumbnailErrorState::TemporarilyUnavailable,
    {
        match value {
            ThumbnailState::Completed => ThumbnailErrorState::Error,
            ThumbnailState::Blocked => ThumbnailErrorState::Blocked,
            ThumbnailState::Error => ThumbnailErrorState::Error,
            ThumbnailState::InReview => ThumbnailErrorState::InReview,
            ThumbnailState::Pending => ThumbnailErrorState::Pending,
            ThumbnailState::TemporarilyUnavailable => ThumbnailErrorState::TemporarilyUnavailable,
        }
    }
}

/// The rendering pipeline version of a served thumbnail.
#[derive(Debug, PartialEq, Eq, Structural, Clone, Copy)]
pub enum ThumbnailVersion {
    TN3,
}

/// One request of a thumbnail batch.
#[derive(Debug, Clone)]
pub struct BatchRequest {
    pub request_id: Option<String>,
    pub target_id: OptionId,
    pub token: Option<String>,
    pub alias: Option<String>,
    pub thumbnail_type: ThumbnailType,
    pub size: ThumbnailSize,
    pub format: ThumbnailFormat,
    pub circular: bool,
}

/// One entry of a thumbnail batch response, as it arrives on the wire.
#[derive(Debug, Clone)]
pub struct InnerBatchThumbnail {
    pub request_id: Option<String>,
    pub error_code: i8,
    pub error_message: String,
    pub target_id: OptionId,
    pub state: ThumbnailState,
    pub image_url: Option<String>,
    pub version: Option<ThumbnailVersion>,
}

/// A served thumbnail.
#[derive(Debug, Clone)]
pub struct BatchThumbnail {
    pub request_id: Option<String>,
    pub target_id: OptionId,
    pub version: ThumbnailVersion,
    pub image_url: String,
}

/// A thumbnail the platform could not serve.
#[derive(Debug, Clone)]
pub struct BatchThumbnailError {
    pub request_id: Option<String>,
    pub target_id: OptionId,
    pub error_code: i8,
    pub error_message: String,
    pub state: ThumbnailErrorState,
}

/// What one batch entry yields: the thumbnail, or why there is none.
pub type BatchThumbnailResult = Result<BatchThumbnail, BatchThumbnailError>;

/// Whether a wire entry may be turned into a result: a completed entry
/// must carry its image URL and version.
pub open spec fn inner_thumbnail_complete(inner: InnerBatchThumbnail) -> bool {
    inner.state is Completed ==> inner.image_url is Some && inner.version is Some
}

/// How a wire entry and its result relate: a completed entry yields the
/// thumbnail, any other entry yields the error with the matching state.
pub open spec fn thumbnail_result_matches(
    inner: InnerBatchThumbnail,
    r: BatchThumbnailResult,
) -> bool {
    match inner.state {
        ThumbnailState::Completed => r matches Ok(t) && opt_view(t.request_id) == opt_view(
            inner.request_id,
        ) && t.target_id == inner.target_id && Some(t.version) == inner.version && Some(
            t.image_url@,
        ) == opt_view(inner.image_url),
        _ => r matches Err(e) && opt_view(e.request_id) == opt_view(inner.request_id)
            && e.target_id == inner.target_id && e.error_code == inner.error_code
            && e.error_message@ == inner.error_message@ && (match inner.state {
            ThumbnailState::Blocked => e.state == ThumbnailErrorState::Blocked,
            ThumbnailState::Error => e.state == ThumbnailErrorState::Error,
            ThumbnailState::InReview => e.state == ThumbnailErrorState::InReview,
            ThumbnailState::Pending => e.state == ThumbnailErrorState::Pending,
            ThumbnailState::TemporarilyUnavailable => e.state
                == ThumbnailErrorState::TemporarilyUnavailable,
            ThumbnailState::Completed => false,
        }),
    }
}

/// Turns one wire entry into its result.
pub fn batch_thumbnail_result(value: InnerBatchThumbnail) -> (r: BatchThumbnailResult)
    requires
        inner_thumbnail_complete(value),
    ensures
        thumbnail_result_matches(value, r),
{
    match value.state {
        ThumbnailState::Completed => {
            let version = match value.version {
                Some(v) => v,
                None => ThumbnailVersion::TN3,
            };
            let image_url = match value.image_url {
                Some(u) => u,
                None => String::new(),
            };
            Ok(
                BatchThumbnail {
                    request_id: value.request_id,
                    target_id: value.target_id,
                    version,
                    image_url,
                },
            )
        },
        _ => Err(
            BatchThumbnailError {
                request_id: value.request_id,
                target_id: value.target_id,
                error_code: value.error_code,
                error_message: value.error_message,
                state: ThumbnailErrorState::from_state(value.state),
            },
        ),
    }
}

/// Turns a whole batch response into results, entry by entry, keeping the
/// server's order.
pub fn batch_thumbnail_results(values: Vec<InnerBatchThumbnail>) -> (r: Vec<BatchThumbnailResult>)
    requires
        forall|i: int|
            0 <= i < values@.len() ==> inner_thumbnail_complete(#[trigger] values@[i]),
    ensures
        r@.len() == values@.len(),
        forall|i: int|
            0 <= i < values@.len() ==> thumbnail_result_matches(
                values@[i],
                #[trigger] r@[i],
            ),
{
    let ghost vs = values@;
    let mut values = values;
    let mut r: Vec<BatchThumbnailResult> = Vec::new();
    proof {
        assert(vs.skip(0) =~= vs);
    }
    while values.len() > 0
        invariant
            r@.len() + values@.len() == vs.len(),
            values@ == vs.skip(r@.len() as int),
            forall|i: int| 0 <= i < vs.len() ==> inner_thumbnail_complete(#[trigger] vs[i]),
            forall|i: int|
                0 <= i < r@.len() ==> thumbnail_result_matches(vs[i], #[trigger] r@[i]),
        decreases values@.len(),
    {
        let ghost j = r@.len() as int;
        let inner = values.remove(0);
        proof {
            assert(inner == vs.skip(j)[0]);
            assert(vs.skip(j)[0] == vs[j]);
            assert(values@ =~= vs.skip(j + 1));
        }
        r.push(batch_thumbnail_result(inner));
    }
    r
}

/// Reads either arm of a batch result.
pub trait BatchThumbnailResultExt {
    /// The request identifier the entry echoes back, if one was sent.
    fn request_id(&self) -> Option<&str>;

    /// The target the entry answers for.
    fn target_id(&self) -> OptionId;
}

impl BatchThumbnailResultExt for BatchThumbnailResult {
    fn request_id(&self) -> (r: Option<&str>)
        ensures
            (match *self {
                Ok(t) => opt_view(t.request_id),
                Err(e) => opt_view(e.request_id),
            }) == (match r {
                Some(s) => Some(s@),
                None => None,
            }),
    {
        match self {
            Ok(t) => match &t.request_id {
                Some(s) => Some(s.as_str()),
                None => None,
            },
            Err(e) => match &e.request_id {
                Some(s) => Some(s.as_str()),
                None => None,
            },
        }
    }

    fn target_id(&self) -> (r: OptionId)
        ensures
            (match *self {
                Ok(t) => t.target_id,
                Err(e) => e.target_id,
            }) == r,
    {
        match self {
            Ok(t) => t.target_id,
            Err(e) => e.target_id,
        }
    }
}

/// The URL of the thumbnail batch endpoint.
pub fn batch_thumbnails_url() -> (r: &'static str)
    ensures
        r@ == "https://thumbnails.roblox.com/v1/batch"@,
{
    "https://thumbnails.roblox.com/v1/batch"
}

/// The members of one serialized batch request, in wire order. Members
/// carrying their default are omitted: an absent request id, target,
/// token or alias, the WebP format, and the non-circular shape.
pub open spec fn spec_batch_request_members(b: BatchRequest) -> Seq<Seq<char>> {
    let m0 = Seq::<Seq<char>>::empty();
    let m1 = match b.request_id {
        Some(s) => m0.push("\"requestId\":"@ + json::spec_json_string(s@)),
        None => m0,
    };
    let m2 = match b.target_id {
        OptionId::Present(id) => m1.push("\"targetId\":"@ + json::u64_dec(id.spec_get() as nat)),
        OptionId::Absent => m1,
    };
    let m3 = match b.token {
        Some(s) => m2.push("\"token\":"@ + json::spec_json_string(s@)),
        None => m2,
    };
    let m4 = match b.alias {
        Some(s) => m3.push("\"alias\":"@ + json::spec_json_string(s@)),
        None => m3,
    };
    let m5 = m4.push("\"type\":"@ + json::u64_dec(b.thumbnail_type.spec_wire_value() as nat));
    let m6 = m5.push("\"size\":\""@ + b.size.spec_wire_str() + "\""@);
    let m7 = if !(b.format is Webp) {
        m6.push("\"format\":\""@ + b.format.spec_wire_str() + "\""@)
    } else {
        m6
    };
    if b.circular {
        m7.push("\"isCircular\":true"@)
    } else {
        m7
    }
}

/// Texts joined by commas.
pub open spec fn spec_join_comma(xs: Seq<Seq<char>>) -> Seq<char>
    decreases xs.len(),
{
    if xs.len() == 0 {
        Seq::empty()
    } else if xs.len() == 1 {
        xs[0]
    } else {
        spec_join_comma(xs.drop_last()) + seq![','] + xs.last()
    }
}

/// One serialized batch request.
pub open spec fn spec_batch_request_body(b: BatchRequest) -> Seq<char> {
    seq!['{'] + spec_join_comma(spec_batch_request_members(b)) + seq!['}']
}

/// Serializes one batch request.
#[verifier::rlimit(100)]
pub fn batch_request_body(b: &BatchRequest) -> (r: String)
    ensures
        r@ == spec_batch_request_body(*b),
{
    let mut members: Vec<String> = Vec::new();
    match &b.request_id {
        Some(s) => {
            let mut m = String::from_str("\"requestId\":");
            json::append_json_string(&mut m, s.as_str());
            members.push(m);
        },
        None => {},
    }
    match &b.target_id {
        OptionId::Present(id) => {
            let mut m = String::from_str("\"targetId\":");
            let d = id.to_dec_string();
            m.append(d.as_str());
            members.push(m);
        },
        OptionId::Absent => {},
    }
    match &b.token {
        Some(s) => {
            let mut m = String::from_str("\"token\":");
            json::append_json_string(&mut m, s.as_str());
            members.push(m);
        },
        None => {},
    }
    match &b.alias {
        Some(s) => {
            let mut m = String::from_str("\"alias\":");
            json::append_json_string(&mut m, s.as_str());
            members.push(m);
        },
        None => {},
    }
    let mut m = String::from_str("\"type\":");
    let d = json::u64_to_string(b.thumbnail_type.wire_value() as u64);
    m.append(d.as_str());
    members.push(m);
    let mut m = String::from_str("\"size\":\"");
    m.append(b.size.wire_str());
    m.append("\"");
    members.push(m);
    if !(b.format == ThumbnailFormat::Webp) {
        let mut m = String::from_str("\"format\":\"");
        m.append(b.format.wire_str());
        m.append("\"");
        members.push(m);
    }
    if b.circular {
        members.push(String::from_str("\"isCircular\":true"));
    }
    proof {
        assert(member_views(members@) =~= spec_batch_request_members(*b));
    }
    let mut r = String::from_str("{");
    append_joined(&mut r, &members);
    r.append("}");
    proof {
        reveal_strlit("{");
        reveal_strlit("}");
        assert("{"@ =~= seq!['{']);
        assert("}"@ =~= seq!['}']);
        assert(r@ =~= spec_batch_request_body(*b));
    }
    r
}

/// The views of a list of texts.
pub open spec fn member_views(xs: Seq<String>) -> Seq<Seq<char>> {
    Seq::new(
        xs.len(),
        |i: int|
            if 0 <= i < xs.len() {
                xs[i]@
            } else {
                Seq::empty()
            },
    )
}

/// Appends the texts, joined by commas.
fn append_joined(out: &mut String, members: &Vec<String>)
    ensures
        final(out)@ == old(out)@ + spec_join_comma(member_views(members@)),
{
    let ghost ms = member_views(members@);
    let ghost start = old(out)@;
    let mut k: usize = 0;
    proof {
        assert(spec_join_comma(ms.take(0)) =~= Seq::<char>::empty());
        assert(out@ =~= start + spec_join_comma(ms.take(0)));
    }
    while k < members.len()
        invariant
            k <= members@.len(),
            ms == member_views(members@),
            out@ == start + spec_join_comma(ms.take(k as int)),
        decreases members@.len() - k,
    {
        if k > 0 {
            out.append(",");
            proof {
                reveal_strlit(",");
                assert(","@ =~= seq![',']);
            }
        }
        out.append(members[k].as_str());
        proof {
            assert(ms.take(k as int + 1).drop_last() =~= ms.take(k as int));
            assert(ms.take(k as int + 1).last() == ms[k as int]);
            if k == 0 {
                assert(ms.take(1).len() == 1);
                assert(ms.take(1)[0] == ms[0]);
            }
            assert(out@ =~= start + spec_join_comma(ms.take(k as int + 1)));
        }
        k = k + 1;
    }
    proof {
        assert(ms.take(members@.len() as int) =~= ms);
    }
}

/// The whole body of a thumbnail batch request: every request serialized,
/// in order, as one JSON array.
pub open spec fn spec_batch_body(requests: Seq<BatchRequest>) -> Seq<char> {
    seq!['['] + spec_join_comma(
        Seq::new(
            requests.len(),
            |i: int|
                if 0 <= i < requests.len() {
                    spec_batch_request_body(requests[i])
                } else {
                    Seq::empty()
                },
        ),
    ) + seq![']']
}

/// Serializes a whole thumbnail batch request.
pub fn batch_body(requests: &Vec<BatchRequest>) -> (r: String)
    ensures
        r@ == spec_batch_body(requests@),
{
    let mut members: Vec<String> = Vec::new();
    let mut k: usize = 0;
    while k < requests.len()
        invariant
            k <= requests@.len(),
            members@.len() == k,
            forall|i: int|
                0 <= i < k ==> (#[trigger] members@[i])@ == spec_batch_request_body(
                    requests@[i],
                ),
        decreases requests@.len() - k,
    {
        members.push(batch_request_body(&requests[k]));
        k = k + 1;
    }
    let mut r = String::from_str("[");
    append_joined(&mut r, &members);
    r.append("]");
    proof {
        reveal_strlit("[");
        reveal_strlit("]");
        assert("["@ =~= seq!['[']);
        assert("]"@ =~= seq![']']);
        assert(member_views(members@) =~= Seq::new(
            requests@.len(),
            |i: int|
                if 0 <= i < requests@.len() {
                    spec_batch_request_body(requests@[i])
                } else {
                    Seq::empty()
                },
        ));
        assert(r@ =~= spec_batch_body(requests@));
    }
    r
}

} // verus!
