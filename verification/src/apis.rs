//! The shared API data model: identifiers, the error taxonomy and
//! cursor-driven pagination.

use vstd::prelude::*;
use vstd::string::*;

use crate::json;
use crate::json::{Jv, JsonValue};

pub mod economy;
pub mod games;
pub mod general;
pub mod groups;
pub mod thumbnails;
pub mod users;

verus! {

/// The direction in which a listing endpoint enumerates its items.
#[derive(Debug, PartialEq, Eq, Structural, Clone, Copy)]
pub enum SortOrder {
    Ascending,
    Descending,
}

// ---------------------------------------------------------------------------
// Identifiers.
//
// The platform hands out numeric identifiers that are always strictly
// positive and fit a signed 64-bit integer. Invalid values are rejected at
// the decoding boundary, never downstream.
// ---------------------------------------------------------------------------

/// A platform identifier: an integer in `[1, i64::MAX]`.
#[derive(Debug, PartialEq, Eq, Structural, Clone, Copy, Hash)]
pub struct Id {
    value: u64,
}

impl Id {
    /// The numeric value of the identifier.
    pub closed spec fn spec_get(&self) -> u64 {
        self.value
    }

    /// The identifier domain.
    pub open spec fn valid(&self) -> bool {
        1 <= self.spec_get() <= (i64::MAX as u64)
    }

    /// Constructs an identifier; every value outside `[1, i64::MAX]` is
    /// rejected.
    pub fn new(value: u64) -> (r: Option<Id>)
        ensures
            1 <= value <= (i64::MAX as u64) ==> (r matches Some(id) && id.spec_get() == value
                && id.valid()),
            !(1 <= value <= (i64::MAX as u64)) ==> r is None,
    {
        if 1 <= value && value <= 0x7fff_ffff_ffff_ffff {
            Some(Id { value })
        } else {
            None
        }
    }

    /// The raw value.
    pub fn get(&self) -> (r: u64)
        ensures
            r == self.spec_get(),
    {
        self.value
    }

    /// The decimal rendering used in URLs and request bodies.
    pub fn to_dec_string(&self) -> (r: String)
        ensures
            r@ == json::u64_dec(self.spec_get() as nat),
    {
        json::u64_to_string(self.value)
    }

    /// Decodes an identifier from a JSON wire value: any integer in
    /// `[1, i64::MAX]`; everything else fails.
    pub fn from_json(v: &JsonValue) -> (r: Option<Id>)
        ensures
            match v@ {
                Jv::Int(k) => {
                    if 1 <= k {
                        r matches Some(id) && id.spec_get() == k && id.valid()
                    } else {
                        r is None
                    }
                },
                _ => r is None,
            },
    {
        match v {
            JsonValue::Int(k) => {
                if *k >= 1 {
                    Some(Id { value: *k as u64 })
                } else {
                    None
                }
            },
            _ => None,
        }
    }
}

/// An identifier that may be absent.
#[derive(Debug, PartialEq, Eq, Structural, Clone, Copy)]
pub enum OptionId {
    Absent,
    Present(Id),
}

impl OptionId {
    /// The numeric value, if one is present.
    pub fn get(&self) -> (r: Option<u64>)
        ensures
            match *self {
                OptionId::Absent => r is None,
                OptionId::Present(id) => r matches Some(v) && v == id.spec_get(),
            },
    {
        match self {
            OptionId::Absent => None,
            OptionId::Present(id) => Some(id.get()),
        }
    }

    /// Whether the identifier is absent.
    pub fn is_none(&self) -> (r: bool)
        ensures
            r == (*self is Absent),
    {
        match self {
            OptionId::Absent => true,
            OptionId::Present(_) => false,
        }
    }

    /// Decodes the plain optional wire form: `null` is absent, an integer in
    /// `[1, i64::MAX]` is present, everything else fails.
    pub fn from_json(v: &JsonValue) -> (r: Option<OptionId>)
        ensures
            match v@ {
                Jv::Null => r matches Some(oid) && oid is Absent,
                Jv::Int(k) => {
                    if 1 <= k {
                        r matches Some(oid) && (oid matches OptionId::Present(id)
                            && id.spec_get() == k)
                    } else {
                        r is None
                    }
                },
                _ => r is None,
            },
    {
        match v {
            JsonValue::Null => Some(OptionId::Absent),
            _ => match Id::from_json(v) {
                Some(id) => Some(OptionId::Present(id)),
                None => None,
            },
        }
    }

    /// Decodes the zeroable wire form used by endpoints that conflate zero
    /// with null: `0` is absent, an integer in `[1, i64::MAX]` is present,
    /// everything else fails.
    pub fn from_json_zeroable(v: &JsonValue) -> (r: Option<OptionId>)
        ensures
            match v@ {
                Jv::Int(k) => {
                    if k == 0 {
                        r matches Some(oid) && oid is Absent
                    } else if 1 <= k {
                        r matches Some(oid) && (oid matches OptionId::Present(id)
                            && id.spec_get() == k)
                    } else {
                        r is None
                    }
                },
                _ => r is None,
            },
    {
        match v {
            JsonValue::Int(k) => {
                if *k == 0 {
                    Some(OptionId::Absent)
                } else {
                    match Id::from_json(v) {
                        Some(id) => Some(OptionId::Present(id)),
                        None => None,
                    }
                }
            },
            _ => None,
        }
    }
}

impl From<Id> for OptionId {
    /// Wraps a present identifier.
    fn from(value: Id) -> (r: Self) {
        OptionId::Present(value)
    }
}

impl vstd::std_specs::convert::FromSpecImpl<Id> for OptionId {
    open spec fn obeys_from_spec() -> bool {
        true
    }

    open spec fn from_spec(value: Id) -> Self {
        OptionId::Present(value)
    }
}

// ---------------------------------------------------------------------------
// The error taxonomy.
// ---------------------------------------------------------------------------

/// The view of an optional text field.
pub open spec fn opt_view(o: Option<String>) -> Option<Seq<char>> {
    match o {
        Some(s) => Some(s@),
        None => None,
    }
}

/// The fields of a well-formed structured error body.
pub struct ErrFields {
    pub code: int,
    pub message: Seq<char>,
    pub user_facing_message: Option<Seq<char>>,
    pub field: Option<Seq<char>>,
}

/// How an optional text member decodes: absent and `null` both mean "no
/// value", a string is the value, anything else is malformed.
pub open spec fn opt_str_field(o: Option<Jv>) -> Option<Option<Seq<char>>> {
    match o {
        None => Some(None),
        Some(Jv::Null) => Some(None),
        Some(Jv::Str(s)) => Some(Some(s)),
        Some(_) => None,
    }
}

/// The structured error schema: an object carrying an `errors` array of
/// exactly one object with an integral `code` in the signed 8-bit range, a
/// `message` string, and optional `userFacingMessage` and `field` strings.
/// Unknown members are ignored.
pub open spec fn spec_error_fields(v: Jv) -> Option<ErrFields> {
    match v {
        Jv::Obj(ps) => match json::obj_get(ps, "errors"@) {
            Some(Jv::Arr(items)) => {
                if items.len() == 1 {
                    match items[0] {
                        Jv::Obj(fs) => match (
                            json::obj_get(fs, "code"@),
                            json::obj_get(fs, "message"@),
                        ) {
                            (Some(Jv::Int(c)), Some(Jv::Str(m))) => {
                                if -128 <= c <= 127 {
                                    match (
                                        opt_str_field(json::obj_get(fs, "userFacingMessage"@)),
                                        opt_str_field(json::obj_get(fs, "field"@)),
                                    ) {
                                        (Some(u), Some(f)) => Some(
                                            ErrFields {
                                                code: c as int,
                                                message: m,
                                                user_facing_message: u,
                                                field: f,
                                            },
                                        ),
                                        _ => None,
                                    }
                                } else {
                                    None
                                }
                            },
                            _ => None,
                        },
                        _ => None,
                    }
                } else {
                    None
                }
            },
            _ => None,
        },
        _ => None,
    }
}

/// What the structured-policy decoder makes of a failure body: the fields,
/// when the body is a JSON document matching the error schema.
pub open spec fn spec_classify_body(s: Seq<char>) -> Option<ErrFields> {
    match json::spec_parse_json(s) {
        Some(v) => spec_error_fields(v),
        None => None,
    }
}

/// An error decoded under the structured policy: either a well-formed
/// platform error, or the raw body of a response that did not match the
/// error schema. The raw text is never lost.
#[derive(Debug, Clone)]
pub enum JsonError {
    Valid {
        code: i8,
        message: String,
        user_facing_message: Option<String>,
        field: Option<String>,
    },
    Malformed(String),
}

/// The view of an optional reference into a parsed document.
pub open spec fn opt_ref_view(o: Option<&JsonValue>) -> Option<Jv> {
    match o {
        Some(v) => Some(v@),
        None => None,
    }
}

fn opt_str_field_x(o: Option<&JsonValue>) -> (r: Option<Option<String>>)
    ensures
        match r {
            Some(u) => opt_str_field(opt_ref_view(o)) == Some(opt_view(u)),
            None => opt_str_field(opt_ref_view(o)) is None,
        },
{
    match o {
        None => Some(None),
        Some(JsonValue::Null) => Some(None),
        Some(JsonValue::Str(s)) => Some(Some(s.clone())),
        Some(_) => None,
    }
}

/// Extracts the structured error fields from a parsed document.
fn error_fields_x(v: &JsonValue) -> (r: Option<(i8, String, Option<String>, Option<String>)>)
    ensures
        match r {
            Some((c, m, u, f)) => spec_error_fields(v@) == Some(
                ErrFields {
                    code: c as int,
                    message: m@,
                    user_facing_message: opt_view(u),
                    field: opt_view(f),
                },
            ),
            None => spec_error_fields(v@) is None,
        },
{
    match v {
        JsonValue::Obj(ps) => {
            proof {
                json::lemma_obj_view(*v);
            }
            let key = String::from_str("errors");
            match json::obj_get_x(ps, &key) {
                Some(arr) => match arr {
                    JsonValue::Arr(items) => {
                        proof {
                            json::lemma_arr_view(*arr);
                        }
                        if items.len() == 1 {
                            let item = &items[0];
                            match item {
                                JsonValue::Obj(fs) => {
                                    proof {
                                        json::lemma_obj_view(*item);
                                    }
                                    let code_key = String::from_str("code");
                                    let message_key = String::from_str("message");
                                    let ufm_key = String::from_str("userFacingMessage");
                                    let field_key = String::from_str("field");
                                    let code = json::obj_get_x(fs, &code_key);
                                    let message = json::obj_get_x(fs, &message_key);
                                    match (code, message) {
                                        (Some(JsonValue::Int(c)), Some(JsonValue::Str(m))) => {
                                            if -128 <= *c && *c <= 127 {
                                                let u = opt_str_field_x(
                                                    json::obj_get_x(fs, &ufm_key),
                                                );
                                                let f = opt_str_field_x(
                                                    json::obj_get_x(fs, &field_key),
                                                );
                                                match (u, f) {
                                                    (Some(u), Some(f)) => Some(
                                                        (*c as i8, m.clone(), u, f),
                                                    ),
                                                    _ => None,
                                                }
                                            } else {
                                                None
                                            }
                                        },
                                        _ => None,
                                    }
                                },
                                _ => None,
                            }
                        } else {
                            None
                        }
                    },
                    _ => None,
                },
                None => None,
            }
        },
        _ => None,
    }
}

impl JsonError {
    /// Decodes a failure body under the structured policy. A body matching
    /// the error schema yields `Valid`; any other body, well-formed JSON or
    /// not, is kept verbatim as `Malformed`. The caller always receives an
    /// error value; nothing panics and nothing is dropped.
    pub fn parse(res: String) -> (r: JsonError)
        ensures
            match spec_classify_body(res@) {
                Some(f) => r matches JsonError::Valid {
                    code,
                    message,
                    user_facing_message,
                    field,
                } && code as int == f.code && message@ == f.message && opt_view(
                    user_facing_message,
                ) == f.user_facing_message && opt_view(field) == f.field,
                None => r matches JsonError::Malformed(b) && b@ == res@,
            },
    {
        match json::parse_json(res.as_str()) {
            Some(v) => match error_fields_x(&v) {
                Some((code, message, user_facing_message, field)) => JsonError::Valid {
                    code,
                    message,
                    user_facing_message,
                    field,
                },
                None => JsonError::Malformed(res),
            },
            None => JsonError::Malformed(res),
        }
    }

    /// The message shown for this error: a structured error prefers its
    /// user-facing message over its raw message; a malformed body is shown
    /// verbatim behind a fixed prefix.
    pub fn display_error_message(&self) -> (r: String)
        ensures
            r@ == spec_display_error_message(*self),
    {
        match self {
            JsonError::Valid { message, user_facing_message, .. } => match user_facing_message {
                Some(u) => u.clone(),
                None => message.clone(),
            },
            JsonError::Malformed(b) => {
                let mut r = String::from_str("malformed response: ");
                r.append(b.as_str());
                r
            },
        }
    }
}

/// What `display_error_message` renders.
pub open spec fn spec_display_error_message(e: JsonError) -> Seq<char> {
    match e {
        JsonError::Valid { code, message, user_facing_message, field } => match user_facing_message {
            Some(u) => u@,
            None => message@,
        },
        JsonError::Malformed(b) => "malformed response: "@ + b@,
    }
}

/// An error decoded under the opaque policy: the whole body text, verbatim.
#[derive(Debug)]
pub struct StringError {
    message: String,
}

impl StringError {
    /// The body text carried by the error.
    pub closed spec fn spec_message(&self) -> Seq<char> {
        self.message@
    }

    /// The body text carried by the error.
    pub fn message(&self) -> (r: &String)
        ensures
            r@ == self.spec_message(),
    {
        &self.message
    }

    /// The message shown for this error.
    pub fn display_message(&self) -> (r: String)
        ensures
            r@ == "string api error: "@ + self.spec_message(),
    {
        let mut r = String::from_str("string api error: ");
        r.append(self.message.as_str());
        r
    }
}

impl Default for StringError {
    /// An empty message.
    fn default() -> (r: Self)
        ensures
            r.spec_message() == Seq::<char>::empty(),
    {
        StringError { message: String::new() }
    }
}

/// A decoder from a failure body to a typed error. Every decoder is total:
/// it returns some error value for every body.
pub trait RobloxError: Sized {
    fn parse(res: String) -> Self;
}

impl RobloxError for JsonError {
    /// The structured policy: see `JsonError::parse`.
    fn parse(res: String) -> (r: Self)
        ensures
            match spec_classify_body(res@) {
                Some(f) => r matches JsonError::Valid {
                    code,
                    message,
                    user_facing_message,
                    field,
                } && code as int == f.code && message@ == f.message && opt_view(
                    user_facing_message,
                ) == f.user_facing_message && opt_view(field) == f.field,
                None => r matches JsonError::Malformed(b) && b@ == res@,
            },
    {
        JsonError::parse(res)
    }
}

impl RobloxError for StringError {
    /// Under the opaque policy the body is the message, verbatim.
    fn parse(res: String) -> (r: Self)
        ensures
            r.spec_message() == res@,
    {
        StringError { message: res }
    }
}

/// What a request through the pipeline can fail with.
#[derive(Debug)]
pub enum Error<E> {
    /// A failure response, decoded by the endpoint group's error policy.
    Api(E),
    /// A transport failure (connection, TLS, timeout), carried as the
    /// transport's own description; never produced by this crate's logic.
    Request(String),
    /// A response with status 429; the caller owns any backoff.
    RateLimit,
}

impl<E> Error<E> {
    /// Whether this is a decoded API error.
    pub fn is_api(&self) -> (r: bool)
        ensures
            r == (*self is Api),
    {
        match self {
            Error::Api(_) => true,
            _ => false,
        }
    }

    /// Whether this is a transport failure.
    pub fn is_request(&self) -> (r: bool)
        ensures
            r == (*self is Request),
    {
        match self {
            Error::Request(_) => true,
            _ => false,
        }
    }

    /// Whether the request was rate limited.
    pub fn is_rate_limit(&self) -> (r: bool)
        ensures
            r == (*self is RateLimit),
    {
        match self {
            Error::RateLimit => true,
            _ => false,
        }
    }
}

impl<E> Default for Error<E> {
    /// The default condition is the rate limit, matching a response that
    /// carried no usable information.
    fn default() -> (r: Self)
        ensures
            r is RateLimit,
    {
        Error::RateLimit
    }
}

/// The result of one request through the pipeline.
pub type RequestResult<T, E> = Result<T, Error<E>>;

/// The empty success payload: a response body that decodes to nothing.
#[derive(Debug, Clone, Copy, PartialEq, Eq, Structural)]
pub struct Empty {}

impl Default for Empty {
    /// The one value there is.
    fn default() -> (r: Self)
        ensures
            r == (Empty {  }),
    {
        Empty {  }
    }
}

// ---------------------------------------------------------------------------
// Laws.
// ---------------------------------------------------------------------------

/// Error fallback: a body that is valid JSON but does not match the error
/// schema — for one, an object without the `errors` array — classifies to
/// no structured fields, so the structured-policy decoder keeps the body
/// verbatim as `Malformed` rather than failing.
pub proof fn lemma_error_fallback(s: Seq<char>, v: Jv)
    requires
        json::spec_parse_json(s) == Some(v),
        spec_error_fields(v) is None,
    ensures
        spec_classify_body(s) is None,
{
}

/// Round trip: an identifier carries an integer in `[1, i64::MAX]`; its
/// decimal wire form parses back to exactly that integer, so decoding the
/// parsed value yields an equal identifier. Construction from any integer
/// outside the domain fails (see `Id::new`).
pub proof fn lemma_id_round_trip(id: Id)
    requires
        id.valid(),
    ensures
        json::spec_parse_json(json::u64_dec(id.spec_get() as nat)) == Some(
            Jv::Int(id.spec_get() as i64),
        ),
{
    json::lemma_parse_u64_dec(id.spec_get());
}

// ---------------------------------------------------------------------------
// Listing endpoints: request limits, sort orders and pages.
// ---------------------------------------------------------------------------

/// The page sizes a listing endpoint accepts.
#[derive(Debug, PartialEq, Eq, Structural, Clone, Copy)]
pub enum RequestLimit {
    Ten,
    TwentyFive,
    Fifty,
    OneHundred,
}

impl RequestLimit {
    /// The numeric wire value.
    pub fn wire_value(&self) -> (r: u8)
        ensures
            r == self.spec_wire_value(),
    {
        match self {
            RequestLimit::Ten => 10,
            RequestLimit::TwentyFive => 25,
            RequestLimit::Fifty => 50,
            RequestLimit::OneHundred => 100,
        }
    }

    /// The numeric wire value.
    pub open spec fn spec_wire_value(&self) -> u8 {
        match self {
            RequestLimit::Ten => 10,
            RequestLimit::TwentyFive => 25,
            RequestLimit::Fifty => 50,
            RequestLimit::OneHundred => 100,
        }
    }

    /// The wire value, rendered for a query string.
    pub fn query_str(&self) -> (r: &'static str)
        ensures
            r@ == json::u64_dec(self.spec_wire_value() as nat),
    {
        match self {
            RequestLimit::Ten => {
                proof {
                    reveal_strlit("10");
                    reveal_with_fuel(json::u64_dec, 4);
                    assert("10"@ =~= json::u64_dec(10));
                }
                "10"
            },
            RequestLimit::TwentyFive => {
                proof {
                    reveal_strlit("25");
                    reveal_with_fuel(json::u64_dec, 4);
                    assert("25"@ =~= json::u64_dec(25));
                }
                "25"
            },
            RequestLimit::Fifty => {
                proof {
                    reveal_strlit("50");
                    reveal_with_fuel(json::u64_dec, 4);
                    assert("50"@ =~= json::u64_dec(50));
                }
                "50"
            },
            RequestLimit::OneHundred => {
                proof {
                    reveal_strlit("100");
                    reveal_with_fuel(json::u64_dec, 4);
                    assert("100"@ =~= json::u64_dec(100));
                }
                "100"
            },
        }
    }
}

impl Default for RequestLimit {
    /// Listing endpoints default to pages of ten.
    fn default() -> (r: Self)
        ensures
            r == RequestLimit::Ten,
    {
        RequestLimit::Ten
    }
}

/// A user's legacy membership tier, as the platform reports it. The tier
/// for accounts without one is the default.
#[derive(Debug, PartialEq, Eq, Structural, Clone, Copy)]
pub enum MembershipType {
    NoMembership,
    BuildersClub,
    TurboBuildersClub,
    OutrageousBuildersClub,
    Premium,
}

impl Default for MembershipType {
    /// Most accounts hold no membership.
    fn default() -> (r: Self)
        ensures
            r == MembershipType::NoMembership,
    {
        MembershipType::NoMembership
    }
}

impl MembershipType {
    /// Decodes the numeric wire value.
    pub fn from_wire(value: u8) -> (r: Option<MembershipType>)
        ensures
            match value {
                0u8 => r == Some(MembershipType::NoMembership),
                1u8 => r == Some(MembershipType::BuildersClub),
                2u8 => r == Some(MembershipType::TurboBuildersClub),
                3u8 => r == Some(MembershipType::OutrageousBuildersClub),
                4u8 => r == Some(MembershipType::Premium),
                _ => r is None,
            },
    {
        match value {
            0 => Some(MembershipType::NoMembership),
            1 => Some(MembershipType::BuildersClub),
            2 => Some(MembershipType::TurboBuildersClub),
            3 => Some(MembershipType::OutrageousBuildersClub),
            4 => Some(MembershipType::Premium),
            _ => None,
        }
    }
}

/// A sort order for endpoints that enumerate ascending unless told
/// otherwise.
#[derive(Debug, PartialEq, Eq, Structural, Clone, Copy)]
pub enum SortOrderDefaultAscending {
    Ascending,
    Descending,
}

impl From<SortOrder> for SortOrderDefaultAscending {
    fn from(value: SortOrder) -> (r: Self) {
        match value {
            SortOrder::Ascending => SortOrderDefaultAscending::Ascending,
            SortOrder::Descending => SortOrderDefaultAscending::Descending,
        }
    }
}

impl vstd::std_specs::convert::FromSpecImpl<SortOrder> for SortOrderDefaultAscending {
    open spec fn obeys_from_spec() -> bool {
        true
    }

    open spec fn from_spec(value: SortOrder) -> Self {
        match value {
            SortOrder::Ascending => SortOrderDefaultAscending::Ascending,
            SortOrder::Descending => SortOrderDefaultAscending::Descending,
        }
    }
}

impl Default for SortOrderDefaultAscending {
    fn default() -> (r: Self)
        ensures
            r == SortOrderDefaultAscending::Ascending,
    {
        SortOrderDefaultAscending::Ascending
    }
}

impl SortOrderDefaultAscending {
    /// The wire value, rendered for a query string: ascending is `1`,
    /// descending is `2`.
    pub fn query_str(&self) -> (r: &'static str)
        ensures
            *self is Ascending ==> r@ == "1"@,
            *self is Descending ==> r@ == "2"@,
    {
        match self {
            SortOrderDefaultAscending::Ascending => "1",
            SortOrderDefaultAscending::Descending => "2",
        }
    }
}

/// A sort order for endpoints that enumerate descending unless told
/// otherwise.
#[derive(Debug, PartialEq, Eq, Structural, Clone, Copy)]
pub enum SortOrderDefaultDescending {
    Ascending,
    Descending,
}

impl From<SortOrder> for SortOrderDefaultDescending {
    fn from(value: SortOrder) -> (r: Self) {
        match value {
            SortOrder::Ascending => SortOrderDefaultDescending::Ascending,
            SortOrder::Descending => SortOrderDefaultDescending::Descending,
        }
    }
}

impl vstd::std_specs::convert::FromSpecImpl<SortOrder> for SortOrderDefaultDescending {
    open spec fn obeys_from_spec() -> bool {
        true
    }

    open spec fn from_spec(value: SortOrder) -> Self {
        match value {
            SortOrder::Ascending => SortOrderDefaultDescending::Ascending,
            SortOrder::Descending => SortOrderDefaultDescending::Descending,
        }
    }
}

impl Default for SortOrderDefaultDescending {
    fn default() -> (r: Self)
        ensures
            r == SortOrderDefaultDescending::Descending,
    {
        SortOrderDefaultDescending::Descending
    }
}

// ---------------------------------------------------------------------------
// Pagination.
// ---------------------------------------------------------------------------

/// One page of a listing endpoint's response. The items keep the server's
/// order; an absent `next_page_cursor` marks the terminal page.
#[derive(Debug, Clone)]
pub struct Page<T> {
    pub previous_page_cursor: Option<String>,
    pub next_page_cursor: Option<String>,
    pub data: Vec<T>,
}

impl<T> Default for Page<T> {
    /// A page with no items and no cursors.
    fn default() -> (r: Self)
        ensures
            r.previous_page_cursor is None,
            r.next_page_cursor is None,
            r.data@ == Seq::<T>::empty(),
    {
        Page { previous_page_cursor: None, next_page_cursor: None, data: Vec::new() }
    }
}

/// The cursor-chaining core of pagination: a pull-driven walk over a
/// listing endpoint. The caller fetches one page with `fetch_cursor`,
/// records it with `record_page`, and stops as soon as `is_finished`; the
/// walk fetches nothing by itself and holds nothing between pages, so
/// abandoning it needs no cleanup. A fresh walk must be started to replay.
pub struct Paginator {
    cursor: Option<String>,
    finished: bool,
}

impl Paginator {
    /// The cursor the next fetch must use.
    pub closed spec fn spec_cursor(&self) -> Option<Seq<char>> {
        opt_view(self.cursor)
    }

    /// Whether the walk is over.
    pub closed spec fn spec_finished(&self) -> bool {
        self.finished
    }

    /// Starts a walk from the given cursor, or from the beginning.
    pub fn start(cursor: Option<String>) -> (p: Paginator)
        ensures
            p.spec_cursor() == opt_view(cursor),
            !p.spec_finished(),
    {
        Paginator { cursor, finished: false }
    }

    /// Whether the walk is over: set exactly when a recorded page carried
    /// no next cursor.
    pub fn is_finished(&self) -> (r: bool)
        ensures
            r == self.spec_finished(),
    {
        self.finished
    }

    /// The cursor for the next fetch; absent means "from the beginning".
    pub fn fetch_cursor(&self) -> (r: &Option<String>)
        ensures
            opt_view(*r) == self.spec_cursor(),
    {
        &self.cursor
    }

    /// Records a fetched page: a page with a next cursor moves the walk
    /// there; a page without one ends the walk. Exactly one fetch precedes
    /// each recorded page, so a walk whose first page already carries no
    /// next cursor ends after that one page and one fetch.
    pub fn record_page<T>(&mut self, page: &Page<T>)
        requires
            !old(self).spec_finished(),
        ensures
            match page.next_page_cursor {
                Some(c) => final(self).spec_cursor() == Some(c@) && !final(self).spec_finished(),
                None => final(self).spec_cursor() == old(self).spec_cursor()
                    && final(self).spec_finished(),
            },
    {
        match &page.next_page_cursor {
            Some(c) => {
                self.cursor = Some(c.clone());
            },
            None => {
                self.finished = true;
            },
        }
    }
}

// ---------------------------------------------------------------------------
// Shared wire-building helpers for the endpoint modules.
// ---------------------------------------------------------------------------

/// The wire form of a boolean.
pub open spec fn spec_bool_str(b: bool) -> Seq<char> {
    if b {
        "true"@
    } else {
        "false"@
    }
}

/// The wire form of a boolean.
pub fn bool_str(b: bool) -> (r: &'static str)
    ensures
        r@ == spec_bool_str(b),
{
    if b {
        "true"
    } else {
        "false"
    }
}

/// Identifiers in decimal, joined by commas.
pub open spec fn spec_ids_csv(ids: Seq<Id>) -> Seq<char>
    decreases ids.len(),
{
    if ids.len() == 0 {
        Seq::empty()
    } else if ids.len() == 1 {
        json::u64_dec(ids[0].spec_get() as nat)
    } else {
        spec_ids_csv(ids.drop_last()) + seq![','] + json::u64_dec(ids.last().spec_get() as nat)
    }
}

/// Renders identifiers in decimal, joined by commas.
pub fn ids_csv(ids: &Vec<Id>) -> (r: String)
    ensures
        r@ == spec_ids_csv(ids@),
{
    let mut r = String::new();
    if ids.len() == 0 {
        proof {
            assert(r@ =~= spec_ids_csv(ids@));
        }
        return r;
    }
    r.append(ids[0].to_dec_string().as_str());
    proof {
        assert(ids@.take(1).len() == 1);
        assert(ids@.take(1)[0] == ids@[0]);
        assert(r@ == spec_ids_csv(ids@.take(1)));
    }
    let mut k: usize = 1;
    while k < ids.len()
        invariant
            1 <= k <= ids@.len(),
            r@ == spec_ids_csv(ids@.take(k as int)),
        decreases ids@.len() - k,
    {
        r.append(",");
        r.append(ids[k].to_dec_string().as_str());
        proof {
            reveal_strlit(",");
            assert(ids@.take(k as int + 1).drop_last() =~= ids@.take(k as int));
            assert(ids@.take(k as int + 1).last() == ids@[k as int]);
            assert(ids@.take(k as int + 1).len() >= 2);
            assert(","@ =~= seq![',']);
        }
        k = k + 1;
    }
    proof {
        assert(ids@.take(ids@.len() as int) =~= ids@);
    }
    r
}

} // verus!
