//! The shared HTTP client core: the session store that all in-flight
//! requests of one client share, the request builder, and the
//! token-learning exchange that every request runs through.
//!
//! The store's two pieces of shared state keep the concurrent structures
//! the transport expects: the cookie mapping lives in a sharded concurrent
//! map, the anti-forgery token in a swap-on-write slot, both with
//! last-write-wins semantics. Their operations are atomic per call; the
//! contracts here state each call's effect, and
//! `lemma_cookie_store_linearizable` states what any sequence of such
//! atomic updates leaves behind.

use vstd::prelude::*;
use vstd::string::*;

use crate::apis::opt_view;

verus! {

/// The HTTP method of an outgoing request.
#[derive(Debug, PartialEq, Eq, Structural, Clone, Copy)]
pub enum Method {
    Get,
    Post,
    Put,
    Patch,
    Delete,
}

// ---------------------------------------------------------------------------
// The cookie mapping, kept in a concurrent sharded map.
// ---------------------------------------------------------------------------

#[verifier::external_type_specification]
#[verifier::external_body]
#[verifier::reject_recursive_types(K)]
#[verifier::reject_recursive_types(V)]
#[verifier::reject_recursive_types(S)]
pub struct ExDashMap<K, V, S>(dashmap::DashMap<K, V, S>);

#[verifier::external_type_specification]
#[verifier::external_body]
pub struct ExRandomState(ahash::RandomState);

/// A cookie mapping with nothing in it.
pub open spec fn empty_cookie_map() -> Map<Seq<char>, Seq<char>> {
    Map::empty()
}

/// What the cookie map holds: the mapping from cookie name to value.
pub uninterp spec fn jar_map(
    m: dashmap::DashMap<String, String, ahash::RandomState>,
) -> Map<Seq<char>, Seq<char>>;

/// Relies on DashMap::with_hasher (and ahash::RandomState::new for the
/// hasher): a fresh map holds nothing.
#[verifier::external_body]
fn jar_new() -> (r: dashmap::DashMap<String, String, ahash::RandomState>)
    ensures
        jar_map(r) == empty_cookie_map(),
{
    dashmap::DashMap::with_hasher(ahash::RandomState::new())
}

/// Relies on DashMap::insert: the mapping gains exactly the given pair,
/// replacing any previous value under the name.
#[verifier::external_body]
fn jar_insert(
    m: &mut dashmap::DashMap<String, String, ahash::RandomState>,
    name: &str,
    value: &str,
)
    ensures
        jar_map(*final(m)) == jar_map(*old(m)).insert(name@, value@),
{
    m.insert(String::from(name), String::from(value));
}

/// Relies on DashMap::remove: the name leaves the mapping; other entries
/// stay.
#[verifier::external_body]
fn jar_remove(m: &mut dashmap::DashMap<String, String, ahash::RandomState>, name: &str)
    ensures
        jar_map(*final(m)) == jar_map(*old(m)).remove(name@),
{
    m.remove(name);
}

/// Relies on DashMap::get: yields the value under the name, if any.
#[verifier::external_body]
fn jar_get(m: &dashmap::DashMap<String, String, ahash::RandomState>, name: &str) -> (r: Option<String>)
    ensures
        match r {
            Some(v) => jar_map(*m).contains_pair(name@, v@),
            None => !jar_map(*m).dom().contains(name@),
        },
{
    m.get(name).map(|x| x.value().clone())
}

/// Relies on DashMap::clear: the mapping is emptied.
#[verifier::external_body]
fn jar_clear(m: &mut dashmap::DashMap<String, String, ahash::RandomState>)
    ensures
        jar_map(*final(m)) == empty_cookie_map(),
{
    m.clear();
}

/// Relies on DashMap::iter: yields every entry exactly once, in no
/// particular order.
#[verifier::external_body]
fn jar_pairs(m: &dashmap::DashMap<String, String, ahash::RandomState>) -> (r: Vec<(String, String)>)
    ensures
        forall|i: int|
            0 <= i < r@.len() ==> jar_map(*m).contains_pair(#[trigger] r@[i].0@, r@[i].1@),
        forall|i: int, j: int| 0 <= i < j < r@.len() ==> r@[i].0@ != r@[j].0@,
        forall|k: Seq<char>|
            jar_map(*m).dom().contains(k) ==> exists|i: int|
                0 <= i < r@.len() && (#[trigger] r@[i].0@) == k,
{
    m.iter().map(|x| (x.key().clone(), x.value().clone())).collect()
}

// ---------------------------------------------------------------------------
// The anti-forgery token, kept in a single swap-on-write slot.
// ---------------------------------------------------------------------------

/// The single-slot concurrent cache for the anti-forgery token: an
/// arc_swap swap-on-write cell. The cell's strategy types are private to
/// arc_swap and cannot be declared to Verus, so the cell is held opaquely
/// and reached only through the trusted calls below.
#[verifier::external_body]
pub struct TokenCell {
    inner: arc_swap::ArcSwapOption<String>,
}

/// What the token slot holds: the cached token, if one was learnt.
pub uninterp spec fn token_of(c: TokenCell) -> Option<Seq<char>>;

/// Relies on ArcSwapOption::const_empty: a fresh slot holds no token.
#[verifier::external_body]
fn token_cell_new() -> (r: TokenCell)
    ensures
        token_of(r) is None,
{
    TokenCell { inner: arc_swap::ArcSwapOption::const_empty() }
}

/// Relies on ArcSwapAny::load_full: yields the value the slot holds,
/// without blocking writers.
#[verifier::external_body]
fn token_load(c: &TokenCell) -> (r: Option<String>)
    ensures
        match r {
            Some(t) => token_of(*c) == Some(t@),
            None => token_of(*c) is None,
        },
{
    c.inner.load_full().map(|a| a.as_ref().clone())
}

/// Relies on ArcSwapAny::store: replaces the slot's value; the last writer
/// wins and readers never block.
#[verifier::external_body]
fn token_store(c: &mut TokenCell, value: &str)
    ensures
        token_of(*final(c)) == Some(value@),
{
    c.inner.store(Some(std::sync::Arc::new(String::from(value))));
}

// ---------------------------------------------------------------------------
// The session store.
// ---------------------------------------------------------------------------

/// The authentication cookie's name, as the platform's transport sets it.
pub open spec fn spec_auth_cookie_name() -> Seq<char> {
    ".roblosecurity"@
}

/// The mutable cross-request state one client shares among all its
/// in-flight requests: the cookie mapping and the cached anti-forgery
/// token. Created empty or seeded with one authentication cookie; mutated
/// by explicit cookie calls and by the pipeline's token-learning step;
/// dropped only with the owning client.
pub struct SessionStore {
    cookies: dashmap::DashMap<String, String, ahash::RandomState>,
    csrf_token: TokenCell,
}

impl SessionStore {
    /// The cookie mapping.
    pub closed spec fn spec_cookies(&self) -> Map<Seq<char>, Seq<char>> {
        jar_map(self.cookies)
    }

    /// The cached token.
    pub closed spec fn spec_token(&self) -> Option<Seq<char>> {
        token_of(self.csrf_token)
    }

    /// A store with no cookies and no token.
    pub fn new() -> (s: SessionStore)
        ensures
            s.spec_cookies() == empty_cookie_map(),
            s.spec_token() is None,
    {
        SessionStore { cookies: jar_new(), csrf_token: token_cell_new() }
    }

    /// A store pre-seeded with the authentication cookie.
    pub fn with_auth_cookie(auth_cookie: &str) -> (s: SessionStore)
        ensures
            s.spec_cookies() == empty_cookie_map().insert(
                spec_auth_cookie_name(),
                auth_cookie@,
            ),
            s.spec_token() is None,
    {
        let mut s = SessionStore::new();
        s.insert_cookie(".roblosecurity", auth_cookie);
        s
    }

    /// Sets a cookie; an existing value under the name is replaced.
    pub fn insert_cookie(&mut self, name: &str, value: &str)
        ensures
            final(self).spec_cookies() == old(self).spec_cookies().insert(name@, value@),
            final(self).spec_token() == old(self).spec_token(),
    {
        jar_insert(&mut self.cookies, name, value);
    }

    /// Removes a cookie; other cookies stay.
    pub fn remove_cookie(&mut self, name: &str)
        ensures
            final(self).spec_cookies() == old(self).spec_cookies().remove(name@),
            final(self).spec_token() == old(self).spec_token(),
    {
        jar_remove(&mut self.cookies, name);
    }

    /// Reads a cookie.
    pub fn get_cookie(&self, name: &str) -> (r: Option<String>)
        ensures
            match r {
                Some(v) => self.spec_cookies().contains_pair(name@, v@),
                None => !self.spec_cookies().dom().contains(name@),
            },
    {
        jar_get(&self.cookies, name)
    }

    /// Drops every cookie.
    pub fn clear_cookies(&mut self)
        ensures
            final(self).spec_cookies() == empty_cookie_map(),
            final(self).spec_token() == old(self).spec_token(),
    {
        jar_clear(&mut self.cookies);
    }

    /// Replaces the authentication cookie, under the platform's one fixed
    /// cookie name — the same name `with_auth_cookie` seeds, so a later
    /// read of that name sees the new value.
    pub fn set_auth_cookie(&mut self, cookie: &str)
        ensures
            final(self).spec_cookies() == old(self).spec_cookies().insert(
                spec_auth_cookie_name(),
                cookie@,
            ),
            final(self).spec_token() == old(self).spec_token(),
    {
        self.insert_cookie(".roblosecurity", cookie);
    }

    /// The latest known anti-forgery token; reading never blocks.
    pub fn current_token(&self) -> (r: Option<String>)
        ensures
            opt_view(r) == self.spec_token(),
    {
        token_load(&self.csrf_token)
    }

    /// Caches a token; the last writer wins.
    pub fn store_token(&mut self, value: &str)
        ensures
            final(self).spec_token() == Some(value@),
            final(self).spec_cookies() == old(self).spec_cookies(),
    {
        token_store(&mut self.csrf_token, value);
    }

    /// Serializes every cookie as `name=value`, joined by `"; "`, in the
    /// store's enumeration order: some order over exactly the stored
    /// cookies, fixed only within this one call. Yields nothing if and
    /// only if the store holds no cookie.
    pub fn cookie_header(&self) -> (r: Option<String>)
        ensures
            match r {
                Some(h) => self.spec_cookies().dom() != Set::<Seq<char>>::empty() && (exists|
                    ps: Seq<(Seq<char>, Seq<char>)>,
                |
                    #[trigger] enumerates_cookies(ps, self.spec_cookies()) && h@
                        == spec_join_cookies(ps)),
                None => self.spec_cookies().dom() == Set::<Seq<char>>::empty(),
            },
    {
        let pairs = jar_pairs(&self.cookies);
        let ghost psv = pair_views(pairs@);
        if pairs.len() == 0 {
            proof {
                assert forall|k: Seq<char>| !self.spec_cookies().dom().contains(k) by {
                    if self.spec_cookies().dom().contains(k) {
                        let i = choose|i: int|
                            0 <= i < pairs@.len() && (#[trigger] pairs@[i].0@) == k;
                        assert(false);
                    }
                }
                assert(self.spec_cookies().dom() =~= Set::<Seq<char>>::empty());
            }
            None
        } else {
            let mut out = cookie_pair_string(&pairs[0].0, &pairs[0].1);
            proof {
                assert(psv.take(1).len() == 1);
                assert(psv.take(1)[0] == psv[0]);
                assert(out@ == spec_join_cookies(psv.take(1)));
            }
            let mut k: usize = 1;
            while k < pairs.len()
                invariant
                    1 <= k <= pairs@.len(),
                    psv == pair_views(pairs@),
                    out@ == spec_join_cookies(psv.take(k as int)),
                decreases pairs@.len() - k,
            {
                out.append("; ");
                let p = cookie_pair_string(&pairs[k].0, &pairs[k].1);
                out.append(p.as_str());
                proof {
                    assert(psv.take(k as int + 1).drop_last() =~= psv.take(k as int));
                    assert(psv.take(k as int + 1).last() == psv[k as int]);
                    assert(psv.take(k as int + 1).len() >= 2);
                }
                k = k + 1;
            }
            proof {
                assert(psv.take(pairs@.len() as int) =~= psv);
                assert(self.spec_cookies().dom().contains(pairs@[0].0@));
                assert(self.spec_cookies().dom() != Set::<Seq<char>>::empty());
                assert forall|i: int|
                    0 <= i < psv.len() implies self.spec_cookies().contains_pair(
                    (#[trigger] psv[i]).0,
                    psv[i].1,
                ) by {
                    assert(self.spec_cookies().contains_pair(pairs@[i].0@, pairs@[i].1@));
                }
                assert forall|k2: Seq<char>|
                    self.spec_cookies().dom().contains(k2) implies exists|i: int|
                    0 <= i < psv.len() && (#[trigger] psv[i]).0 == k2 by {
                    let i = choose|i: int|
                        0 <= i < pairs@.len() && (#[trigger] pairs@[i].0@) == k2;
                    assert(0 <= i < psv.len() && psv[i].0 == k2);
                }
                assert(enumerates_cookies(psv, self.spec_cookies()));
            }
            Some(out)
        }
    }
}

/// The views of a list of name/value pairs.
pub open spec fn pair_views(ps: Seq<(String, String)>) -> Seq<(Seq<char>, Seq<char>)> {
    Seq::new(
        ps.len(),
        |i: int|
            if 0 <= i < ps.len() {
                (ps[i].0@, ps[i].1@)
            } else {
                (Seq::empty(), Seq::empty())
            },
    )
}

/// Whether a pair list enumerates a cookie mapping: every listed pair is
/// stored, no name repeats, and every stored name is listed.
pub open spec fn enumerates_cookies(
    ps: Seq<(Seq<char>, Seq<char>)>,
    m: Map<Seq<char>, Seq<char>>,
) -> bool {
    &&& forall|i: int| 0 <= i < ps.len() ==> m.contains_pair((#[trigger] ps[i]).0, ps[i].1)
    &&& forall|i: int, j: int| 0 <= i < j < ps.len() ==> ps[i].0 != ps[j].0
    &&& forall|k: Seq<char>|
        m.dom().contains(k) ==> exists|i: int| 0 <= i < ps.len() && (#[trigger] ps[i]).0 == k
}

/// One serialized cookie.
pub open spec fn spec_cookie_pair(p: (Seq<char>, Seq<char>)) -> Seq<char> {
    p.0 + "="@ + p.1
}

/// Serialized cookies, joined by `"; "`.
pub open spec fn spec_join_cookies(ps: Seq<(Seq<char>, Seq<char>)>) -> Seq<char>
    decreases ps.len(),
{
    if ps.len() == 0 {
        Seq::empty()
    } else if ps.len() == 1 {
        spec_cookie_pair(ps[0])
    } else {
        spec_join_cookies(ps.drop_last()) + "; "@ + spec_cookie_pair(ps.last())
    }
}

fn cookie_pair_string(name: &String, value: &String) -> (r: String)
    ensures
        r@ == name@ + "="@ + value@,
{
    let mut r = name.clone();
    r.append("=");
    r.append(value.as_str());
    r
}

// ---------------------------------------------------------------------------
// Linearizability of the cookie store.
// ---------------------------------------------------------------------------

/// One atomic cookie operation.
pub enum CookieOp {
    Insert(Seq<char>, Seq<char>),
    Remove(Seq<char>),
    Clear,
}

/// The effect of one operation on the mapping; each store call above
/// performs exactly one of these, atomically.
pub open spec fn apply_cookie_op(
    m: Map<Seq<char>, Seq<char>>,
    op: CookieOp,
) -> Map<Seq<char>, Seq<char>> {
    match op {
        CookieOp::Insert(n, v) => m.insert(n, v),
        CookieOp::Remove(n) => m.remove(n),
        CookieOp::Clear => empty_cookie_map(),
    }
}

/// The mapping after a sequence of operations, applied in order.
pub open spec fn apply_cookie_ops(
    m: Map<Seq<char>, Seq<char>>,
    ops: Seq<CookieOp>,
) -> Map<Seq<char>, Seq<char>>
    decreases ops.len(),
{
    if ops.len() == 0 {
        m
    } else {
        apply_cookie_op(apply_cookie_ops(m, ops.drop_last()), ops.last())
    }
}

/// Whether an operation affects the given name.
pub open spec fn touches(op: CookieOp, name: Seq<char>) -> bool {
    match op {
        CookieOp::Insert(n, v) => n == name,
        CookieOp::Remove(n) => n == name,
        CookieOp::Clear => true,
    }
}

/// What a read of the name sees right after the operation.
pub open spec fn op_effect(op: CookieOp, name: Seq<char>) -> Option<Seq<char>> {
    match op {
        CookieOp::Insert(n, v) => Some(v),
        CookieOp::Remove(n) => None,
        CookieOp::Clear => None,
    }
}

/// What a read of a name sees in a mapping.
pub open spec fn cookie_lookup(m: Map<Seq<char>, Seq<char>>, k: Seq<char>) -> Option<Seq<char>> {
    if m.dom().contains(k) {
        Some(m[k])
    } else {
        None
    }
}

/// Linearizability of cookie updates: each store call is one atomic
/// operation, so any interleaving of concurrent callers is some sequence
/// of operations. After any such sequence, a read of a name sees exactly
/// the effect of the last operation that touched the name — the last
/// write wins and no update is lost — and a name no operation touched
/// keeps its prior value.
pub proof fn lemma_cookie_store_linearizable(
    m: Map<Seq<char>, Seq<char>>,
    ops: Seq<CookieOp>,
    name: Seq<char>,
)
    ensures
        (forall|i: int| 0 <= i < ops.len() ==> !touches(#[trigger] ops[i], name))
            ==> cookie_lookup(apply_cookie_ops(m, ops), name) == cookie_lookup(m, name),
        forall|i: int|
            0 <= i < ops.len() && touches(#[trigger] ops[i], name) && (forall|j: int|
                i < j < ops.len() ==> !touches(#[trigger] ops[j], name))
                ==> cookie_lookup(apply_cookie_ops(m, ops), name) == op_effect(ops[i], name),
    decreases ops.len(),
{
    if ops.len() == 0 {
    } else {
        let pre = ops.drop_last();
        let last = ops.last();
        lemma_cookie_store_linearizable(m, pre, name);
        if (forall|i: int| 0 <= i < ops.len() ==> !touches(#[trigger] ops[i], name)) {
            assert(!touches(last, name));
            assert(cookie_lookup(apply_cookie_ops(m, ops), name) == cookie_lookup(
                apply_cookie_ops(m, pre),
                name,
            ));
        }
        assert forall|i: int|
            0 <= i < ops.len() && touches(#[trigger] ops[i], name) && (forall|j: int|
                i < j < ops.len() ==> !touches(#[trigger] ops[j], name)) implies cookie_lookup(
            apply_cookie_ops(m, ops),
            name,
        ) == op_effect(ops[i], name) by {
            if i == ops.len() - 1 {
                assert(ops[i] == last);
                assert(cookie_lookup(apply_cookie_op(apply_cookie_ops(m, pre), last), name)
                    == op_effect(last, name));
            } else {
                assert(!touches(ops[ops.len() - 1], name));
                assert(last == ops[ops.len() - 1]);
                assert(pre[i] == ops[i]);
                assert(forall|j: int| i < j < pre.len() ==> !touches(#[trigger] pre[j], name))
                    by {
                    assert(forall|j: int| i < j < pre.len() ==> pre[j] == #[trigger] ops[j]);
                }
                assert(cookie_lookup(apply_cookie_ops(m, pre), name) == op_effect(
                    pre[i],
                    name,
                ));
                assert(cookie_lookup(apply_cookie_ops(m, ops), name) == cookie_lookup(
                    apply_cookie_ops(m, pre),
                    name,
                ));
            }
        }
    }
}

// ---------------------------------------------------------------------------
// The request pipeline.
// ---------------------------------------------------------------------------

/// The parts of one outgoing request, ready for a transport to send.
pub struct RequestParts {
    pub method: Method,
    pub url: String,
    pub query: Vec<(String, String)>,
    pub body: Option<String>,
    pub headers: Vec<(String, String)>,
}

/// The name of the anti-forgery token header.
pub open spec fn spec_csrf_header_name() -> Seq<char> {
    "x-csrf-token"@
}

/// The headers every request carries before any token: a request without
/// a payload declares an explicitly empty body — `Content-Length: 0` with
/// the JSON content type — rather than omitting the body.
pub open spec fn spec_base_headers(has_payload: bool) -> Seq<(Seq<char>, Seq<char>)> {
    if has_payload {
        seq![("Content-Type"@, "application/json"@)]
    } else {
        seq![("Content-Length"@, "0"@), ("Content-Type"@, "application/json"@)]
    }
}

/// All headers of a fresh request: the cached token is attached to every
/// method but GET, when one is cached.
pub open spec fn spec_request_headers(
    has_payload: bool,
    method: Method,
    token: Option<Seq<char>>,
) -> Seq<(Seq<char>, Seq<char>)> {
    match token {
        Some(t) => {
            if !(method is Get) {
                spec_base_headers(has_payload).push((spec_csrf_header_name(), t))
            } else {
                spec_base_headers(has_payload)
            }
        },
        None => spec_base_headers(has_payload),
    }
}

/// The view of an optional borrowed header value.
pub open spec fn opt_ref_str_view(o: Option<&String>) -> Option<Seq<char>> {
    match o {
        Some(t) => Some(t@),
        None => None,
    }
}

/// Builds one outgoing request. A present payload is sent as a JSON body;
/// an absent one becomes an explicitly empty body with `Content-Length: 0`
/// and the JSON content type. The cached token, when given, is attached to
/// every method but GET.
pub fn build_request(
    method: Method,
    url: String,
    query: Vec<(String, String)>,
    payload: Option<String>,
    csrf_token: Option<&String>,
) -> (r: RequestParts)
    ensures
        r.method == method,
        r.url@ == url@,
        pair_views(r.query@) == pair_views(query@),
        opt_view(r.body) == (match payload {
            Some(p) => Some(p@),
            None => Some(Seq::<char>::empty()),
        }),
        pair_views(r.headers@) == spec_request_headers(
            payload is Some,
            method,
            opt_ref_str_view(csrf_token),
        ),
{
    let ghost had_payload = payload is Some;
    let mut headers: Vec<(String, String)> = Vec::new();
    let body: Option<String> = match payload {
        Some(p) => Some(p),
        None => {
            headers.push((String::from_str("Content-Length"), String::from_str("0")));
            Some(String::new())
        },
    };
    headers.push((String::from_str("Content-Type"), String::from_str("application/json")));
    proof {
        assert(pair_views(headers@) =~= spec_base_headers(had_payload));
    }
    let ghost base = headers@;
    match csrf_token {
        Some(t) => {
            if !(method == Method::Get) {
                headers.push((String::from_str("x-csrf-token"), t.clone()));
                proof {
                    assert(pair_views(headers@) =~= pair_views(base).push(
                        (spec_csrf_header_name(), t@),
                    ));
                }
            }
        },
        None => {},
    }
    proof {
        assert(pair_views(headers@) =~= spec_request_headers(
            had_payload,
            method,
            opt_ref_str_view(csrf_token),
        ));
    }
    RequestParts { method, url, query, body, headers }
}

/// One HTTP response, reduced to what the pipeline decides on: the
/// status, the token header if the server issued one, and the body text.
pub struct Response {
    pub status: u16,
    pub csrf_token: Option<String>,
    pub body: String,
}

/// What the pipeline does with a final response.
pub enum Outcome {
    /// Status 429: surface the condition; the caller owns any backoff.
    RateLimited,
    /// Any other status: hand the body to the decode step.
    Decode(String),
}

/// What the pipeline does right after the first response of a request.
pub enum FirstStep {
    /// The server issued a fresh token: resend this once.
    Resend(RequestParts),
    /// No token was issued: the response is final.
    Done(Outcome),
}

/// The classification of a final response.
pub open spec fn spec_outcome_for(status: u16, body: Seq<char>, o: Outcome) -> bool {
    if status == 429 {
        o is RateLimited
    } else {
        o matches Outcome::Decode(b) && b@ == body
    }
}

/// Classifies a final response: status 429 always yields the rate-limit
/// condition and the body is never handed to the decode step; any other
/// status hands the body over unchanged. This step neither reads nor
/// writes the session store, so a token the server issues on a retry's
/// response is not re-read and can trigger no second resend.
pub fn classify_response(resp: &Response) -> (r: Outcome)
    ensures
        spec_outcome_for(resp.status, resp.body@, r),
{
    if resp.status == 429 {
        Outcome::RateLimited
    } else {
        Outcome::Decode(resp.body.clone())
    }
}

/// The token-learning step, run on the first response of a request. When
/// the response carries a fresh token header, exactly that token is
/// cached — superseding any previous one — and the identical request is
/// handed back to be resent once, with the new token attached; the
/// retry's response goes to `classify_response`, never back here, so the
/// resend happens at most once per request. When no token is carried, the
/// response is final and the store is left untouched. Cookies are never
/// changed by the pipeline.
pub fn on_first_response(store: &mut SessionStore, parts: RequestParts, resp: &Response) -> (r:
    FirstStep)
    ensures
        final(store).spec_cookies() == old(store).spec_cookies(),
        match resp.csrf_token {
            Some(t) => final(store).spec_token() == Some(t@) && (r matches FirstStep::Resend(p)
                && p.method == parts.method && p.url@ == parts.url@ && pair_views(p.query@)
                == pair_views(parts.query@) && opt_view(p.body) == opt_view(parts.body)
                && pair_views(p.headers@) == pair_views(parts.headers@).push(
                (spec_csrf_header_name(), t@),
            )),
            None => final(store).spec_token() == old(store).spec_token() && (r
                matches FirstStep::Done(o) && spec_outcome_for(resp.status, resp.body@, o)),
        },
{
    match &resp.csrf_token {
        Some(t) => {
            store.store_token(t.as_str());
            let mut parts = parts;
            let ghost h0 = parts.headers@;
            parts.headers.push((String::from_str("x-csrf-token"), t.clone()));
            proof {
                assert(pair_views(parts.headers@) =~= pair_views(h0).push(
                    (spec_csrf_header_name(), t@),
                ));
            }
            FirstStep::Resend(parts)
        },
        None => FirstStep::Done(classify_response(resp)),
    }
}

} // verus!
