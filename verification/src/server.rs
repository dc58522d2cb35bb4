//! The cross-origin policy of the api and the demo greeting. `/api` is
//! guarded by CORS (configured origins), WebSocket upgrades by an explicit
//! `Origin` check, since browsers always allow cross-origin WebSockets.
use vstd::prelude::*;

use crate::text::{concat3, contains_str, has_prefix, str_eq, str_starts_with};

verus! {

/// The contents of an optional string slice.
pub open spec fn opt_str_view(o: Option<&str>) -> Option<Seq<char>> {
    match o {
        Some(s) => Some(s@),
        None => None,
    }
}

/// The contents of a sequence of strings.
pub open spec fn views(v: Seq<String>) -> Seq<Seq<char>> {
    v.map_values(|s: String| s@)
}

/// `allowed` names `origin`, or holds the wildcard `"*"`.
pub open spec fn origin_listed(allowed: Seq<String>, origin: Seq<char>) -> bool {
    exists|i: int| 0 <= i < allowed.len() && (#[trigger] allowed[i]@ == "*"@ || allowed[i]@ == origin)
}

/// The host part of an origin: the origin without its `https://` or
/// `http://` scheme.
pub open spec fn origin_host(origin: Seq<char>) -> Seq<char> {
    if has_prefix(origin, "https://"@) {
        origin.skip("https://"@.len() as int)
    } else if has_prefix(origin, "http://"@) {
        origin.skip("http://"@.len() as int)
    } else {
        origin
    }
}

/// Whether a request with the `Origin` header `origin` and the `Host`
/// header `host` may open a WebSocket: no origin (a non-browser client),
/// a listed origin, the wildcard, or the same origin.
pub open spec fn ws_origin_passes(
    origin: Option<Seq<char>>,
    host: Option<Seq<char>>,
    allowed: Seq<String>,
) -> bool {
    match origin {
        None => true,
        Some(o) => origin_listed(allowed, o) || host == Some(origin_host(o)),
    }
}

/// Whether any configured origin is the wildcard.
fn has_wildcard(allowed: &[String]) -> (r: bool)
    ensures
        r == exists|i: int| 0 <= i < allowed@.len() && #[trigger] allowed@[i]@ == "*"@,
{
    contains_str(allowed, "*")
}

/// The host part of `origin`: without an `https://` or `http://` scheme.
pub fn strip_scheme(origin: &str) -> (r: &str)
    ensures
        r@ == origin_host(origin@),
{
    let https = "https://";
    let http = "http://";
    if str_starts_with(origin, https) {
        origin.substring_char(https.unicode_len(), origin.unicode_len())
    } else if str_starts_with(origin, http) {
        origin.substring_char(http.unicode_len(), origin.unicode_len())
    } else {
        origin
    }
}

/// The WebSocket origin check. `origin` and `host` are the request's
/// `Origin` and `Host` header values (`None` when absent or not text);
/// `allowed` are the configured cross-origin origins (`"*"` = any).
pub fn origin_allowed(origin: Option<&str>, host: Option<&str>, allowed: &[String]) -> (r: bool)
    ensures
        r == ws_origin_passes(opt_str_view(origin), opt_str_view(host), allowed@),
        origin is None ==> r,
        origin matches Some(o) ==> (r <==> ((exists|i: int|
            0 <= i < allowed@.len() && #[trigger] allowed@[i]@ == o@) || (exists|i: int|
            0 <= i < allowed@.len() && #[trigger] allowed@[i]@ == "*"@) || opt_str_view(host)
            == Some(origin_host(o@)))),
{
    proof {
        if origin is Some {
            ws_origin_passes_exactly_when(origin->0@, opt_str_view(host), allowed@);
        }
    }
    let origin = match origin {
        Some(o) => o,
        None => return true,
    };
    if has_wildcard(allowed) || contains_str(allowed, origin) {
        return true;
    }
    let origin_host = strip_scheme(origin);
    match host {
        Some(h) => str_eq(h, origin_host),
        None => false,
    }
}

/// A character an HTTP header value may hold: anything but control
/// characters other than tab, and DEL.
pub open spec fn header_value_char(c: char) -> bool {
    c == '\t' || (c as u32 >= 0x20 && c as u32 != 0x7F)
}

/// `s` is a valid HTTP header value.
pub open spec fn is_header_value(s: Seq<char>) -> bool {
    forall|i: int| 0 <= i < s.len() ==> #[trigger] header_value_char(s[i])
}

/// Whether `axum::http::HeaderValue::from_str` accepts `s`. Its source
/// accepts exactly the byte strings whose every byte is a tab or is at
/// least 0x20 and not 0x7F; every byte of a non-ASCII character is at
/// least 0x80, so per character that is `header_value_char`.
#[verifier::external_body]
fn parses_as_header_value(s: &str) -> (r: bool)
    ensures
        r == is_header_value(s@),
{
    axum::http::HeaderValue::from_str(s).is_ok()
}

/// How `/api` answers cross-origin requests.
#[derive(Debug, Clone, PartialEq, Eq)]
pub enum CorsPolicy {
    /// No CORS layer: same-origin only.
    SameOriginOnly,
    /// Any origin may call.
    AnyOrigin,
    /// These origins may call.
    Origins(Vec<String>),
}

/// The configured origins that are valid header values, in order.
pub open spec fn valid_origins(s: Seq<String>) -> Seq<Seq<char>>
    decreases s.len(),
{
    if s.len() == 0 {
        Seq::empty()
    } else {
        let rest = valid_origins(s.drop_last());
        if is_header_value(s.last()@) {
            rest.push(s.last()@)
        } else {
            rest
        }
    }
}

/// The CORS policy that `cors_origins` configures: none when empty, any
/// origin when one entry is `"*"`, else the listed origins (those that
/// are not valid header values are skipped).
pub fn cors_policy(cors_origins: &[String]) -> (r: CorsPolicy)
    ensures
        r is SameOriginOnly <==> cors_origins@.len() == 0,
        r is AnyOrigin <==> cors_origins@.len() > 0 && exists|i: int|
            0 <= i < cors_origins@.len() && #[trigger] cors_origins@[i]@ == "*"@,
        r matches CorsPolicy::Origins(v) ==> views(v@) == valid_origins(cors_origins@),
        r matches CorsPolicy::Origins(v) ==> views(v@) == views(cors_origins@).filter(
            header_value_test(),
        ),
{
    proof {
        valid_origins_is_the_valid_entries_in_order(cors_origins@);
    }
    if cors_origins.len() == 0 {
        return CorsPolicy::SameOriginOnly;
    }
    if has_wildcard(cors_origins) {
        return CorsPolicy::AnyOrigin;
    }
    let mut list: Vec<String> = Vec::new();
    let mut i: usize = 0;
    while i < cors_origins.len()
        invariant
            i <= cors_origins@.len(),
            views(list@) == valid_origins(cors_origins@.take(i as int)),
        decreases cors_origins@.len() - i,
    {
        assert(cors_origins@.take(i + 1).drop_last() == cors_origins@.take(i as int));
        let o = &cors_origins[i];
        if parses_as_header_value(o.as_str()) {
            list.push(o.clone());
        }
        assert(views(list@) == valid_origins(cors_origins@.take(i + 1)));
        i = i + 1;
    }
    assert(cors_origins@.take(cors_origins@.len() as int) == cors_origins@);
    CorsPolicy::Origins(list)
}

/// The kind of a WebSocket message the echo endpoint received.
#[derive(Clone, Copy, Debug, PartialEq, Eq, Structural)]
pub enum WsMessageKind {
    Text,
    Binary,
    Ping,
    Pong,
    Close,
}

/// What the echo endpoint does with a message.
#[derive(Clone, Copy, Debug, PartialEq, Eq, Structural)]
pub enum EchoAction {
    /// Send the message back.
    SendBack,
    /// Skip it and wait for the next one.
    Skip,
    /// End the session.
    Stop,
}

/// The echo endpoint's rule: data messages come back, a close ends the
/// session, control frames are left to the protocol layer.
pub open spec fn echo_rule(kind: WsMessageKind) -> EchoAction {
    match kind {
        WsMessageKind::Text | WsMessageKind::Binary => EchoAction::SendBack,
        WsMessageKind::Close => EchoAction::Stop,
        _ => EchoAction::Skip,
    }
}

/// What to do with a received message of kind `kind`.
pub fn echo_action(kind: WsMessageKind) -> (r: EchoAction)
    ensures
        r == echo_rule(kind),
{
    match kind {
        WsMessageKind::Text | WsMessageKind::Binary => EchoAction::SendBack,
        WsMessageKind::Close => EchoAction::Stop,
        _ => EchoAction::Skip,
    }
}

/// The demo greeting for `name` (`"world"` when absent).
pub fn hello_message(name: Option<&str>) -> (r: String)
    ensures
        r@ == "Hello, "@ + (match name {
            Some(n) => n@,
            None => "world"@,
        }) + "! You've been greeted from Rust!"@,
{
    let who = match name {
        Some(n) => n,
        None => "world",
    };
    concat3("Hello, ", who, "! You've been greeted from Rust!")
}

} // verus!

verus! {

/// A request without an `Origin` header (a non-browser client) passes.
pub proof fn no_origin_passes(host: Option<Seq<char>>, allowed: Seq<String>)
    ensures
        ws_origin_passes(None, host, allowed),
{
}

/// A same-origin request (the origin's host is the `Host` header) passes,
/// whatever origins are configured.
pub proof fn same_origin_passes(origin: Seq<char>, allowed: Seq<String>)
    ensures
        ws_origin_passes(Some(origin), Some(origin_host(origin)), allowed),
{
}

/// A configured wildcard lets every WebSocket origin through.
pub proof fn wildcard_passes_every_origin(
    allowed: Seq<String>,
    i: int,
    origin: Option<Seq<char>>,
    host: Option<Seq<char>>,
)
    requires
        0 <= i < allowed.len(),
        allowed[i]@ == "*"@,
    ensures
        ws_origin_passes(origin, host, allowed),
{
    if origin is Some {
        assert(origin_listed(allowed, origin->0));
    }
}

/// With no configured origins, a browser request passes only from the
/// same origin.
pub proof fn unconfigured_means_same_origin_only(origin: Seq<char>, host: Option<Seq<char>>)
    ensures
        ws_origin_passes(Some(origin), host, Seq::<String>::empty()) <==> host == Some(
            origin_host(origin),
        ),
{
}

/// A configured origin passes, from any host.
pub proof fn listed_origin_passes(
    allowed: Seq<String>,
    i: int,
    origin: Seq<char>,
    host: Option<Seq<char>>,
)
    requires
        0 <= i < allowed.len(),
        allowed[i]@ == origin,
    ensures
        ws_origin_passes(Some(origin), host, allowed),
{
    assert(origin_listed(allowed, origin));
}

} // verus!

verus! {

/// A browser WebSocket request passes only when its exact origin is
/// configured, the wildcard is configured, or it comes from the same
/// origin; every other origin (one listed only under another scheme or
/// port among them) is refused.
pub proof fn ws_origin_passes_exactly_when(
    origin: Seq<char>,
    host: Option<Seq<char>>,
    allowed: Seq<String>,
)
    ensures
        ws_origin_passes(Some(origin), host, allowed) <==> ((exists|i: int|
            0 <= i < allowed.len() && #[trigger] allowed[i]@ == origin) || (exists|i: int|
            0 <= i < allowed.len() && #[trigger] allowed[i]@ == "*"@) || host == Some(
            origin_host(origin),
        )),
{
    if ws_origin_passes(Some(origin), host, allowed) && host != Some(origin_host(origin)) {
        let i = choose|i: int|
            0 <= i < allowed.len() && (#[trigger] allowed[i]@ == "*"@ || allowed[i]@ == origin);
        assert(allowed[i]@ == "*"@ || allowed[i]@ == origin);
    }
    if exists|i: int| 0 <= i < allowed.len() && #[trigger] allowed[i]@ == origin {
        let i = choose|i: int| 0 <= i < allowed.len() && #[trigger] allowed[i]@ == origin;
        assert(origin_listed(allowed, origin));
    }
    if exists|i: int| 0 <= i < allowed.len() && #[trigger] allowed[i]@ == "*"@ {
        let i = choose|i: int| 0 <= i < allowed.len() && #[trigger] allowed[i]@ == "*"@;
        assert(origin_listed(allowed, origin));
    }
}

/// The test "is a valid header value", as a predicate.
pub open spec fn header_value_test() -> spec_fn(Seq<char>) -> bool {
    |x: Seq<char>| is_header_value(x)
}

/// The listed CORS origins are the configured ones that are valid header
/// values, all of them, in their configured order.
pub proof fn valid_origins_is_the_valid_entries_in_order(s: Seq<String>)
    ensures
        valid_origins(s) == views(s).filter(header_value_test()),
    decreases s.len(),
{
    reveal(Seq::filter);
    if s.len() > 0 {
        valid_origins_is_the_valid_entries_in_order(s.drop_last());
        let v = views(s);
        assert(v.len() == s.len());
        assert(v.drop_last() =~= views(s.drop_last()));
        assert(v.last() == s.last()@);
        assert(header_value_test()(v.last()) == is_header_value(s.last()@));
        assert(v.filter(header_value_test()) == (if header_value_test()(v.last()) {
            v.drop_last().filter(header_value_test()).push(v.last())
        } else {
            v.drop_last().filter(header_value_test())
        }));
    } else {
        assert(views(s) =~= Seq::<Seq<char>>::empty());
    }
}

/// Every configured origin that is a valid header value is allowed by the
/// CORS list, and everything the list allows is a configured, valid one.
pub proof fn valid_origins_keeps_every_valid_entry(s: Seq<String>, i: int)
    requires
        0 <= i < s.len(),
    ensures
        is_header_value(s[i]@) ==> valid_origins(s).contains(s[i]@),
        forall|x: Seq<char>| #[trigger] valid_origins(s).contains(x) ==> is_header_value(x)
            && views(s).contains(x),
{
    let pred = header_value_test();
    valid_origins_is_the_valid_entries_in_order(s);
    assert(views(s)[i] == s[i]@);
    if is_header_value(s[i]@) {
        views(s).lemma_filter_contains(pred, i);
    }
    assert forall|x: Seq<char>| #[trigger] valid_origins(s).contains(x) implies is_header_value(
        x,
    ) && views(s).contains(x) by {
        views(s).lemma_filter_contains_rev(pred, x);
        let j = choose|j: int| 0 <= j < views(s).filter(pred).len() && views(s).filter(pred)[j] == x;
        views(s).lemma_filter_pred(pred, j);
    }
}

/// A single valid configured origin is exactly the CORS list.
pub proof fn one_valid_origin_is_the_whole_list(o: String)
    requires
        is_header_value(o@),
    ensures
        valid_origins(seq![o]) == seq![o@],
{
    assert(seq![o].drop_last() =~= Seq::<String>::empty());
    assert(valid_origins(Seq::<String>::empty()) == Seq::<Seq<char>>::empty());
    assert(valid_origins(seq![o]) =~= seq![o@]);
}

} // verus!
