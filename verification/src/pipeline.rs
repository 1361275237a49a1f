//! The life of one request, as a state machine.
//!
//! The program around the gateway feeds [`step`] one event at a time and
//! carries out the action it answers with: it asks the authorization hook,
//! reads the caller's body, sends the request upstream, and finally replies.
//! Every decision is made here: which requests are refused and with what
//! status, when the cache answers, and what is stored for later.

use vstd::prelude::*;
use vstd::string::*;
use crate::cache::{after_put, Cache, CacheEntry};
use crate::failure::Failure;
use crate::keyed::{cached, holds};
use crate::message::{
    cors, failure_view, find_header, header_value, headers_view, hit_view, relayed_view, Header,
    Response, StagedRequest,
};
use crate::route::{CachePolicy, Config, ConfigRedirect};
use crate::text::{all_visible, ascii_text, bytes_eq, copy_bytes, header_value_text, utf8};

verus! {

/// The longest cache partition id a caller may send, in bytes.
pub const MAX_CACHE_ID_LEN: usize = 50;

/// Where a request stands.
#[derive(Clone, Debug, PartialEq, Eq)]
pub enum Stage {
    /// Nothing is known of the request yet.
    AwaitingHeaders,
    /// The authorization hook has been asked.
    AwaitingVerdict { cache_id: Option<String> },
    /// The caller's body is being read.
    AwaitingBody { cache_key: Option<String> },
    /// The request is on its way upstream.
    AwaitingUpstream { cache_key: Option<String> },
    /// The caller has its response.
    Done,
}

/// What happened outside.
#[derive(Clone, Debug, PartialEq, Eq)]
pub enum Event {
    /// The caller's headers arrived.
    Headers(Vec<Header>),
    /// The authorization hook answered, with the identity that partitions
    /// the cache.
    Verdict { authorized: bool, identity: String },
    /// The caller's body was read, or reading it failed.
    Body(Option<Vec<u8>>),
    /// The upstream replied, or the call failed.
    Upstream(Option<Response>),
}

/// What to do next outside.
#[derive(Clone, Debug, PartialEq, Eq)]
pub enum Action {
    /// Hand the staged request to the authorization hook.
    Authenticate { route: String, request: StagedRequest },
    /// Read the caller's body.
    ReadBody,
    /// Attach the body to the request that the hook returned, and send it.
    Send { body: Vec<u8> },
    /// Reply to the caller; where `store` is set, put it in the cache
    /// without making the caller wait.
    Respond { response: Response, store: Option<CacheEntry> },
}

/// How the caller's headers fare.
pub ghost enum Admission {
    BadRoutingHeader,
    BadCacheId,
    UnknownRoute,
    Admitted { route: Seq<char>, cache_id: Option<Seq<char>> },
}

/// Judges the caller's headers. The routing header `x-server` is checked
/// first, then, under the manual cache policy, the partition id in
/// `x-cache-id`, and only then is the route looked up.
pub open spec fn admission(
    routes: Seq<(Seq<char>, ConfigRedirect)>,
    policy: CachePolicy,
    headers: Seq<(Seq<char>, Seq<u8>)>,
) -> Admission {
    let routing = header_value(headers, "x-server"@);
    let id = header_value(headers, "x-cache-id"@);
    if routing is None || !all_visible(routing->0) {
        Admission::BadRoutingHeader
    } else if policy is Manual && (id is None || !all_visible(id->0) || id->0.len()
        > MAX_CACHE_ID_LEN) {
        Admission::BadCacheId
    } else if !holds(routes, ascii_text(routing->0)) {
        Admission::UnknownRoute
    } else {
        Admission::Admitted {
            route: ascii_text(routing->0),
            cache_id: if policy is Manual {
                Some(ascii_text(id->0))
            } else {
                None
            },
        }
    }
}

/// An optional text as characters.
pub open spec fn text_of(text: Option<String>) -> Option<Seq<char>> {
    match text {
        Some(t) => Some(t@),
        None => None,
    }
}

/// An optional cache entry as key and bytes.
pub open spec fn entry_of(entry: Option<CacheEntry>) -> Option<(Seq<char>, Seq<u8>)> {
    match entry {
        Some(e) => Some(e@),
        None => None,
    }
}

/// The request ends here with a failure response, and nothing is stored.
pub open spec fn refuses(out: (Stage, Action), failure: Failure) -> bool {
    &&& out.0 is Done
    &&& out.1 matches Action::Respond { response, store }
    &&& store is None
    &&& response@ == failure_view(failure.status_of(), failure.text_of())
}

/// What [`receive`] answers.
pub open spec fn receive_post(config: Config, headers: Vec<Header>, out: (Stage, Action)) -> bool {
    match admission(config.redirects@, config.cache_policy, headers_view(headers@)) {
        Admission::BadRoutingHeader => refuses(out, Failure::RoutingHeader),
        Admission::BadCacheId => refuses(out, Failure::CacheId),
        Admission::UnknownRoute => refuses(out, Failure::UnknownRoute),
        Admission::Admitted { route, cache_id } => {
            &&& out.0 matches Stage::AwaitingVerdict { cache_id: id }
            &&& text_of(id) == cache_id
            &&& out.1 matches Action::Authenticate { route: name, request }
            &&& name@ == route
            &&& request@ == cached(config.redirects@, route)->0.staged()
        },
    }
}

/// What [`decide`] answers.
pub open spec fn decide_post(
    cache: Cache,
    cache_id: Option<String>,
    authorized: bool,
    identity: String,
    out: (Stage, Action),
) -> bool {
    if !authorized {
        refuses(out, Failure::Unauthorized)
    } else {
        match cache_id {
            None => {
                &&& out.0 matches Stage::AwaitingBody { cache_key }
                &&& cache_key is None
                &&& out.1 is ReadBody
            },
            Some(id) => match cached(cache@, identity@ + id@) {
                Some(bytes) => {
                    &&& out.0 is Done
                    &&& out.1 matches Action::Respond { response, store }
                    &&& store is None
                    &&& response@ == hit_view(bytes)
                },
                None => {
                    &&& out.0 matches Stage::AwaitingBody { cache_key }
                    &&& text_of(cache_key) == Some(identity@ + id@)
                    &&& out.1 is ReadBody
                },
            },
        }
    }
}

/// What [`dispatch`] answers.
pub open spec fn dispatch_post(
    cache_key: Option<String>,
    body: Option<Vec<u8>>,
    out: (Stage, Action),
) -> bool {
    match body {
        None => refuses(out, Failure::Upstream),
        Some(bytes) => {
            &&& out.0 matches Stage::AwaitingUpstream { cache_key: key }
            &&& text_of(key) == text_of(cache_key)
            &&& out.1 matches Action::Send { body: sent }
            &&& sent@ == bytes@
        },
    }
}

/// The reply may be relayed: under a cache key it has to be JSON.
pub open spec fn acceptable(cache_key: Option<String>, reply: Response) -> bool {
    cache_key is Some ==> header_value(reply@.headers, "content-type"@) == Some(
        utf8("application/json"@),
    )
}

/// What [`relay`] answers.
pub open spec fn relay_post(
    cache_key: Option<String>,
    reply: Option<Response>,
    out: (Stage, Action),
) -> bool {
    match reply {
        None => refuses(out, Failure::Upstream),
        Some(r) => if acceptable(cache_key, r) {
            &&& out.0 is Done
            &&& out.1 matches Action::Respond { response, store }
            &&& response@ == relayed_view(r@)
            &&& entry_of(store) == match cache_key {
                Some(key) => Some((key@, r.body@)),
                None => None,
            }
        } else {
            refuses(out, Failure::Upstream)
        },
    }
}

/// What [`step`] answers: each stage takes the one event it waits for, and
/// any other event ends the request with status 500.
pub open spec fn step_post(
    config: Config,
    cache: Cache,
    stage: Stage,
    event: Event,
    out: (Stage, Action),
) -> bool {
    match (stage, event) {
        (Stage::AwaitingHeaders, Event::Headers(headers)) => receive_post(config, headers, out),
        (Stage::AwaitingVerdict { cache_id }, Event::Verdict { authorized, identity }) => decide_post(
            cache,
            cache_id,
            authorized,
            identity,
            out,
        ),
        (Stage::AwaitingBody { cache_key }, Event::Body(body)) => dispatch_post(
            cache_key,
            body,
            out,
        ),
        (Stage::AwaitingUpstream { cache_key }, Event::Upstream(reply)) => relay_post(
            cache_key,
            reply,
            out,
        ),
        _ => refuses(out, Failure::Upstream),
    }
}

/// Ends the request with a failure response.
pub fn refuse(failure: Failure) -> (out: (Stage, Action))
    ensures
        refuses(out, failure),
{
    (Stage::Done, Action::Respond { response: failure.response(), store: None })
}

/// Validates the caller's headers and finds the route: the request is
/// refused with status 400, or its staged request goes to the authorization
/// hook.
pub fn receive(config: &Config, headers: &Vec<Header>) -> (out: (Stage, Action))
    requires
        config.redirects.wf(),
    ensures
        receive_post(*config, *headers, out),
{
    let name = match find_header(headers, &String::from_str("x-server")) {
        None => {
            return refuse(Failure::RoutingHeader);
        },
        Some(value) => match header_value_text(value) {
            None => {
                return refuse(Failure::RoutingHeader);
            },
            Some(text) => text,
        },
    };
    let cache_id = match config.cache_policy {
        CachePolicy::PassThrough => None,
        CachePolicy::Manual => match find_header(headers, &String::from_str("x-cache-id")) {
            None => {
                return refuse(Failure::CacheId);
            },
            Some(value) => {
                if value.len() > MAX_CACHE_ID_LEN {
                    return refuse(Failure::CacheId);
                }
                match header_value_text(value) {
                    None => {
                        return refuse(Failure::CacheId);
                    },
                    Some(text) => Some(text),
                }
            },
        },
    };
    match config.redirects.lookup(&name) {
        None => refuse(Failure::UnknownRoute),
        Some(route) => (
            Stage::AwaitingVerdict { cache_id },
            Action::Authenticate { route: name, request: route.stage() },
        ),
    }
}

/// Acts on the hook's answer: an unauthorized request is refused with
/// status 401 before the cache is looked at; an authorized one is served
/// from the cache under the key `identity` followed by the caller's
/// partition id, or goes on to be forwarded.
pub fn decide(cache: &Cache, cache_id: Option<String>, authorized: bool, identity: String) -> (out:
    (Stage, Action))
    requires
        cache.wf(),
    ensures
        decide_post(*cache, cache_id, authorized, identity, out),
{
    if !authorized {
        return refuse(Failure::Unauthorized);
    }
    match cache_id {
        None => (Stage::AwaitingBody { cache_key: None }, Action::ReadBody),
        Some(id) => {
            let key = identity.concat(id.as_str());
            match cache.get(&key) {
                Some(bytes) => (
                    Stage::Done,
                    Action::Respond { response: Response::hit(bytes), store: None },
                ),
                None => (Stage::AwaitingBody { cache_key: Some(key) }, Action::ReadBody),
            }
        },
    }
}

/// Sends the request upstream with the caller's body, or ends with status
/// 500 where the body could not be read.
pub fn dispatch(cache_key: Option<String>, body: Option<Vec<u8>>) -> (out: (Stage, Action))
    ensures
        dispatch_post(cache_key, body, out),
{
    match body {
        None => refuse(Failure::Upstream),
        Some(bytes) => (Stage::AwaitingUpstream { cache_key }, Action::Send { body: bytes }),
    }
}

/// Relays the upstream reply with the CORS headers added, and under a cache
/// key has its body stored; ends with status 500 where the call failed or a
/// reply that would be cached is not JSON.
pub fn relay(cache_key: Option<String>, reply: Option<Response>) -> (out: (Stage, Action))
    ensures
        relay_post(cache_key, reply, out),
{
    match reply {
        None => refuse(Failure::Upstream),
        Some(r) => {
            let store = match cache_key {
                None => None,
                Some(key) => {
                    let json = "application/json".as_bytes_vec();
                    let fits = match find_header(&r.headers, &String::from_str("content-type")) {
                        None => false,
                        Some(value) => bytes_eq(value, &json),
                    };
                    if !fits {
                        return refuse(Failure::Upstream);
                    }
                    Some(CacheEntry { key, value: copy_bytes(&r.body) })
                },
            };
            (Stage::Done, Action::Respond { response: Response::relayed(r), store })
        },
    }
}

/// Takes the request one step on: from its stage and what happened outside
/// to its next stage and what to do next.
pub fn step(config: &Config, cache: &Cache, stage: Stage, event: Event) -> (out: (Stage, Action))
    requires
        config.redirects.wf(),
        cache.wf(),
    ensures
        step_post(*config, *cache, stage, event, out),
{
    match (stage, event) {
        (Stage::AwaitingHeaders, Event::Headers(headers)) => receive(config, &headers),
        (Stage::AwaitingVerdict { cache_id }, Event::Verdict { authorized, identity }) => decide(
            cache,
            cache_id,
            authorized,
            identity,
        ),
        (Stage::AwaitingBody { cache_key }, Event::Body(body)) => dispatch(cache_key, body),
        (Stage::AwaitingUpstream { cache_key }, Event::Upstream(reply)) => relay(cache_key, reply),
        _ => refuse(Failure::Upstream),
    }
}

/// A request without the routing header is answered with status 400,
/// whatever the routes and the cache policy.
pub proof fn law_missing_routing_header(
    config: Config,
    cache: Cache,
    headers: Vec<Header>,
    out: (Stage, Action),
)
    requires
        step_post(config, cache, Stage::AwaitingHeaders, Event::Headers(headers), out),
        header_value(headers_view(headers@), "x-server"@) is None,
    ensures
        refuses(out, Failure::RoutingHeader),
        out.1 matches Action::Respond { response, .. } && response.status == 400,
{
}

/// A request whose routing header names no route of the table is answered
/// with status 400.
pub proof fn law_unknown_route(
    config: Config,
    cache: Cache,
    headers: Vec<Header>,
    out: (Stage, Action),
)
    requires
        step_post(config, cache, Stage::AwaitingHeaders, Event::Headers(headers), out),
        header_value(headers_view(headers@), "x-server"@) matches Some(name) && !holds(
            config.redirects@,
            ascii_text(name),
        ),
    ensures
        out.0 is Done,
        out.1 matches Action::Respond { response, store } && response.status == 400
            && store is None,
{
}

/// Where the hook says no, the request ends with status 401 and the text
/// "Unauthorized": nothing is sent upstream and nothing is stored.
pub proof fn law_unauthorized(
    config: Config,
    cache: Cache,
    cache_id: Option<String>,
    identity: String,
    out: (Stage, Action),
)
    requires
        step_post(
            config,
            cache,
            Stage::AwaitingVerdict { cache_id },
            Event::Verdict { authorized: false, identity },
            out,
        ),
    ensures
        refuses(out, Failure::Unauthorized),
        out.1 matches Action::Respond { response, store } && response.status == 401
            && store is None,
{
}

/// Whatever the stage and the event, a response to the caller carries the
/// CORS headers at the end of its headers.
pub proof fn law_cors_on_every_response(
    config: Config,
    cache: Cache,
    stage: Stage,
    event: Event,
    out: (Stage, Action),
)
    requires
        step_post(config, cache, stage, event, out),
    ensures
        out.1 matches Action::Respond { response, .. } ==> response@.headers.len() >= 3
            && response@.headers.subrange(
            response@.headers.len() - 3,
            response@.headers.len() as int,
        ) == cors(),
{
    if let Action::Respond { response, store } = out.1 {
        let h = response@.headers;
        assert(cors().len() == 3);
        assert(h.subrange(h.len() - 3, h.len() as int) =~= cors());
    }
}

/// The same authorized request, twice: once the body that the first reply
/// was relayed with is stored, the second is answered from the cache
/// with that same body and status 200, and nothing is sent upstream.
pub proof fn law_second_request_served_from_cache(
    cache: Cache,
    later: Cache,
    cache_id: String,
    identity: String,
    key: String,
    reply: Response,
    first: (Stage, Action),
    second: (Stage, Action),
)
    requires
        cache.wf(),
        key@ == identity@ + cache_id@,
        acceptable(Some(key), reply),
        relay_post(Some(key), Some(reply), first),
        first.1 matches Action::Respond { store: Some(entry), .. } && later@ == after_put(
            cache@,
            cache.limit(),
            entry@.0,
            entry@.1,
        ),
        decide_post(later, Some(cache_id), true, identity, second),
    ensures
        second.0 is Done,
        first.1 matches Action::Respond { response: one, .. } && second.1 matches Action::Respond {
            response: two,
            store,
        } && two.body@ == one.body@ && two.status == 200 && store is None,
{
    crate::cache::law_put_then_get(cache@, cache.limit(), key@, reply.body@);
}

} // verus!
