use header_proxy_gateway::cache::{Cache, CacheEntry};
use header_proxy_gateway::failure::Failure;
use header_proxy_gateway::message::{with_cors, Header, Method, Response, StagedRequest};
use header_proxy_gateway::pipeline::{
    decide, dispatch, receive, refuse, relay, step, Action, Event, Stage, MAX_CACHE_ID_LEN,
};
use header_proxy_gateway::route::{CachePolicy, Config, ConfigRedirect, RouteTable};

fn config(policy: CachePolicy) -> Config {
    let mut redirects = RouteTable::new();
    redirects.insert(
        "example".to_string(),
        ConfigRedirect {
            url: "https://example.com/graphql".to_string(),
            headers: vec![Header::new("x-header-1", "hello world")],
            method: Method::Post,
        },
    );
    Config { clear_cache_interval_in_seconds: 300, cache_policy: policy, redirects }
}

fn failure(status: u16, text: &str) -> (Stage, Action) {
    (
        Stage::Done,
        Action::Respond {
            response: Response {
                status,
                headers: vec![
                    Header::new("access-control-allow-origin", "*"),
                    Header::new("access-control-allow-headers", "*"),
                    Header::new("access-control-allow-methods", "*"),
                ],
                body: text.as_bytes().to_vec(),
            },
            store: None,
        },
    )
}

fn json_reply(status: u16, body: &str) -> Response {
    Response {
        status,
        headers: vec![Header::new("content-type", "application/json")],
        body: body.as_bytes().to_vec(),
    }
}

fn staged_example() -> StagedRequest {
    StagedRequest {
        method: Method::Post,
        url: "https://example.com/graphql".to_string(),
        headers: vec![Header::new("x-header-1", "hello world")],
    }
}

#[test]
fn cache_id_limit_is_fifty() {
    assert_eq!(MAX_CACHE_ID_LEN, 50);
}

#[test]
fn refuse_builds_a_terminal_failure() {
    assert_eq!(refuse(Failure::Unauthorized), failure(401, "Unauthorized"));
    assert_eq!(refuse(Failure::Upstream), failure(500, "Internal Server Error"));
    assert_eq!(refuse(Failure::UnknownRoute), failure(400, "Bad Request"));
}

#[test]
fn missing_routing_header_is_400() {
    let cache = Cache::new();
    let headers = vec![Header::new("accept", "*/*")];
    let expected = failure(400, "Bad Request: missing or malformed x-server header");
    for policy in [CachePolicy::PassThrough, CachePolicy::Manual] {
        let out = step(&config(policy), &cache, Stage::AwaitingHeaders, Event::Headers(headers.clone()));
        assert_eq!(out, expected);
    }
    let empty = Config {
        clear_cache_interval_in_seconds: 1,
        cache_policy: CachePolicy::PassThrough,
        redirects: RouteTable::new(),
    };
    assert_eq!(step(&empty, &cache, Stage::AwaitingHeaders, Event::Headers(Vec::new())), expected);
}

#[test]
fn malformed_routing_header_is_400() {
    let expected = failure(400, "Bad Request: missing or malformed x-server header");
    for byte in [0x00u8, 0x1f, 0x7f, 0x80, 0xff] {
        let headers = vec![Header { name: "x-server".to_string(), value: vec![b'e', byte] }];
        assert_eq!(receive(&config(CachePolicy::PassThrough), &headers), expected);
    }
}

#[test]
fn malformed_header_takes_precedence_over_unknown_route() {
    let headers = vec![Header { name: "x-server".to_string(), value: vec![b'n', b'o', 0x01] }];
    assert_eq!(
        receive(&config(CachePolicy::PassThrough), &headers),
        failure(400, "Bad Request: missing or malformed x-server header")
    );
}

#[test]
fn unknown_route_is_400() {
    let headers = vec![Header::new("x-server", "nowhere")];
    assert_eq!(receive(&config(CachePolicy::PassThrough), &headers), failure(400, "Bad Request"));
    let tabbed = vec![Header::new("x-server", "exam\tple")];
    assert_eq!(receive(&config(CachePolicy::PassThrough), &tabbed), failure(400, "Bad Request"));
}

#[test]
fn known_route_goes_to_the_hook_with_its_fixed_headers() {
    let headers = vec![Header::new("accept", "*/*"), Header::new("x-server", "example")];
    let out = receive(&config(CachePolicy::PassThrough), &headers);
    assert_eq!(
        out,
        (
            Stage::AwaitingVerdict { cache_id: None },
            Action::Authenticate { route: "example".to_string(), request: staged_example() },
        )
    );
}

#[test]
fn manual_policy_requires_a_cache_id() {
    let expected = failure(400, "Bad Request: missing or malformed x-cache-id header");
    let conf = config(CachePolicy::Manual);
    let missing = vec![Header::new("x-server", "example")];
    assert_eq!(receive(&conf, &missing), expected);
    let long = vec![Header::new("x-server", "example"), Header::new("x-cache-id", &"a".repeat(51))];
    assert_eq!(receive(&conf, &long), expected);
    let malformed = vec![
        Header::new("x-server", "example"),
        Header { name: "x-cache-id".to_string(), value: vec![0xfe] },
    ];
    assert_eq!(receive(&conf, &malformed), expected);
    let unknown_and_missing = vec![Header::new("x-server", "nowhere")];
    assert_eq!(receive(&conf, &unknown_and_missing), expected);
}

#[test]
fn manual_policy_accepts_a_cache_id_of_fifty_bytes() {
    let id = "b".repeat(50);
    let headers = vec![Header::new("x-cache-id", &id), Header::new("x-server", "example")];
    assert_eq!(
        receive(&config(CachePolicy::Manual), &headers),
        (
            Stage::AwaitingVerdict { cache_id: Some(id) },
            Action::Authenticate { route: "example".to_string(), request: staged_example() },
        )
    );
}

#[test]
fn unauthorized_is_401_and_touches_nothing() {
    let mut cache = Cache::new();
    cache.put("alice42".to_string(), b"cached".to_vec());
    let expected = failure(401, "Unauthorized");
    assert_eq!(decide(&cache, Some("42".to_string()), false, "alice".to_string()), expected);
    assert_eq!(decide(&cache, None, false, "alice".to_string()), expected);
    assert_eq!(cache.len(), 1);
    assert_eq!(cache.get(&"alice42".to_string()), Some(b"cached".to_vec()));
}

#[test]
fn authorized_without_cache_reads_the_body() {
    let cache = Cache::new();
    assert_eq!(
        decide(&cache, None, true, "alice".to_string()),
        (Stage::AwaitingBody { cache_key: None }, Action::ReadBody)
    );
}

#[test]
fn cache_key_is_identity_then_cache_id() {
    let cache = Cache::new();
    assert_eq!(
        decide(&cache, Some("42".to_string()), true, "alice".to_string()),
        (Stage::AwaitingBody { cache_key: Some("alice42".to_string()) }, Action::ReadBody)
    );
}

#[test]
fn cache_hit_answers_with_200_and_json() {
    let mut cache = Cache::new();
    cache.put("alice42".to_string(), b"{\"ok\":true}".to_vec());
    let out = decide(&cache, Some("42".to_string()), true, "alice".to_string());
    assert_eq!(
        out,
        (
            Stage::Done,
            Action::Respond {
                response: Response {
                    status: 200,
                    headers: with_cors(vec![Header::new("content-type", "application/json")]),
                    body: b"{\"ok\":true}".to_vec(),
                },
                store: None,
            },
        )
    );
    let other = decide(&cache, Some("42".to_string()), true, "bob".to_string());
    assert_eq!(other, (Stage::AwaitingBody { cache_key: Some("bob42".to_string()) }, Action::ReadBody));
}

#[test]
fn body_is_passed_through_verbatim() {
    assert_eq!(
        dispatch(Some("k".to_string()), Some(vec![0, 1, 2, 255])),
        (
            Stage::AwaitingUpstream { cache_key: Some("k".to_string()) },
            Action::Send { body: vec![0, 1, 2, 255] },
        )
    );
    assert_eq!(
        dispatch(None, Some(Vec::new())),
        (Stage::AwaitingUpstream { cache_key: None }, Action::Send { body: Vec::new() })
    );
}

#[test]
fn unreadable_body_is_500() {
    assert_eq!(dispatch(None, None), failure(500, "Internal Server Error"));
}

#[test]
fn transport_failure_is_500() {
    assert_eq!(relay(None, None), failure(500, "Internal Server Error"));
    assert_eq!(relay(Some("k".to_string()), None), failure(500, "Internal Server Error"));
}

#[test]
fn reply_is_relayed_with_cors() {
    let reply = Response {
        status: 201,
        headers: vec![Header::new("content-type", "text/html"), Header::new("etag", "abc")],
        body: b"<p>hi</p>".to_vec(),
    };
    assert_eq!(
        relay(None, Some(reply)),
        (
            Stage::Done,
            Action::Respond {
                response: Response {
                    status: 201,
                    headers: with_cors(vec![
                        Header::new("content-type", "text/html"),
                        Header::new("etag", "abc"),
                    ]),
                    body: b"<p>hi</p>".to_vec(),
                },
                store: None,
            },
        )
    );
}

#[test]
fn cached_reply_must_be_json() {
    let html = Response {
        status: 200,
        headers: vec![Header::new("content-type", "text/html")],
        body: b"<p>hi</p>".to_vec(),
    };
    assert_eq!(relay(Some("k".to_string()), Some(html)), failure(500, "Internal Server Error"));
    let untyped = Response { status: 200, headers: Vec::new(), body: b"{}".to_vec() };
    assert_eq!(relay(Some("k".to_string()), Some(untyped)), failure(500, "Internal Server Error"));
}

#[test]
fn json_reply_is_relayed_and_stored() {
    let out = relay(Some("alice42".to_string()), Some(json_reply(200, "{\"n\":1}")));
    assert_eq!(
        out,
        (
            Stage::Done,
            Action::Respond {
                response: Response {
                    status: 200,
                    headers: with_cors(vec![Header::new("content-type", "application/json")]),
                    body: b"{\"n\":1}".to_vec(),
                },
                store: Some(CacheEntry { key: "alice42".to_string(), value: b"{\"n\":1}".to_vec() }),
            },
        )
    );
}

#[test]
fn unexpected_event_is_500() {
    let conf = config(CachePolicy::PassThrough);
    let cache = Cache::new();
    let expected = failure(500, "Internal Server Error");
    assert_eq!(step(&conf, &cache, Stage::AwaitingHeaders, Event::Body(Some(Vec::new()))), expected);
    assert_eq!(
        step(&conf, &cache, Stage::Done, Event::Headers(vec![Header::new("x-server", "example")])),
        expected
    );
    assert_eq!(
        step(
            &conf,
            &cache,
            Stage::AwaitingBody { cache_key: None },
            Event::Verdict { authorized: true, identity: String::new() },
        ),
        expected
    );
    assert_eq!(
        step(&conf, &cache, Stage::AwaitingVerdict { cache_id: None }, Event::Upstream(None)),
        expected
    );
}

#[test]
fn scenario_authorized_request_is_forwarded_and_relayed() {
    let conf = config(CachePolicy::PassThrough);
    let cache = Cache::new();
    let headers = vec![Header::new("x-server", "example")];
    let (stage, action) = step(&conf, &cache, Stage::AwaitingHeaders, Event::Headers(headers));
    match action {
        Action::Authenticate { route, request } => {
            assert_eq!(route, "example");
            assert_eq!(request.url, "https://example.com/graphql");
            assert_eq!(request.method, Method::Post);
            assert!(request.headers.contains(&Header::new("x-header-1", "hello world")));
        }
        other => panic!("unexpected action: {:?}", other),
    }
    let (stage, action) =
        step(&conf, &cache, stage, Event::Verdict { authorized: true, identity: String::new() });
    assert_eq!(action, Action::ReadBody);
    let (stage, action) = step(&conf, &cache, stage, Event::Body(Some(b"{\"query\":1}".to_vec())));
    assert_eq!(action, Action::Send { body: b"{\"query\":1}".to_vec() });
    let (stage, action) =
        step(&conf, &cache, stage, Event::Upstream(Some(json_reply(200, "{\"data\":1}"))));
    assert_eq!(stage, Stage::Done);
    match action {
        Action::Respond { response, store } => {
            assert_eq!(response.status, 200);
            assert_eq!(response.body, b"{\"data\":1}".to_vec());
            assert!(response.headers.contains(&Header::new("content-type", "application/json")));
            assert!(response.headers.contains(&Header::new("access-control-allow-origin", "*")));
            assert!(response.headers.contains(&Header::new("access-control-allow-headers", "*")));
            assert!(response.headers.contains(&Header::new("access-control-allow-methods", "*")));
            assert_eq!(store, None);
        }
        other => panic!("unexpected action: {:?}", other),
    }
}

#[test]
fn scenario_unauthorized_request_is_401_without_upstream_call() {
    let conf = config(CachePolicy::PassThrough);
    let cache = Cache::new();
    let headers = vec![Header::new("x-server", "example")];
    let (stage, _) = step(&conf, &cache, Stage::AwaitingHeaders, Event::Headers(headers));
    let (stage, action) =
        step(&conf, &cache, stage, Event::Verdict { authorized: false, identity: String::new() });
    assert_eq!(stage, Stage::Done);
    match action {
        Action::Respond { response, store } => {
            assert_eq!(response.status, 401);
            assert_eq!(response.body, b"Unauthorized".to_vec());
            assert_eq!(store, None);
        }
        other => panic!("unexpected action: {:?}", other),
    }
    assert!(cache.is_empty());
}

#[test]
fn scenario_missing_routing_header_is_400_with_message() {
    let conf = config(CachePolicy::PassThrough);
    let cache = Cache::new();
    let (stage, action) = step(&conf, &cache, Stage::AwaitingHeaders, Event::Headers(Vec::new()));
    assert_eq!(stage, Stage::Done);
    match action {
        Action::Respond { response, .. } => {
            assert_eq!(response.status, 400);
            assert_eq!(
                response.body,
                b"Bad Request: missing or malformed x-server header".to_vec()
            );
            assert_eq!(response.headers.len(), 3);
        }
        other => panic!("unexpected action: {:?}", other),
    }
}

#[test]
fn same_request_twice_is_served_from_cache_the_second_time() {
    let conf = config(CachePolicy::Manual);
    let mut cache = Cache::new();
    let headers = vec![Header::new("x-server", "example"), Header::new("x-cache-id", "42")];
    let mut upstream_calls = 0;
    let mut bodies: Vec<Vec<u8>> = Vec::new();
    for _ in 0..2 {
        let mut stage = Stage::AwaitingHeaders;
        let mut event = Event::Headers(headers.clone());
        loop {
            let (next, action) = step(&conf, &cache, stage, event);
            stage = next;
            event = match action {
                Action::Authenticate { .. } => {
                    Event::Verdict { authorized: true, identity: "alice".to_string() }
                }
                Action::ReadBody => Event::Body(Some(b"{}".to_vec())),
                Action::Send { .. } => {
                    upstream_calls += 1;
                    Event::Upstream(Some(json_reply(200, "{\"answer\":42}")))
                }
                Action::Respond { response, store } => {
                    if let Some(entry) = store {
                        cache.put(entry.key, entry.value);
                    }
                    bodies.push(response.body);
                    break;
                }
            };
        }
        assert_eq!(stage, Stage::Done);
    }
    assert_eq!(upstream_calls, 1);
    assert_eq!(bodies[0], b"{\"answer\":42}".to_vec());
    assert_eq!(bodies[0], bodies[1]);
    assert_eq!(cache.get(&"alice42".to_string()), Some(b"{\"answer\":42}".to_vec()));
}

#[test]
fn each_failure_has_its_status_and_text() {
    let cases = [
        (Failure::RoutingHeader, 400, "Bad Request: missing or malformed x-server header"),
        (Failure::CacheId, 400, "Bad Request: missing or malformed x-cache-id header"),
        (Failure::UnknownRoute, 400, "Bad Request"),
        (Failure::Unauthorized, 401, "Unauthorized"),
        (Failure::Upstream, 500, "Internal Server Error"),
    ];
    for (failure, status, text) in cases {
        assert_eq!(failure.status(), status);
        assert_eq!(failure.text(), text);
        let response = failure.response();
        assert_eq!(response.status, status);
        assert_eq!(response.body, text.as_bytes().to_vec());
        assert_eq!(response.headers, with_cors(Vec::new()));
    }
}
