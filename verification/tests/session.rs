use std::collections::HashMap;

use cache_aside::body::{Data, ResponseBody, StoredObject};
use cache_aside::failure::Failure;
use cache_aside::handler::{get, get_with, post, PostRequest};
use cache_aside::key::get_r2_key;
use cache_aside::session::{
    cache_url, classify, fetch_fallback, put_in_r2, Action, Event, Reply, Session, Verdict, DEFAULT_USER_AGENT,
};

const URL_A: &str = "http://example.com/a";
const KEY_A: &str = "5b/d4/8fa66118084cc32779267a31116dc05c70bcbca0f28e990cd58ce10afeae";

/// An origin and a store held in memory. A stream is stood for by a number.
struct World {
    status: u16,
    body: ResponseBody<u32>,
    store: HashMap<String, (Data<u32>, String)>,
    fallback_url: Option<String>,
    origin_fetches: Vec<(String, String)>,
    fallback_fetches: Vec<String>,
    duplicates: usize,
    heads: usize,
    puts: usize,
    gets: usize,
}

fn world(status: u16, body: &str) -> World {
    World {
        status,
        body: ResponseBody::Body(body.as_bytes().to_vec()),
        store: HashMap::new(),
        fallback_url: Some("https://fallback.example/page".to_string()),
        origin_fetches: Vec::new(),
        fallback_fetches: Vec::new(),
        duplicates: 0,
        heads: 0,
        puts: 0,
        gets: 0,
    }
}

fn read_back(data: &Data<u32>) -> ResponseBody<u32> {
    match data {
        Data::Empty => ResponseBody::Empty,
        Data::Bytes(bytes) => ResponseBody::Body(bytes.clone()),
        Data::ReadableStream(stream) => ResponseBody::Stream(*stream),
    }
}

fn carry_out(world: &mut World, action: Action<u32>) -> Event<u32> {
    match action {
        Action::FetchOrigin { url, user_agent } => {
            world.origin_fetches.push((url, user_agent));
            Event::OriginResponded { status: world.status }
        }
        Action::Duplicate => {
            world.duplicates += 1;
            Event::Duplicated { body: world.body.clone() }
        }
        Action::Head { key } => {
            world.heads += 1;
            Event::HeadDone { exists: world.store.contains_key(&key) }
        }
        Action::Put { key, value, url } => {
            world.puts += 1;
            world.store.insert(key, (value, url));
            Event::PutDone
        }
        Action::Get { key } => {
            world.gets += 1;
            let object =
                world.store.get(&key).map(|(data, _)| StoredObject { body: Some(read_back(data)) });
            Event::GetDone { object }
        }
        Action::LookUpFallback => match &world.fallback_url {
            Some(url) => Event::FallbackConfigured { url: url.clone() },
            None => Event::Failed,
        },
        Action::FetchFallback { url } => {
            world.fallback_fetches.push(url);
            Event::FallbackResponded
        }
        Action::Respond(_) | Action::Fail(_) => panic!("the request has ended"),
    }
}

fn is_final(action: &Action<u32>) -> bool {
    matches!(action, Action::Respond(_) | Action::Fail(_))
}

fn drive(world: &mut World, begun: (Session<u32>, Action<u32>)) -> Action<u32> {
    let (mut session, mut action) = begun;
    let mut steps = 0;
    while !is_final(&action) {
        assert!(!session.done());
        let event = carry_out(world, action);
        let next = session.step(event);
        session = next.0;
        action = next.1;
        steps += 1;
        assert!(steps <= 4);
    }
    assert!(session.done());
    action
}

fn bytes(text: &str) -> Vec<u8> {
    text.as_bytes().to_vec()
}

#[test]
fn cold_cache_healthy_origin() {
    let mut w = world(200, "hello");
    let last = drive(&mut w, cache_url(URL_A.to_string(), None));
    assert_eq!(last, Action::Respond(Reply::Origin));
    assert_eq!(w.store.len(), 1);
    assert_eq!(get_r2_key(URL_A), KEY_A);
    assert_eq!(w.store.get(KEY_A), Some(&(Data::Bytes(bytes("hello")), URL_A.to_string())));
    assert_eq!(w.origin_fetches.len(), 1);
    assert_eq!(w.duplicates, 1);
    assert_eq!(w.heads, 1);
    assert_eq!(w.puts, 1);
    assert_eq!(w.gets, 0);
    assert!(w.fallback_fetches.is_empty());
}

#[test]
fn warm_cache_origin_down() {
    let mut w = world(200, "hello");
    drive(&mut w, cache_url(URL_A.to_string(), None));
    w.status = 500;
    w.body = ResponseBody::Body(bytes("broken"));
    let last = drive(&mut w, cache_url(URL_A.to_string(), None));
    assert_eq!(last, Action::Respond(Reply::Cached { body: ResponseBody::Body(bytes("hello")) }));
    assert_eq!(w.puts, 1);
    assert_eq!(w.gets, 1);
    assert!(w.fallback_fetches.is_empty());
    assert_eq!(w.store.get(KEY_A), Some(&(Data::Bytes(bytes("hello")), URL_A.to_string())));
}

#[test]
fn cold_cache_origin_down() {
    let mut w = world(404, "not found");
    let last = drive(&mut w, cache_url("http://example.com/unseen".to_string(), None));
    assert_eq!(last, Action::Respond(Reply::Fallback));
    assert_eq!(w.fallback_fetches, vec!["https://fallback.example/page".to_string()]);
    assert_eq!(w.gets, 1);
    assert_eq!(w.puts, 0);
    assert_eq!(w.heads, 0);
    assert_eq!(w.duplicates, 0);
    assert!(w.store.is_empty());
}

#[test]
fn unauthorized_post() {
    let mut w = world(200, "hello");
    let request = PostRequest { url: URL_A.to_string(), access_token: "wrong".to_string() };
    let begun = post::<u32>(request, "secret", None);
    assert!(begun.0.done());
    assert_eq!(begun.1, Action::Fail(Failure::InvalidToken));
    let last = drive(&mut w, begun);
    assert_eq!(last, Action::Fail(Failure::InvalidToken));
    assert_eq!(Failure::InvalidToken.status_code(), 403);
    assert_eq!(Failure::InvalidToken.client_body(), "invalid access token");
    assert!(w.origin_fetches.is_empty());
    assert_eq!(w.heads + w.puts + w.gets + w.duplicates + w.fallback_fetches.len(), 0);
    assert!(w.store.is_empty());
}

#[test]
fn concurrent_first_fetch_race() {
    let mut w = world(200, "hello");
    let (s1, a1) = cache_url::<u32>(URL_A.to_string(), None);
    let (s2, a2) = cache_url::<u32>(URL_A.to_string(), None);
    let e1 = carry_out(&mut w, a1);
    let e2 = carry_out(&mut w, a2);
    let (s1, a1) = s1.step(e1);
    let (s2, a2) = s2.step(e2);
    assert_eq!(a1, Action::Duplicate);
    assert_eq!(a2, Action::Duplicate);
    let e1 = carry_out(&mut w, a1);
    let e2 = carry_out(&mut w, a2);
    let (s1, a1) = s1.step(e1);
    let (s2, a2) = s2.step(e2);
    let e1 = carry_out(&mut w, a1);
    let (s1, a1) = s1.step(e1);
    assert!(matches!(a1, Action::Put { .. }));
    let e1 = carry_out(&mut w, a1);
    let (s1, a1) = s1.step(e1);
    let e2 = carry_out(&mut w, a2);
    let (s2, a2) = s2.step(e2);
    assert_eq!(a1, Action::Respond(Reply::Origin));
    assert_eq!(a2, Action::Respond(Reply::Origin));
    assert!(s1.done() && s2.done());
    assert_eq!(w.origin_fetches.len(), 2);
    assert_eq!(w.puts, 1);
    assert_eq!(w.store.len(), 1);
    assert_eq!(w.store.get(KEY_A), Some(&(Data::Bytes(bytes("hello")), URL_A.to_string())));
}

#[test]
fn race_with_both_probes_before_both_writes_leaves_one_object() {
    let mut w = world(200, "hello");
    let (s1, a1) = cache_url::<u32>(URL_A.to_string(), None);
    let (s2, a2) = cache_url::<u32>(URL_A.to_string(), None);
    let e1 = carry_out(&mut w, a1);
    let e2 = carry_out(&mut w, a2);
    let (s1, a1) = s1.step(e1);
    let (s2, a2) = s2.step(e2);
    let e1 = carry_out(&mut w, a1);
    let e2 = carry_out(&mut w, a2);
    let (s1, a1) = s1.step(e1);
    let (s2, a2) = s2.step(e2);
    let e1 = carry_out(&mut w, a1);
    let e2 = carry_out(&mut w, a2);
    let (s1, a1) = s1.step(e1);
    let (s2, a2) = s2.step(e2);
    let e1 = carry_out(&mut w, a1);
    let e2 = carry_out(&mut w, a2);
    let (_, a1) = s1.step(e1);
    let (_, a2) = s2.step(e2);
    assert_eq!(a1, Action::Respond(Reply::Origin));
    assert_eq!(a2, Action::Respond(Reply::Origin));
    assert_eq!(w.store.len(), 1);
    assert_eq!(w.store.get(KEY_A), Some(&(Data::Bytes(bytes("hello")), URL_A.to_string())));
}

#[test]
fn second_write_for_a_key_is_skipped() {
    let mut w = world(200, "first");
    let last = drive(&mut w, cache_url(URL_A.to_string(), None));
    assert_eq!(last, Action::Respond(Reply::Origin));
    w.body = ResponseBody::Body(bytes("second"));
    let last = drive(&mut w, cache_url(URL_A.to_string(), None));
    assert_eq!(last, Action::Respond(Reply::Origin));
    assert_eq!(w.heads, 2);
    assert_eq!(w.puts, 1);
    assert_eq!(w.store.len(), 1);
    assert_eq!(w.store.get(KEY_A), Some(&(Data::Bytes(bytes("first")), URL_A.to_string())));
}

#[test]
fn what_was_written_is_read_back() {
    let mut w = world(201, "body of the answer");
    drive(&mut w, cache_url("http://example.com/round".to_string(), None));
    w.status = 503;
    let last = drive(&mut w, cache_url("http://example.com/round".to_string(), None));
    assert_eq!(
        last,
        Action::Respond(Reply::Cached { body: ResponseBody::Body(bytes("body of the answer")) })
    );
}

#[test]
fn two_urls_are_stored_under_two_keys() {
    let mut w = world(200, "one");
    drive(&mut w, cache_url("http://example.com/1".to_string(), None));
    w.body = ResponseBody::Body(bytes("two"));
    drive(&mut w, cache_url("http://example.com/2".to_string(), None));
    assert_eq!(w.store.len(), 2);
    w.status = 500;
    let last = drive(&mut w, cache_url("http://example.com/2".to_string(), None));
    assert_eq!(last, Action::Respond(Reply::Cached { body: ResponseBody::Body(bytes("two")) }));
    let last = drive(&mut w, cache_url("http://example.com/3".to_string(), None));
    assert_eq!(last, Action::Respond(Reply::Fallback));
}

#[test]
fn empty_and_streamed_bodies_are_stored_as_they_are() {
    let mut w = world(200, "");
    w.body = ResponseBody::Empty;
    drive(&mut w, cache_url("http://example.com/empty".to_string(), None));
    w.body = ResponseBody::Stream(7);
    drive(&mut w, cache_url("http://example.com/stream".to_string(), None));
    assert_eq!(
        w.store.get(&get_r2_key("http://example.com/empty")),
        Some(&(Data::Empty, "http://example.com/empty".to_string()))
    );
    assert_eq!(
        w.store.get(&get_r2_key("http://example.com/stream")),
        Some(&(Data::ReadableStream(7), "http://example.com/stream".to_string()))
    );
    w.status = 500;
    let last = drive(&mut w, cache_url("http://example.com/stream".to_string(), None));
    assert_eq!(last, Action::Respond(Reply::Cached { body: ResponseBody::Stream(7) }));
    let last = drive(&mut w, cache_url("http://example.com/empty".to_string(), None));
    assert_eq!(last, Action::Respond(Reply::Cached { body: ResponseBody::Empty }));
}

#[test]
fn into_data_keeps_the_body() {
    assert_eq!(ResponseBody::<u32>::Empty.into_data(), Data::Empty);
    assert_eq!(ResponseBody::<u32>::Body(vec![1, 2, 3]).into_data(), Data::Bytes(vec![1, 2, 3]));
    assert_eq!(ResponseBody::<u32>::Body(vec![]).into_data(), Data::Bytes(vec![]));
    assert_eq!(ResponseBody::Stream(9u32).into_data(), Data::ReadableStream(9));
}

#[test]
fn put_in_r2_writes_under_the_key_of_the_url() {
    let write = put_in_r2(URL_A, ResponseBody::<u32>::Body(bytes("hello")), false);
    assert_eq!(
        write,
        Some(Action::Put {
            key: KEY_A.to_string(),
            value: Data::Bytes(bytes("hello")),
            url: URL_A.to_string()
        })
    );
    let write = put_in_r2("", ResponseBody::Stream(5u32), false);
    assert_eq!(
        write,
        Some(Action::Put {
            key: get_r2_key(""),
            value: Data::ReadableStream(5),
            url: String::new()
        })
    );
}

#[test]
fn put_in_r2_skips_a_key_that_exists() {
    assert_eq!(put_in_r2(URL_A, ResponseBody::<u32>::Body(bytes("hello")), true), None);
    assert_eq!(put_in_r2(URL_A, ResponseBody::<u32>::Empty, true), None);
}

#[test]
fn status_bands() {
    assert_eq!(classify(200), Verdict::Store);
    assert_eq!(classify(204), Verdict::Store);
    assert_eq!(classify(299), Verdict::Store);
    assert_eq!(classify(400), Verdict::Recover);
    assert_eq!(classify(404), Verdict::Recover);
    assert_eq!(classify(500), Verdict::Recover);
    assert_eq!(classify(599), Verdict::Recover);
    assert_eq!(classify(600), Verdict::Recover);
    assert_eq!(classify(u16::MAX), Verdict::Recover);
    assert_eq!(classify(0), Verdict::Refuse);
    assert_eq!(classify(100), Verdict::Refuse);
    assert_eq!(classify(199), Verdict::Refuse);
    assert_eq!(classify(300), Verdict::Refuse);
    assert_eq!(classify(301), Verdict::Refuse);
    assert_eq!(classify(399), Verdict::Refuse);
}

#[test]
fn redirect_from_the_origin_fails_the_request() {
    for status in [300u16, 302, 399, 199, 101] {
        let mut w = world(status, "moved");
        let last = drive(&mut w, cache_url(URL_A.to_string(), None));
        assert_eq!(last, Action::Fail(Failure::UnexpectedStatus));
        assert!(w.store.is_empty());
        assert_eq!(w.heads + w.puts + w.gets + w.duplicates + w.fallback_fetches.len(), 0);
    }
    assert_eq!(Failure::UnexpectedStatus.message(), "unexpected status code from origin");
    assert_eq!(Failure::UnexpectedStatus.status_code(), 500);
}

#[test]
fn first_action_fetches_the_origin() {
    let (session, action) = cache_url::<u32>(URL_A.to_string(), None);
    assert!(!session.done());
    assert_eq!(session.url(), URL_A);
    assert_eq!(
        action,
        Action::FetchOrigin {
            url: URL_A.to_string(),
            user_agent: "Mozilla/5.0 (Windows NT 10.0; Win64; x64) AppleWebKit/537.36 (KHTML, like Gecko) Chrome/142.0.0.0 Safari/537.36".to_string()
        }
    );
    assert_eq!(
        DEFAULT_USER_AGENT,
        "Mozilla/5.0 (Windows NT 10.0; Win64; x64) AppleWebKit/537.36 (KHTML, like Gecko) Chrome/142.0.0.0 Safari/537.36"
    );
}

#[test]
fn user_agent_of_the_client_is_forwarded() {
    let (_, action) = cache_url::<u32>(URL_A.to_string(), Some("curl/8.0".to_string()));
    assert_eq!(
        action,
        Action::FetchOrigin { url: URL_A.to_string(), user_agent: "curl/8.0".to_string() }
    );
    let (_, action) = cache_url::<u32>(String::new(), Some(String::new()));
    assert_eq!(action, Action::FetchOrigin { url: String::new(), user_agent: String::new() });
}

#[test]
fn steps_of_a_success() {
    let (s, _) = cache_url::<u32>(URL_A.to_string(), None);
    let (s, a) = s.step(Event::OriginResponded { status: 200 });
    assert_eq!(a, Action::Duplicate);
    let (s, a) = s.step(Event::Duplicated { body: ResponseBody::Body(bytes("hello")) });
    assert_eq!(a, Action::Head { key: KEY_A.to_string() });
    let (s, a) = s.step(Event::HeadDone { exists: false });
    assert_eq!(
        a,
        Action::Put {
            key: KEY_A.to_string(),
            value: Data::Bytes(bytes("hello")),
            url: URL_A.to_string()
        }
    );
    assert!(!s.done());
    let (s, a) = s.step(Event::PutDone);
    assert_eq!(a, Action::Respond(Reply::Origin));
    assert!(s.done());
    assert_eq!(s.url(), URL_A);
}

#[test]
fn steps_of_a_failure() {
    let (s, _) = cache_url::<u32>(URL_A.to_string(), None);
    let (s, a) = s.step(Event::OriginResponded { status: 502 });
    assert_eq!(a, Action::Get { key: KEY_A.to_string() });
    let (s, a) = s.step(Event::GetDone { object: None });
    assert_eq!(a, Action::LookUpFallback);
    let (s, a) = s.step(Event::FallbackConfigured { url: "http://fallback.example/".to_string() });
    assert_eq!(a, Action::FetchFallback { url: "http://fallback.example/".to_string() });
    assert!(!s.done());
    let (s, a) = s.step(Event::FallbackResponded);
    assert_eq!(a, Action::Respond(Reply::Fallback));
    assert!(s.done());
}

#[test]
fn object_without_body_counts_as_a_miss() {
    let (s, _) = cache_url::<u32>(URL_A.to_string(), None);
    let (s, _) = s.step(Event::OriginResponded { status: 500 });
    let (_, a) = s.step(Event::GetDone { object: Some(StoredObject { body: None }) });
    assert_eq!(a, Action::LookUpFallback);
}

#[test]
fn failed_actions_end_the_request() {
    let (s, _) = cache_url::<u32>(URL_A.to_string(), None);
    let (s, a) = s.step(Event::Failed);
    assert_eq!(a, Action::Fail(Failure::Fetch));
    assert!(s.done());

    let (s, _) = cache_url::<u32>(URL_A.to_string(), None);
    let (s, _) = s.step(Event::OriginResponded { status: 200 });
    let (_, a) = s.step(Event::Failed);
    assert_eq!(a, Action::Fail(Failure::Fetch));

    let (s, _) = cache_url::<u32>(URL_A.to_string(), None);
    let (s, _) = s.step(Event::OriginResponded { status: 200 });
    let (s, _) = s.step(Event::Duplicated { body: ResponseBody::Empty });
    let (_, a) = s.step(Event::Failed);
    assert_eq!(a, Action::Fail(Failure::Store));

    let (s, _) = cache_url::<u32>(URL_A.to_string(), None);
    let (s, _) = s.step(Event::OriginResponded { status: 200 });
    let (s, _) = s.step(Event::Duplicated { body: ResponseBody::Empty });
    let (s, _) = s.step(Event::HeadDone { exists: false });
    let (s, a) = s.step(Event::Failed);
    assert_eq!(a, Action::Fail(Failure::Store));
    assert!(s.done());

    let (s, _) = cache_url::<u32>(URL_A.to_string(), None);
    let (s, _) = s.step(Event::OriginResponded { status: 404 });
    let (_, a) = s.step(Event::Failed);
    assert_eq!(a, Action::Fail(Failure::Store));

    let (s, _) = cache_url::<u32>(URL_A.to_string(), None);
    let (s, _) = s.step(Event::OriginResponded { status: 404 });
    let (s, _) = s.step(Event::GetDone { object: None });
    let (_, a) = s.step(Event::Failed);
    assert_eq!(a, Action::Fail(Failure::Fallback));

    let (s, _) = cache_url::<u32>(URL_A.to_string(), None);
    let (s, _) = s.step(Event::OriginResponded { status: 404 });
    let (s, _) = s.step(Event::GetDone { object: None });
    let (s, _) = s.step(Event::FallbackConfigured { url: "http://fallback.example/".to_string() });
    let (_, a) = s.step(Event::Failed);
    assert_eq!(a, Action::Fail(Failure::Fetch));
}

#[test]
fn fallback_url_is_read_as_an_absolute_url() {
    let miss = || {
        let (s, _) = cache_url::<u32>(URL_A.to_string(), None);
        let (s, _) = s.step(Event::OriginResponded { status: 404 });
        let (s, a) = s.step(Event::GetDone { object: None });
        assert_eq!(a, Action::LookUpFallback);
        s
    };
    let (s, a) = miss().step(Event::FallbackConfigured { url: "HTTP://Example.COM".to_string() });
    assert_eq!(a, Action::FetchFallback { url: "http://example.com/".to_string() });
    assert!(!s.done());
    let (_, a) =
        miss().step(Event::FallbackConfigured { url: "https://example.com/a b?q=1".to_string() });
    assert_eq!(a, Action::FetchFallback { url: "https://example.com/a%20b?q=1".to_string() });
    for text in ["", "not a url", "/only/a/path", "//example.com/"] {
        let (s, a) = miss().step(Event::FallbackConfigured { url: text.to_string() });
        assert_eq!(a, Action::Fail(Failure::Fallback));
        assert!(s.done());
    }
}

#[test]
fn missing_fallback_fails_a_miss_only() {
    let mut w = world(404, "gone");
    w.fallback_url = None;
    let last = drive(&mut w, cache_url(URL_A.to_string(), None));
    assert_eq!(last, Action::Fail(Failure::Fallback));
    assert!(w.fallback_fetches.is_empty());
    w.status = 200;
    w.body = ResponseBody::Body(bytes("hello"));
    assert_eq!(drive(&mut w, cache_url(URL_A.to_string(), None)), Action::Respond(Reply::Origin));
    w.status = 404;
    assert_eq!(
        drive(&mut w, cache_url(URL_A.to_string(), None)),
        Action::Respond(Reply::Cached { body: ResponseBody::Body(bytes("hello")) })
    );
}

#[test]
fn fetch_fallback_asks_for_the_target() {
    assert_eq!(
        fetch_fallback::<u32>(Some("http://fallback.example/".to_string())),
        Action::FetchFallback { url: "http://fallback.example/".to_string() }
    );
    assert_eq!(fetch_fallback::<u32>(None), Action::Fail(Failure::Fallback));
}

#[test]
fn event_out_of_turn_ends_the_request() {
    let (s, _) = cache_url::<u32>(URL_A.to_string(), None);
    let (s, a) = s.step(Event::PutDone);
    assert_eq!(a, Action::Fail(Failure::UnexpectedEvent));
    assert!(s.done());
    let (s, a) = s.step(Event::OriginResponded { status: 200 });
    assert_eq!(a, Action::Fail(Failure::UnexpectedEvent));
    let (s, a) = s.step(Event::Failed);
    assert_eq!(a, Action::Fail(Failure::UnexpectedEvent));
    assert!(s.done());

    let (s, _) = cache_url::<u32>(URL_A.to_string(), None);
    let (s, _) = s.step(Event::OriginResponded { status: 200 });
    let (_, a) = s.step(Event::HeadDone { exists: false });
    assert_eq!(a, Action::Fail(Failure::UnexpectedEvent));
}

#[test]
fn get_takes_the_first_url_parameter() {
    let pairs = vec![
        ("x".to_string(), "1".to_string()),
        ("url".to_string(), URL_A.to_string()),
        ("url".to_string(), "http://example.com/b".to_string()),
    ];
    let (session, action) = get_with::<u32>(&pairs, Some("agent".to_string()));
    assert_eq!(session.url(), URL_A);
    assert_eq!(
        action,
        Action::FetchOrigin { url: URL_A.to_string(), user_agent: "agent".to_string() }
    );
    let mut w = world(200, "hello");
    let last = drive(&mut w, get_with(&pairs, None));
    assert_eq!(last, Action::Respond(Reply::Origin));
    assert_eq!(w.store.get(KEY_A), Some(&(Data::Bytes(bytes("hello")), URL_A.to_string())));
}

#[test]
fn get_without_url_parameter_fails() {
    let mut w = world(200, "hello");
    for pairs in [
        vec![],
        vec![("URL".to_string(), URL_A.to_string())],
        vec![("uri".to_string(), URL_A.to_string()), ("".to_string(), "url".to_string())],
    ] {
        let begun = get_with::<u32>(&pairs, None);
        assert!(begun.0.done());
        assert_eq!(begun.1, Action::Fail(Failure::MissingUrl));
        assert_eq!(drive(&mut w, begun), Action::Fail(Failure::MissingUrl));
    }
    assert!(w.origin_fetches.is_empty());
    assert!(w.store.is_empty());
    assert_eq!(Failure::MissingUrl.status_code(), 400);
    assert_eq!(Failure::MissingUrl.client_body(), "missing url parameter");
}

#[test]
fn get_decodes_the_query_of_the_request() {
    let (session, action) =
        get::<u32>("https://proxy.example/?url=http%3A%2F%2Fexample.com%2Fa", None);
    assert_eq!(session.url(), URL_A);
    assert_eq!(
        action,
        Action::FetchOrigin { url: URL_A.to_string(), user_agent: DEFAULT_USER_AGENT.to_string() }
    );
    let (session, _) = get::<u32>(
        "https://proxy.example/?a=1&url=http://example.com/b%3Fx%3D1%26y&url=second#frag",
        None,
    );
    assert_eq!(session.url(), "http://example.com/b?x=1&y");
    let (session, _) = get::<u32>("https://proxy.example/?url=a+b", None);
    assert_eq!(session.url(), "a b");
    let mut w = world(200, "hello");
    let last = drive(&mut w, get("https://proxy.example/?url=http%3A%2F%2Fexample.com%2Fa", None));
    assert_eq!(last, Action::Respond(Reply::Origin));
    assert_eq!(w.origin_fetches[0].0, URL_A);
    assert_eq!(w.store.get(KEY_A), Some(&(Data::Bytes(bytes("hello")), URL_A.to_string())));
}

#[test]
fn get_fails_where_the_request_names_no_url() {
    for request in [
        "https://proxy.example/",
        "https://proxy.example/?",
        "https://proxy.example/?URL=http://example.com/a",
        "https://proxy.example/url=http://example.com/a",
        "https://proxy.example/#url=http://example.com/a",
        "?url=http://example.com/a",
        "",
    ] {
        let (session, action) = get::<u32>(request, None);
        assert!(session.done());
        assert_eq!(action, Action::Fail(Failure::MissingUrl));
    }
}

#[test]
fn authorized_post_stores_and_replies_empty() {
    let mut w = world(200, "hello");
    let request = PostRequest { url: URL_A.to_string(), access_token: "secret".to_string() };
    let last = drive(&mut w, post(request, "secret", Some("agent".to_string())));
    assert_eq!(last, Action::Respond(Reply::Empty));
    assert_eq!(w.origin_fetches, vec![(URL_A.to_string(), "agent".to_string())]);
    assert_eq!(w.store.get(KEY_A), Some(&(Data::Bytes(bytes("hello")), URL_A.to_string())));

    w.status = 500;
    let request = PostRequest { url: URL_A.to_string(), access_token: "secret".to_string() };
    assert_eq!(drive(&mut w, post(request, "secret", None)), Action::Respond(Reply::Empty));
    let request =
        PostRequest { url: "http://example.com/other".to_string(), access_token: "secret".to_string() };
    assert_eq!(drive(&mut w, post(request, "secret", None)), Action::Respond(Reply::Empty));
    assert_eq!(w.fallback_fetches.len(), 1);

    w.status = 302;
    let request = PostRequest { url: URL_A.to_string(), access_token: "secret".to_string() };
    assert_eq!(
        drive(&mut w, post(request, "secret", None)),
        Action::Fail(Failure::UnexpectedStatus)
    );
}

#[test]
fn post_token_must_match_exactly() {
    for (given, configured) in [("", "secret"), ("secret", ""), ("Secret", "secret"), ("secret ", "secret")] {
        let request = PostRequest { url: URL_A.to_string(), access_token: given.to_string() };
        let (session, action) = post::<u32>(request, configured, None);
        assert!(session.done());
        assert_eq!(action, Action::Fail(Failure::InvalidToken));
    }
    let request = PostRequest { url: URL_A.to_string(), access_token: String::new() };
    let (session, action) = post::<u32>(request, "", None);
    assert!(!session.done());
    assert!(matches!(action, Action::FetchOrigin { .. }));
}
