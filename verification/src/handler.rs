//! The two ways a request comes in: a `GET` that names the target in its
//! query, and a `POST` that names it in its body and must show a token.

use crate::address::{query_of, query_pairs};
use crate::failure::Failure;
use crate::session::{cache_url, start, turn_away, Action, ActionView, Method, Session, SessionView};
use vstd::prelude::*;
use vstd::string::*;

verus! {

/// The name of the query parameter that holds the target URL.
pub const URL_PARAMETER: &'static str = "url";

/// The body of a `POST`.
#[derive(Debug, Clone, PartialEq, Eq)]
pub struct PostRequest {
    pub url: String,
    pub access_token: String,
}

/// The value of the first pair named `url`, if there is one.
pub open spec fn url_parameter(pairs: Seq<(Seq<char>, Seq<char>)>) -> Option<Seq<char>>
    decreases pairs.len(),
{
    if pairs.len() == 0 {
        None
    } else if pairs[0].0 == URL_PARAMETER@ {
        Some(pairs[0].1)
    } else {
        url_parameter(pairs.drop_first())
    }
}

/// A `GET` with these pairs in its query at its start: a request for the
/// target that the query names, or a failure where it names none.
pub open spec fn start_with<S>(
    pairs: Seq<(Seq<char>, Seq<char>)>,
    user_agent: Option<Seq<char>>,
) -> (SessionView<S>, ActionView<S>) {
    match url_parameter(pairs) {
        Some(url) => start(url, user_agent, Method::Get),
        None => turn_away(Method::Get, Failure::MissingUrl),
    }
}

/// A `GET` for `request_url` at its start.
pub open spec fn start_get<S>(request_url: Seq<char>, user_agent: Option<Seq<char>>) -> (
    SessionView<S>,
    ActionView<S>,
) {
    match query_of(request_url) {
        Some(pairs) => start_with(pairs, user_agent),
        None => turn_away(Method::Get, Failure::MissingUrl),
    }
}

/// A `POST` at its start: a request for the target that its body names, or
/// a failure where its token is not the configured one.
pub open spec fn start_post<S>(
    url: Seq<char>,
    access_token: Seq<char>,
    api_token: Seq<char>,
    user_agent: Option<Seq<char>>,
) -> (SessionView<S>, ActionView<S>) {
    if access_token == api_token {
        start(url, user_agent, Method::Post)
    } else {
        turn_away(Method::Post, Failure::InvalidToken)
    }
}

/// `url_parameter` finds the first pair named `url`: it gives the value at
/// the least index whose name is `url`, and nothing where no pair has that
/// name.
pub proof fn lemma_url_parameter_is_first(pairs: Seq<(Seq<char>, Seq<char>)>)
    ensures
        match url_parameter(pairs) {
            Some(value) => exists|i: int|
                0 <= i < pairs.len() && #[trigger] pairs[i].0 == URL_PARAMETER@ && pairs[i].1
                    == value && forall|j: int| 0 <= j < i ==> #[trigger] pairs[j].0 != URL_PARAMETER@,
            None => forall|j: int| 0 <= j < pairs.len() ==> #[trigger] pairs[j].0 != URL_PARAMETER@,
        },
    decreases pairs.len(),
{
    if pairs.len() == 0 {
    } else if pairs[0].0 == URL_PARAMETER@ {
        assert(pairs[0].0 == URL_PARAMETER@ && pairs[0].1 == url_parameter(pairs)->0);
    } else {
        let rest = pairs.drop_first();
        lemma_url_parameter_is_first(rest);
        assert forall|j: int| 0 <= j < rest.len() implies rest[j] == pairs[j + 1] by {}
        match url_parameter(rest) {
            Some(value) => {
                let i = choose|i: int|
                    0 <= i < rest.len() && #[trigger] rest[i].0 == URL_PARAMETER@ && rest[i].1
                        == value && forall|j: int|
                        0 <= j < i ==> #[trigger] rest[j].0 != URL_PARAMETER@;
                assert forall|j: int| 0 <= j < i + 1 implies #[trigger] pairs[j].0
                    != URL_PARAMETER@ by {
                    if j > 0 {
                        assert(rest[j - 1].0 != URL_PARAMETER@);
                    }
                }
                assert(pairs[i + 1].0 == URL_PARAMETER@ && pairs[i + 1].1 == value);
            },
            None => {
                assert forall|j: int| 0 <= j < pairs.len() implies #[trigger] pairs[j].0
                    != URL_PARAMETER@ by {
                    if j > 0 {
                        assert(rest[j - 1].0 != URL_PARAMETER@);
                    }
                }
            },
        }
    }
}

/// The target URL of a `GET`: the value of the first query pair named `url`.
pub fn find_url(pairs: &Vec<(String, String)>) -> (found: Option<String>)
    ensures
        found.deep_view() == url_parameter(pairs.deep_view()),
{
    let name = String::from_str(URL_PARAMETER);
    let ghost all = pairs.deep_view();
    let mut i: usize = 0;
    assert(all.skip(0) =~= all);
    while i < pairs.len()
        invariant
            i <= pairs.len(),
            all == pairs.deep_view(),
            name@ == URL_PARAMETER@,
            url_parameter(all) == url_parameter(all.skip(i as int)),
        decreases pairs.len() - i,
    {
        let ghost rest = all.skip(i as int);
        assert(rest[0] == all[i as int]);
        assert(all[i as int] == (pairs[i as int].0@, pairs[i as int].1@));
        assert(rest.drop_first() =~= all.skip(i + 1));
        if pairs[i].0 == name {
            return Some(pairs[i].1.clone());
        }
        i += 1;
    }
    None
}

/// Starts a `GET` for `request_url`, the URL that the client asked this
/// proxy for. The target is the value of the first pair named `url` in its
/// query. Without such a pair the request fails at once, and nothing is
/// fetched or stored; so it does where `request_url` is no absolute URL.
pub fn get<S>(request_url: &str, user_agent: Option<String>) -> (begun: (Session<S>, Action<S>))
    ensures
        (begun.0@, begun.1@) == start_get::<S>(request_url@, user_agent.deep_view()),
{
    match query_pairs(request_url) {
        Ok(pairs) => get_with(&pairs, user_agent),
        Err(_) => Session::refuse(Method::Get, Failure::MissingUrl),
    }
}

/// Starts a `GET` whose query holds `pairs`, decoded and in order.
pub fn get_with<S>(pairs: &Vec<(String, String)>, user_agent: Option<String>) -> (begun: (
    Session<S>,
    Action<S>,
))
    ensures
        (begun.0@, begun.1@) == start_with::<S>(pairs.deep_view(), user_agent.deep_view()),
{
    match find_url(pairs) {
        Some(url) => cache_url(url, user_agent),
        None => Session::refuse(Method::Get, Failure::MissingUrl),
    }
}

/// Starts a `POST`. `api_token` is the configured secret. Where the
/// request's token differs from it the request fails at once, and nothing is
/// fetched or stored. A `POST` that is served is answered with an empty
/// reply.
pub fn post<S>(request: PostRequest, api_token: &str, user_agent: Option<String>) -> (begun: (
    Session<S>,
    Action<S>,
))
    ensures
        (begun.0@, begun.1@) == start_post::<S>(
            request.url@,
            request.access_token@,
            api_token@,
            user_agent.deep_view(),
        ),
{
    let secret = String::from_str(api_token);
    if request.access_token == secret {
        Session::begin(request.url, user_agent, Method::Post)
    } else {
        Session::refuse(Method::Post, Failure::InvalidToken)
    }
}

} // verus!
