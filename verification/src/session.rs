//! One request, from its arrival to its reply.
//!
//! A [`Session`] decides and the caller acts. Each [`Action`] names one
//! thing for the caller to do: send a request, duplicate a response, ask the
//! store. The caller reports the outcome as an [`Event`] and gets the next
//! action, until the action is a reply or a failure.

use crate::address::{absolute_url, parse_url};
use crate::body::{Data, Payload, ResponseBody, StoredObject};
use crate::failure::Failure;
use crate::key::{cache_key, get_r2_key};
use crate::store::{cached_body, cached_payload, object_view, writes};
use vstd::prelude::*;
use vstd::string::*;

verus! {

/// The `User-Agent` sent to the origin where the client named none: that of
/// a common browser, since some origins turn away what looks like a robot.
pub const DEFAULT_USER_AGENT: &'static str =
    "Mozilla/5.0 (Windows NT 10.0; Win64; x64) AppleWebKit/537.36 (KHTML, like Gecko) Chrome/142.0.0.0 Safari/537.36";

/// How the request came in, which decides what a served request is answered
/// with.
#[derive(Debug, Clone, Copy, PartialEq, Eq, Structural)]
pub enum Method {
    /// The reply carries the content.
    Get,
    /// The reply is empty: the request only fills the store.
    Post,
}

/// What an origin's status asks for.
#[derive(Debug, Clone, Copy, PartialEq, Eq, Structural)]
pub enum Verdict {
    /// 200 to 299: store the answer and return it.
    Store,
    /// 400 and above: serve a stored copy, or else the fallback.
    Recover,
    /// Any other status: the request fails.
    Refuse,
}

/// The reply to a request that was served.
#[derive(Debug, Clone, PartialEq, Eq)]
pub enum Reply<S> {
    /// The origin's response as it was received, status, headers and body.
    Origin,
    /// Status 200, no headers, and a body from the store.
    Cached { body: ResponseBody<S> },
    /// The fallback's response as it was received, whatever its status.
    Fallback,
    /// Status 200 and an empty body.
    Empty,
}

/// What the caller is to do next.
#[derive(Debug, Clone, PartialEq, Eq)]
pub enum Action<S> {
    /// Send a `GET` for `url` to the origin, with `user_agent` as its one
    /// header, and report the status of the answer.
    FetchOrigin { url: String, user_agent: String },
    /// Duplicate the origin's response, so that the response itself can
    /// still be returned to the client untouched, and report the duplicate's
    /// body.
    Duplicate,
    /// Ask the store whether it holds `key`, without reading the body.
    Head { key: String },
    /// Write `value` to the store under `key`, with `url` as its metadata.
    Put { key: String, value: Data<S>, url: String },
    /// Read the object under `key` from the store.
    Get { key: String },
    /// Read the fallback URL from the configuration.
    LookUpFallback,
    /// Send a plain request for `url`, the fallback, with no header set.
    FetchFallback { url: String },
    /// The request is served: answer with this reply.
    Respond(Reply<S>),
    /// The request has failed.
    Fail(Failure),
}

/// What came of the last action.
#[derive(Debug, Clone, PartialEq, Eq)]
pub enum Event<S> {
    /// The origin answered with this status. A status that reports a failure
    /// is an answer too.
    OriginResponded { status: u16 },
    /// The origin's response was duplicated; this is the duplicate's body.
    Duplicated { body: ResponseBody<S> },
    /// The store said whether it holds the key.
    HeadDone { exists: bool },
    /// The store has written the object.
    PutDone,
    /// The store answered the read, with the object if it holds one.
    GetDone { object: Option<StoredObject<S>> },
    /// The configuration names this fallback URL.
    FallbackConfigured { url: String },
    /// The fallback answered.
    FallbackResponded,
    /// The action could not be carried out.
    Failed,
}

/// Where a request stands.
enum Phase<S> {
    AwaitOrigin,
    AwaitDuplicate,
    AwaitHead { body: ResponseBody<S> },
    AwaitPut,
    AwaitGet,
    AwaitFallbackUrl,
    AwaitFallback,
    Done,
}

/// One request in progress.
pub struct Session<S> {
    url: String,
    method: Method,
    phase: Phase<S>,
}

pub enum ReplyView<S> {
    Origin,
    Cached { body: Payload<S> },
    Fallback,
    Empty,
}

pub enum ActionView<S> {
    FetchOrigin { url: Seq<char>, user_agent: Seq<char> },
    Duplicate,
    Head { key: Seq<char> },
    Put { key: Seq<char>, value: Payload<S>, url: Seq<char> },
    Get { key: Seq<char> },
    LookUpFallback,
    FetchFallback { url: Seq<char> },
    Respond(ReplyView<S>),
    Fail(Failure),
}

pub enum EventView<S> {
    OriginResponded { status: u16 },
    Duplicated { body: Payload<S> },
    HeadDone { exists: bool },
    PutDone,
    GetDone { object: Option<Option<Payload<S>>> },
    FallbackConfigured { url: Seq<char> },
    FallbackResponded,
    Failed,
}

/// Where a request stands: which event it waits for.
pub enum PhaseView<S> {
    /// The origin was asked.
    AwaitOrigin,
    /// The origin answered with a success; its response is being duplicated.
    AwaitDuplicate,
    /// The store was asked whether it holds the key; `body` is to be written
    /// if it does not.
    AwaitHead { body: Payload<S> },
    /// The store is writing.
    AwaitPut,
    /// The origin answered with a failure; the store was asked for a copy.
    AwaitGet,
    /// The store had no copy; the fallback URL is being looked up.
    AwaitFallbackUrl,
    /// The fallback was asked.
    AwaitFallback,
    /// The request was answered or has failed.
    Done,
}

pub struct SessionView<S> {
    pub url: Seq<char>,
    pub method: Method,
    pub phase: PhaseView<S>,
}

impl<S> View for Reply<S> {
    type V = ReplyView<S>;

    open spec fn view(&self) -> ReplyView<S> {
        match *self {
            Reply::Origin => ReplyView::Origin,
            Reply::Cached { body } => ReplyView::Cached { body: body@ },
            Reply::Fallback => ReplyView::Fallback,
            Reply::Empty => ReplyView::Empty,
        }
    }
}

impl<S> View for Action<S> {
    type V = ActionView<S>;

    open spec fn view(&self) -> ActionView<S> {
        match *self {
            Action::FetchOrigin { url, user_agent } => ActionView::FetchOrigin {
                url: url@,
                user_agent: user_agent@,
            },
            Action::Duplicate => ActionView::Duplicate,
            Action::Head { key } => ActionView::Head { key: key@ },
            Action::Put { key, value, url } => ActionView::Put {
                key: key@,
                value: value@,
                url: url@,
            },
            Action::Get { key } => ActionView::Get { key: key@ },
            Action::LookUpFallback => ActionView::LookUpFallback,
            Action::FetchFallback { url } => ActionView::FetchFallback { url: url@ },
            Action::Respond(reply) => ActionView::Respond(reply@),
            Action::Fail(failure) => ActionView::Fail(failure),
        }
    }
}

impl<S> View for Event<S> {
    type V = EventView<S>;

    open spec fn view(&self) -> EventView<S> {
        match *self {
            Event::OriginResponded { status } => EventView::OriginResponded { status },
            Event::Duplicated { body } => EventView::Duplicated { body: body@ },
            Event::HeadDone { exists } => EventView::HeadDone { exists },
            Event::PutDone => EventView::PutDone,
            Event::GetDone { object } => EventView::GetDone { object: object_view(object) },
            Event::FallbackConfigured { url } => EventView::FallbackConfigured { url: url@ },
            Event::FallbackResponded => EventView::FallbackResponded,
            Event::Failed => EventView::Failed,
        }
    }
}

impl<S> View for Phase<S> {
    type V = PhaseView<S>;

    closed spec fn view(&self) -> PhaseView<S> {
        match *self {
            Phase::AwaitOrigin => PhaseView::AwaitOrigin,
            Phase::AwaitDuplicate => PhaseView::AwaitDuplicate,
            Phase::AwaitHead { body } => PhaseView::AwaitHead { body: body@ },
            Phase::AwaitPut => PhaseView::AwaitPut,
            Phase::AwaitGet => PhaseView::AwaitGet,
            Phase::AwaitFallbackUrl => PhaseView::AwaitFallbackUrl,
            Phase::AwaitFallback => PhaseView::AwaitFallback,
            Phase::Done => PhaseView::Done,
        }
    }
}

impl<S> View for Session<S> {
    type V = SessionView<S>;

    closed spec fn view(&self) -> SessionView<S> {
        SessionView { url: self.url@, method: self.method, phase: self.phase@ }
    }
}

/// What an origin's status asks for. The two bands that are acted on leave
/// out every status below 200 and the redirects, 300 to 399: an origin that
/// answers with one of those is refused, and the request fails.
pub open spec fn verdict(status: u16) -> Verdict {
    if 200 <= status < 300 {
        Verdict::Store
    } else if status >= 400 {
        Verdict::Recover
    } else {
        Verdict::Refuse
    }
}

/// The `User-Agent` for the origin: the client's own, or the default.
pub open spec fn origin_user_agent(supplied: Option<Seq<char>>) -> Seq<char> {
    match supplied {
        Some(agent) => agent,
        None => DEFAULT_USER_AGENT@,
    }
}

/// The failure that a failed action stands for: for a fetch or a duplicate
/// the fetch has failed, for a store operation the store, and for the
/// look-up of the fallback URL the fallback.
pub open spec fn failure_in<S>(phase: PhaseView<S>) -> Failure {
    match phase {
        PhaseView::AwaitOrigin => Failure::Fetch,
        PhaseView::AwaitDuplicate => Failure::Fetch,
        PhaseView::AwaitFallback => Failure::Fetch,
        PhaseView::AwaitFallbackUrl => Failure::Fallback,
        PhaseView::AwaitHead { .. } => Failure::Store,
        PhaseView::AwaitPut => Failure::Store,
        PhaseView::AwaitGet => Failure::Store,
        PhaseView::Done => Failure::UnexpectedEvent,
    }
}

impl<S> SessionView<S> {
    /// This request in another phase.
    pub open spec fn at(self, phase: PhaseView<S>) -> SessionView<S> {
        SessionView { url: self.url, method: self.method, phase }
    }

    /// This request served: a `GET` with the reply, a `POST` with an empty
    /// one.
    pub open spec fn serve(self, reply: ReplyView<S>) -> (SessionView<S>, ActionView<S>) {
        (
            self.at(PhaseView::Done),
            ActionView::Respond(
                match self.method {
                    Method::Get => reply,
                    Method::Post => ReplyView::Empty,
                },
            ),
        )
    }

    /// This request failed.
    pub open spec fn fail(self, failure: Failure) -> (SessionView<S>, ActionView<S>) {
        (self.at(PhaseView::Done), ActionView::Fail(failure))
    }

    /// The next phase and action when `event` is reported.
    pub open spec fn step(self, event: EventView<S>) -> (SessionView<S>, ActionView<S>) {
        match (self.phase, event) {
            (PhaseView::AwaitOrigin, EventView::OriginResponded { status }) => match verdict(
                status,
            ) {
                Verdict::Store => (self.at(PhaseView::AwaitDuplicate), ActionView::Duplicate),
                Verdict::Recover => (
                    self.at(PhaseView::AwaitGet),
                    ActionView::Get { key: cache_key(self.url) },
                ),
                Verdict::Refuse => self.fail(Failure::UnexpectedStatus),
            },
            (PhaseView::AwaitDuplicate, EventView::Duplicated { body }) => (
                self.at(PhaseView::AwaitHead { body }),
                ActionView::Head { key: cache_key(self.url) },
            ),
            (PhaseView::AwaitHead { body }, EventView::HeadDone { exists }) => if writes(exists) {
                (self.at(PhaseView::AwaitPut), write_of(self.url, body))
            } else {
                self.serve(ReplyView::Origin)
            },
            (PhaseView::AwaitPut, EventView::PutDone) => self.serve(ReplyView::Origin),
            (PhaseView::AwaitGet, EventView::GetDone { object }) => match cached_payload(object) {
                Some(body) => self.serve(ReplyView::Cached { body }),
                None => (self.at(PhaseView::AwaitFallbackUrl), ActionView::LookUpFallback),
            },
            (PhaseView::AwaitFallbackUrl, EventView::FallbackConfigured { url }) => match absolute_url(
                url,
            ) {
                Some(target) => (self.at(PhaseView::AwaitFallback), ask(Some(target))),
                None => (self.at(PhaseView::Done), ask(None)),
            },
            (PhaseView::AwaitFallback, EventView::FallbackResponded) => self.serve(
                ReplyView::Fallback,
            ),
            (_, EventView::Failed) => self.fail(failure_in(self.phase)),
            _ => self.fail(Failure::UnexpectedEvent),
        }
    }
}

/// The write that stores `body` as the answer for `url`: under the URL's key,
/// with the URL as metadata.
pub open spec fn write_of<S>(url: Seq<char>, body: Payload<S>) -> ActionView<S> {
    ActionView::Put { key: cache_key(url), value: body, url }
}

/// The action for a miss once the configured fallback was read as a URL:
/// the fetch of that URL, or a failure where it is none.
pub open spec fn ask<S>(target: Option<Seq<char>>) -> ActionView<S> {
    match target {
        Some(url) => ActionView::FetchFallback { url },
        None => ActionView::Fail(Failure::Fallback),
    }
}

/// A request for `url` at its start: the origin is asked.
pub open spec fn start<S>(url: Seq<char>, user_agent: Option<Seq<char>>, method: Method) -> (
    SessionView<S>,
    ActionView<S>,
) {
    (
        SessionView { url, method, phase: PhaseView::AwaitOrigin },
        ActionView::FetchOrigin { url, user_agent: origin_user_agent(user_agent) },
    )
}

/// A request that is turned away before anything is fetched or stored.
pub open spec fn turn_away<S>(method: Method, failure: Failure) -> (
    SessionView<S>,
    ActionView<S>,
) {
    (
        SessionView { url: Seq::empty(), method, phase: PhaseView::Done },
        ActionView::Fail(failure),
    )
}

/// What an origin's status asks for.
pub fn classify(status: u16) -> (v: Verdict)
    ensures
        v == verdict(status),
{
    if 200 <= status && status < 300 {
        Verdict::Store
    } else if status >= 400 {
        Verdict::Recover
    } else {
        Verdict::Refuse
    }
}

/// Starts a request for `url` whose reply carries the content. The first
/// action is the fetch from the origin, with the client's `User-Agent` if it
/// sent one.
pub fn cache_url<S>(url: String, user_agent: Option<String>) -> (begun: (Session<S>, Action<S>))
    ensures
        (begun.0@, begun.1@) == start::<S>(url@, user_agent.deep_view(), Method::Get),
{
    Session::begin(url, user_agent, Method::Get)
}

impl<S> Session<S> {
    pub(crate) fn begin(url: String, user_agent: Option<String>, method: Method) -> (begun: (
        Session<S>,
        Action<S>,
    ))
        ensures
            (begun.0@, begun.1@) == start::<S>(url@, user_agent.deep_view(), method),
    {
        let agent = match user_agent {
            Some(agent) => agent,
            None => String::from_str(DEFAULT_USER_AGENT),
        };
        let fetch = Action::FetchOrigin { url: url.clone(), user_agent: agent };
        (Session { url, method, phase: Phase::AwaitOrigin }, fetch)
    }

    pub(crate) fn refuse(method: Method, failure: Failure) -> (ended: (Session<S>, Action<S>))
        ensures
            (ended.0@, ended.1@) == turn_away::<S>(method, failure),
    {
        (Session { url: String::new(), method, phase: Phase::Done }, Action::Fail(failure))
    }

    fn served(self, reply: Reply<S>) -> (ended: (Session<S>, Action<S>))
        ensures
            (ended.0@, ended.1@) == self@.serve(reply@),
    {
        let answer = match self.method {
            Method::Get => reply,
            Method::Post => Reply::Empty,
        };
        (Session { url: self.url, method: self.method, phase: Phase::Done }, Action::Respond(answer))
    }

    fn failed(self, failure: Failure) -> (ended: (Session<S>, Action<S>))
        ensures
            (ended.0@, ended.1@) == self@.fail(failure),
    {
        (Session { url: self.url, method: self.method, phase: Phase::Done }, Action::Fail(failure))
    }

    /// Whether the request was answered or has failed. No action follows
    /// then but the report of an event out of turn.
    pub open spec fn is_done(&self) -> bool {
        self@.phase is Done
    }

    /// Whether the request was answered or has failed.
    pub fn done(&self) -> (done: bool)
        ensures
            done == self.is_done(),
    {
        match self.phase {
            Phase::Done => true,
            _ => false,
        }
    }

    /// The URL that is asked for.
    pub fn url(&self) -> (url: &String)
        ensures
            url@ == self@.url,
    {
        &self.url
    }

    /// Takes the outcome of the last action and gives the next one.
    ///
    /// After a success from the origin, the response is duplicated and the
    /// duplicate's body is written under the URL's key unless the store holds
    /// that key. After a failure from the origin, the stored copy is served,
    /// or where there is none the answer of the configured fallback, which
    /// must be an absolute URL. An action that could
    /// not be carried out ends the request, and so does an event that does
    /// not answer the last action.
    pub fn step(self, event: Event<S>) -> (next: (Session<S>, Action<S>))
        ensures
            (next.0@, next.1@) == self@.step(event@),
    {
        let Session { url, method, phase } = self;
        match (phase, event) {
            (Phase::AwaitOrigin, Event::OriginResponded { status }) => match classify(status) {
                Verdict::Store => {
                    (Session { url, method, phase: Phase::AwaitDuplicate }, Action::Duplicate)
                },
                Verdict::Recover => {
                    let key = get_r2_key(url.as_str());
                    (Session { url, method, phase: Phase::AwaitGet }, Action::Get { key })
                },
                Verdict::Refuse => {
                    Session { url, method, phase: Phase::AwaitOrigin }.failed(
                        Failure::UnexpectedStatus,
                    )
                },
            },
            (Phase::AwaitDuplicate, Event::Duplicated { body }) => {
                let key = get_r2_key(url.as_str());
                (Session { url, method, phase: Phase::AwaitHead { body } }, Action::Head { key })
            },
            (Phase::AwaitHead { body }, Event::HeadDone { exists }) => {
                match put_in_r2(url.as_str(), body, exists) {
                    Some(write) => (Session { url, method, phase: Phase::AwaitPut }, write),
                    None => Session { url, method, phase: Phase::AwaitPut }.served(Reply::Origin),
                }
            },
            (Phase::AwaitPut, Event::PutDone) => {
                Session { url, method, phase: Phase::AwaitPut }.served(Reply::Origin)
            },
            (Phase::AwaitGet, Event::GetDone { object }) => match cached_body(object) {
                Some(body) => {
                    Session { url, method, phase: Phase::AwaitGet }.served(Reply::Cached { body })
                },
                None => {
                    (
                        Session { url, method, phase: Phase::AwaitFallbackUrl },
                        Action::LookUpFallback,
                    )
                },
            },
            (Phase::AwaitFallbackUrl, Event::FallbackConfigured { url: configured }) => {
                match parse_url(configured.as_str()) {
                    Ok(target) => {
                        (
                            Session { url, method, phase: Phase::AwaitFallback },
                            fetch_fallback(Some(target)),
                        )
                    },
                    Err(_) => (Session { url, method, phase: Phase::Done }, fetch_fallback(None)),
                }
            },
            (Phase::AwaitFallback, Event::FallbackResponded) => {
                Session { url, method, phase: Phase::AwaitFallback }.served(Reply::Fallback)
            },
            (phase, Event::Failed) => {
                let failure = match phase {
                    Phase::AwaitOrigin => Failure::Fetch,
                    Phase::AwaitDuplicate => Failure::Fetch,
                    Phase::AwaitFallback => Failure::Fetch,
                    Phase::AwaitFallbackUrl => Failure::Fallback,
                    Phase::AwaitHead { .. } => Failure::Store,
                    Phase::AwaitPut => Failure::Store,
                    Phase::AwaitGet => Failure::Store,
                    Phase::Done => Failure::UnexpectedEvent,
                };
                Session { url, method, phase: Phase::Done }.failed(failure)
            },
            _ => Session { url, method, phase: Phase::Done }.failed(Failure::UnexpectedEvent),
        }
    }
}

/// The action for a miss once the configured fallback was read as a URL:
/// the fetch of `target`, or a failure where there is none.
pub fn fetch_fallback<S>(target: Option<String>) -> (action: Action<S>)
    ensures
        action@ == ask::<S>(target.deep_view()),
{
    match target {
        Some(url) => Action::FetchFallback { url },
        None => Action::Fail(Failure::Fallback),
    }
}

/// Write-if-absent, once the store has said whether it holds the key of
/// `url`. Where it does, nothing is written: the store keeps what it has, and
/// a second answer for a URL is never an error. Where it does not, the write
/// stores `body` under the URL's key, with the URL as metadata.
pub fn put_in_r2<S>(url: &str, body: ResponseBody<S>, exists: bool) -> (write: Option<Action<S>>)
    ensures
        match write {
            Some(action) => writes(exists) && action@ == write_of::<S>(url@, body@),
            None => !writes(exists),
        },
{
    if exists {
        None
    } else {
        let key = get_r2_key(url);
        Some(Action::Put { key, value: body.into_data(), url: String::from_str(url) })
    }
}

} // verus!
