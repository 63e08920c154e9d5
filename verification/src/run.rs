//! What a whole request comes to when the caller carries out every action
//! faithfully, stated over a model of the origin and the store.

use crate::address::absolute_url;
use crate::body::Payload;
use crate::failure::Failure;
use crate::key::cache_key;
use crate::session::{
    failure_in, start, turn_away, verdict, ActionView, EventView, Method, PhaseView, ReplyView, SessionView,
    Verdict,
};
use crate::store::{get, holds, put, remember, writes, Entry};
use vstd::prelude::*;

verus! {

/// What a request meets: the store, and the origin's answer to its fetch.
pub struct World<S> {
    pub store: Map<Seq<char>, Entry<S>>,
    /// The status of the origin's answer.
    pub origin_status: u16,
    /// The body of the origin's answer, as its duplicate holds it.
    pub origin_body: Payload<S>,
    /// The fallback URL as the configuration holds it.
    pub fallback_url: Seq<char>,
}

impl<S> World<S> {
    /// This world with another store.
    pub open spec fn with_store(self, store: Map<Seq<char>, Entry<S>>) -> World<S> {
        World {
            store,
            origin_status: self.origin_status,
            origin_body: self.origin_body,
            fallback_url: self.fallback_url,
        }
    }

    /// This world with another answer from the origin.
    pub open spec fn with_origin(self, status: u16, body: Payload<S>) -> World<S> {
        World {
            store: self.store,
            origin_status: status,
            origin_body: body,
            fallback_url: self.fallback_url,
        }
    }
}

/// Whether an action ends a request.
pub open spec fn is_final<S>(action: ActionView<S>) -> bool {
    action is Respond || action is Fail
}

/// What carrying out `action` does to the store and what is reported then,
/// where nothing fails. Only a write changes the store.
pub open spec fn carry_out<S>(world: World<S>, action: ActionView<S>) -> (World<S>, EventView<S>) {
    match action {
        ActionView::FetchOrigin { .. } => (
            world,
            EventView::OriginResponded { status: world.origin_status },
        ),
        ActionView::Duplicate => (world, EventView::Duplicated { body: world.origin_body }),
        ActionView::Head { key } => (world, EventView::HeadDone { exists: holds(world.store, key) }),
        ActionView::Put { key, value, url } => (
            world.with_store(put(world.store, key, value, url)),
            EventView::PutDone,
        ),
        ActionView::Get { key } => (
            world,
            EventView::GetDone {
                object: match get(world.store, key) {
                    Some(entry) => Some(Some(entry.value)),
                    None => None,
                },
            },
        ),
        ActionView::LookUpFallback => (
            world,
            EventView::FallbackConfigured { url: world.fallback_url },
        ),
        ActionView::FetchFallback { .. } => (world, EventView::FallbackResponded),
        _ => (world, EventView::Failed),
    }
}

/// The last action of a request and the world it leaves, where the caller
/// carries out at most `steps` actions.
pub open spec fn run<S>(
    session: SessionView<S>,
    action: ActionView<S>,
    world: World<S>,
    steps: nat,
) -> (ActionView<S>, World<S>)
    decreases steps,
{
    if is_final(action) || steps == 0 {
        (action, world)
    } else {
        let (after, event) = carry_out(world, action);
        let (next, then) = session.step(event);
        run(next, then, after, (steps - 1) as nat)
    }
}

/// The reply to a served request: the content for a `GET`, nothing for a
/// `POST`.
pub open spec fn reply_for<S>(method: Method, reply: ReplyView<S>) -> ActionView<S> {
    ActionView::Respond(
        match method {
            Method::Get => reply,
            Method::Post => ReplyView::Empty,
        },
    )
}

/// What a request for `url` comes to.
///
/// An origin success is returned as it is, and the store remembers it. On
/// an origin failure the stored copy is served, or the fallback's answer
/// where the store has none, and the store stays as it was; with no copy and
/// a fallback that is no absolute URL the request fails. Any other status
/// fails the request.
pub open spec fn outcome<S>(url: Seq<char>, method: Method, world: World<S>) -> (
    ActionView<S>,
    World<S>,
) {
    match verdict(world.origin_status) {
        Verdict::Store => (
            reply_for(method, ReplyView::Origin),
            world.with_store(remember(world.store, url, world.origin_body)),
        ),
        Verdict::Recover => match get(world.store, cache_key(url)) {
            Some(entry) => (reply_for(method, ReplyView::Cached { body: entry.value }), world),
            None => match absolute_url(world.fallback_url) {
                Some(_) => (reply_for(method, ReplyView::Fallback), world),
                None => (ActionView::Fail(Failure::Fallback), world),
            },
        },
        Verdict::Refuse => (ActionView::Fail(Failure::UnexpectedStatus), world),
    }
}

/// A request whose actions are all carried out ends after four of them at
/// most, with the outcome above.
pub proof fn lemma_request_outcome<S>(
    url: Seq<char>,
    user_agent: Option<Seq<char>>,
    method: Method,
    world: World<S>,
    steps: nat,
)
    requires
        steps >= 4,
    ensures
        run(start::<S>(url, user_agent, method).0, start::<S>(url, user_agent, method).1, world, steps)
            == outcome(url, method, world),
{
    reveal_with_fuel(run, 6);
    let (s0, a0) = start::<S>(url, user_agent, method);
    let (w1, e1) = carry_out(world, a0);
    let (s1, a1) = s0.step(e1);
    match verdict(world.origin_status) {
        Verdict::Store => {
            let (w2, e2) = carry_out(w1, a1);
            let (s2, a2) = s1.step(e2);
            let (w3, e3) = carry_out(w2, a2);
            let (s3, a3) = s2.step(e3);
            if holds(world.store, cache_key(url)) {
                assert(is_final(a3));
                assert(w3.store == remember(world.store, url, world.origin_body));
            } else {
                let (w4, e4) = carry_out(w3, a3);
                let (s4, a4) = s3.step(e4);
                assert(is_final(a4));
                assert(w4.store == remember(world.store, url, world.origin_body));
                assert(w4 == world.with_store(remember(world.store, url, world.origin_body)));
            }
        },
        Verdict::Recover => {
            let (w2, e2) = carry_out(w1, a1);
            let (s2, a2) = s1.step(e2);
            if holds(world.store, cache_key(url)) {
                assert(is_final(a2));
            } else {
                let (w3, e3) = carry_out(w2, a2);
                let (s3, a3) = s2.step(e3);
                if absolute_url(world.fallback_url) is Some {
                    let (w4, e4) = carry_out(w3, a3);
                    let (s4, a4) = s3.step(e4);
                    assert(is_final(a4));
                } else {
                    assert(is_final(a3));
                }
            }
        },
        Verdict::Refuse => {
            assert(is_final(a1));
        },
    }
}

/// A request that is turned away at its start asks for nothing: its first
/// action is its last, and the store is untouched.
pub proof fn lemma_turned_away_touches_nothing<S>(
    method: Method,
    failure: Failure,
    world: World<S>,
    steps: nat,
)
    ensures
        run(turn_away::<S>(method, failure).0, turn_away::<S>(method, failure).1, world, steps) == (
            ActionView::<S>::Fail(failure),
            world,
        ),
{
    reveal_with_fuel(run, 1);
}

/// Two requests for one URL, one after the other and both answered by the
/// origin with a success: the second writes nothing, and the store keeps
/// what the first one left, whatever the second answer's body is.
pub proof fn lemma_second_request_writes_nothing<S>(
    url: Seq<char>,
    method1: Method,
    method2: Method,
    world: World<S>,
    status2: u16,
    body2: Payload<S>,
)
    requires
        verdict(world.origin_status) == Verdict::Store,
        verdict(status2) == Verdict::Store,
    ensures
        ({
            let first = outcome(url, method1, world);
            let second = outcome(url, method2, first.1.with_origin(status2, body2));
            &&& second.1.store == first.1.store
            &&& !writes(holds(first.1.store, cache_key(url)))
            &&& !holds(world.store, cache_key(url)) ==> get(second.1.store, cache_key(url)) == Some(
                Entry { value: world.origin_body, url },
            )
        }),
{
}

/// What a success stored is what a later failure serves: after a request
/// that the origin answered with a success, with no copy in the store, a
/// `GET` for the same URL that the origin fails is answered with the body of
/// that success.
pub proof fn lemma_stored_answer_is_served<S>(url: Seq<char>, method: Method, world: World<S>, status2: u16, body2: Payload<S>)
    requires
        verdict(world.origin_status) == Verdict::Store,
        !holds(world.store, cache_key(url)),
        verdict(status2) == Verdict::Recover,
    ensures
        ({
            let first = outcome(url, method, world);
            let second = outcome(url, Method::Get, first.1.with_origin(status2, body2));
            &&& second.0 == ActionView::Respond(ReplyView::Cached { body: world.origin_body })
            &&& second.1.store == first.1.store
        }),
{
}

/// How far a request has come: the number of events that lie behind it on
/// the longest way to its phase.
pub open spec fn progress<S>(phase: PhaseView<S>) -> nat {
    match phase {
        PhaseView::AwaitOrigin => 0,
        PhaseView::AwaitDuplicate => 1,
        PhaseView::AwaitGet => 1,
        PhaseView::AwaitHead { .. } => 2,
        PhaseView::AwaitFallbackUrl => 2,
        PhaseView::AwaitPut => 3,
        PhaseView::AwaitFallback => 3,
        PhaseView::Done => 4,
    }
}

/// Whatever is reported, a request moves forward: every event brings it to a
/// later phase, it ends exactly when its action is a reply or a failure, and
/// once ended it answers every event with the failure of an event out of
/// turn. Its URL and its method never change.
pub proof fn lemma_step_advances<S>(session: SessionView<S>, event: EventView<S>)
    ensures
        session.step(event).0.url == session.url,
        session.step(event).0.method == session.method,
        is_final(session.step(event).1) <==> session.step(event).0.phase is Done,
        !(session.phase is Done) ==> progress(session.step(event).0.phase) > progress(
            session.phase,
        ),
        session.phase is Done ==> session.step(event) == session.fail(Failure::UnexpectedEvent),
{
}

/// Whatever is reported, a write is asked for in one case only: the store
/// was asked whether it holds the key and said that it does not. The write
/// is then the duplicate's body under the URL's key, with the URL as its
/// metadata.
pub proof fn lemma_write_follows_absent_head<S>(session: SessionView<S>, event: EventView<S>)
    ensures
        session.step(event).1 is Put <==> session.phase is AwaitHead && event == (
            EventView::<S>::HeadDone { exists: false }
        ),
        session.phase matches PhaseView::AwaitHead { body } ==> session.step(
            EventView::HeadDone { exists: false },
        ).1 == (ActionView::Put { key: cache_key(session.url), value: body, url: session.url }),
{
}

/// An action that could not be carried out ends the request at once, with a
/// fatal failure: nothing is retried, and a store that fails after an origin
/// success fails the request too.
pub proof fn lemma_failed_action_is_fatal<S>(session: SessionView<S>)
    requires
        !(session.phase is Done),
    ensures
        session.step(EventView::Failed) == session.fail(failure_in(session.phase)),
        !failure_in(session.phase).is_client_error(),
        failure_in(session.phase).spec_status_code() == 500,
        session.phase is AwaitHead || session.phase is AwaitPut ==> failure_in(session.phase)
            == Failure::Store,
{
}

/// The number of writes that a request asks for while `events` are reported
/// to it, one after the other.
pub open spec fn writes_asked<S>(session: SessionView<S>, events: Seq<EventView<S>>) -> nat
    decreases events.len(),
{
    if events.len() == 0 {
        0
    } else {
        let (next, action) = session.step(events[0]);
        let rest = writes_asked(next, events.drop_first());
        if action is Put {
            rest + 1
        } else {
            rest
        }
    }
}

/// Whatever is reported and in whatever order, one request asks for one
/// write at most, and for none once the store has said that it holds the
/// key.
pub proof fn lemma_at_most_one_write<S>(session: SessionView<S>, events: Seq<EventView<S>>)
    ensures
        writes_asked(session, events) <= 1,
        progress(session.phase) >= 3 ==> writes_asked(session, events) == 0,
    decreases events.len(),
{
    if events.len() > 0 {
        let (next, action) = session.step(events[0]);
        lemma_step_advances(session, events[0]);
        lemma_write_follows_absent_head(session, events[0]);
        lemma_at_most_one_write(next, events.drop_first());
    }
}

} // verus!
