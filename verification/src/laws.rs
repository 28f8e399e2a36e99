//! What holds of every session, proved from the model in
//! [`crate::session`].

use crate::messages::{
    dict_or_empty, list_or_empty, ErrorType, MatchingPolicy, Message, Reason, ID, URI,
};
use crate::session::{ConnectionState, Effect, Session, Settlement};
use vstd::prelude::*;

verus! {

/// Request identifiers grow strictly. Take the sessions in which one
/// client issues its requests, in the order of issue: each request takes
/// the identifier that is next, and the counter is never behind what the
/// request before left it at. Then every request carries a larger
/// identifier than every earlier one, and none carries zero.
pub proof fn law_request_ids_increase<V: Send + 'static, SC, RC>(
    issuing: Seq<Session<V, SC, RC>>,
    earlier: int,
    later: int,
)
    requires
        0 <= earlier < later < issuing.len(),
        forall|i: int| 0 <= i < issuing.len() ==> (#[trigger] issuing[i]).last_request_id < u64::MAX,
        forall|i: int|
            0 <= i < issuing.len() - 1 ==> (#[trigger] issuing[i + 1]).last_request_id
                >= issuing[i].advanced().last_request_id,
    ensures
        0 < issuing[earlier].next_request_id() < issuing[later].next_request_id(),
    decreases later - earlier,
{
    if earlier + 1 < later {
        law_request_ids_increase(issuing, earlier, later - 1);
        assert(issuing[later - 1 + 1].last_request_id
            >= issuing[later - 1].advanced().last_request_id);
    } else {
        assert(issuing[earlier + 1].last_request_id >= issuing[earlier].advanced().last_request_id);
    }
}

/// No message from the router moves the counter of request identifiers,
/// and no operation of the user moves it back.
pub proof fn law_counter_never_falls<V: Send + 'static, SC, RC>(
    session: Session<V, SC, RC>,
    message: Message<V>,
    after: Session<V, SC, RC>,
    callback: SC,
    callee: RC,
    name: URI,
    target: ID,
)
    requires
        session.last_request_id < u64::MAX,
        after == session.next(message) || after == session.drained() || after
            == session.advanced() || session.subscribing(after, callback, name)
            || session.unsubscribing(after, target) || session.registering(after, callee, name)
            || session.unregistering(after, target) || session.calling(after)
            || session.publishing(after) || session.leaving(after),
    ensures
        after.last_request_id >= session.last_request_id,
{
}

/// In a well-formed session no request identifier is outstanding in two
/// tables at once.
pub proof fn law_pending_ids_are_distinct<V: Send + 'static, SC, RC>(session: Session<V, SC, RC>)
    requires
        session.wf(),
    ensures
        session.subscribe.dom().disjoint(session.unsubscribe.dom()),
        session.subscribe.dom().disjoint(session.register.dom()),
        session.subscribe.dom().disjoint(session.unregister.dom()),
        session.subscribe.dom().disjoint(session.call.dom()),
        session.subscribe.dom().disjoint(session.publish.dom()),
        session.unsubscribe.dom().disjoint(session.register.dom()),
        session.unsubscribe.dom().disjoint(session.unregister.dom()),
        session.unsubscribe.dom().disjoint(session.call.dom()),
        session.unsubscribe.dom().disjoint(session.publish.dom()),
        session.register.dom().disjoint(session.unregister.dom()),
        session.register.dom().disjoint(session.call.dom()),
        session.register.dom().disjoint(session.publish.dom()),
        session.unregister.dom().disjoint(session.call.dom()),
        session.unregister.dom().disjoint(session.publish.dom()),
        session.call.dom().disjoint(session.publish.dom()),
{
    assert forall|id: ID| #[trigger] session.occurrences(id) <= 1 by {}
    assert forall|id: ID|
        !(#[trigger] session.subscribe.dom().contains(id) && session.unsubscribe.dom().contains(
            id,
        )) by {
        assert(session.occurrences(id) <= 1);
    }
    assert forall|id: ID|
        !(#[trigger] session.subscribe.dom().contains(id) && (session.register.dom().contains(id)
            || session.unregister.dom().contains(id) || session.call.dom().contains(id)
            || session.publish.dom().contains(id))) by {
        assert(session.occurrences(id) <= 1);
    }
    assert forall|id: ID|
        !(#[trigger] session.unsubscribe.dom().contains(id) && (session.register.dom().contains(
            id,
        ) || session.unregister.dom().contains(id) || session.call.dom().contains(id)
            || session.publish.dom().contains(id))) by {
        assert(session.occurrences(id) <= 1);
    }
    assert forall|id: ID|
        !(#[trigger] session.register.dom().contains(id) && (session.unregister.dom().contains(id)
            || session.call.dom().contains(id) || session.publish.dom().contains(id))) by {
        assert(session.occurrences(id) <= 1);
    }
    assert forall|id: ID|
        !(#[trigger] session.unregister.dom().contains(id) && (session.call.dom().contains(id)
            || session.publish.dom().contains(id))) by {
        assert(session.occurrences(id) <= 1);
    }
    assert forall|id: ID|
        !(#[trigger] session.call.dom().contains(id) && session.publish.dom().contains(id)) by {
        assert(session.occurrences(id) <= 1);
    }
}

/// While a session is connected, every event under a subscription that is
/// in place runs its subscriber, once, on the arguments of the event.
pub proof fn law_event_reaches_subscriber<V: Send + 'static, SC: Clone, RC: Clone>(
    session: Session<V, SC, RC>,
    event: Message<V>,
    effects: Seq<Effect<V, SC, RC>>,
)
    requires
        session.state == ConnectionState::Connected,
        event matches Message::Event(subscription_id, _, _, _, _)
            && session.subscriptions.contains_key(subscription_id),
        session.reacts(event, effects),
    ensures
        session.next(event) == session,
        effects.len() == 1,
        event matches Message::Event(subscription_id, _, _, args, kwargs) && effects[0] matches Effect::Event(
            callback,
            list,
            dict,
        ) && cloned(session.subscriptions[subscription_id], callback) && list@ == list_or_empty(
            args,
        ) && dict@ == dict_or_empty(kwargs),
{
}

/// A subscriber stays in place, and the session connected, through every
/// sequence of messages none of which ends deliveries to it. Events that
/// are still on their way when the user asks to unsubscribe are therefore
/// delivered: only the router's confirmation takes the subscriber out.
pub proof fn law_subscriber_stays<V: Send + 'static, SC, RC>(
    session: Session<V, SC, RC>,
    messages: Seq<Message<V>>,
    subscription_id: ID,
)
    requires
        session.state == ConnectionState::Connected,
        session.subscriptions.contains_key(subscription_id),
        forall|i: int|
            0 <= i < messages.len() ==> !(#[trigger] session.run(
                messages.take(i),
            )).ends_subscription(messages[i], subscription_id),
    ensures
        session.run(messages).state == ConnectionState::Connected,
        session.run(messages).subscriptions.contains_key(subscription_id),
    decreases messages.len(),
{
    if messages.len() > 0 {
        let shorter = messages.drop_last();
        assert forall|i: int| 0 <= i < shorter.len() implies !(#[trigger] session.run(
            shorter.take(i),
        )).ends_subscription(shorter[i], subscription_id) by {
            assert(shorter.take(i) =~= messages.take(i));
            assert(!session.run(messages.take(i)).ends_subscription(
                messages[i],
                subscription_id,
            ));
        }
        law_subscriber_stays(session, shorter, subscription_id);
        let at = messages.len() - 1;
        assert(messages.take(at) =~= shorter);
        assert(!session.run(messages.take(at)).ends_subscription(messages[at], subscription_id));
    }
}

/// No operation of the user takes a subscriber or a callee out, nor does
/// any but a shutdown change the state of the session.
pub proof fn law_operations_keep_registries<V: Send + 'static, SC, RC>(
    session: Session<V, SC, RC>,
    after: Session<V, SC, RC>,
    callback: SC,
    callee: RC,
    name: URI,
    target: ID,
)
    requires
        after == session.advanced() || session.subscribing(after, callback, name)
            || session.unsubscribing(after, target) || session.registering(after, callee, name)
            || session.unregistering(after, target) || session.calling(after)
            || session.publishing(after) || session.leaving(after),
    ensures
        after.subscriptions == session.subscriptions,
        after.registrations == session.registrations,
        !session.leaving(after) ==> after.state == session.state,
{
}

/// When a session ends, every request that was outstanding is failed with
/// a network failure, and exactly once.
pub proof fn law_disconnect_drains<V: Send + 'static, SC, RC>(
    session: Session<V, SC, RC>,
    failures: Seq<Effect<V, SC, RC>>,
    id: ID,
)
    requires
        session.drains(failures),
        session.pending(id),
    ensures
        exists|i: int|
            0 <= i < failures.len() && #[trigger] failures[i] == Effect::<V, SC, RC>::Settle(
                session.network_failure_of(id),
            ) && forall|j: int|
                0 <= j < failures.len() && j != i ==> #[trigger] failures[j].request_id() != id,
{
    let i = choose|i: int| 0 <= i < failures.len() && #[trigger] failures[i].request_id() == id;
    assert(failures[i] == Effect::<V, SC, RC>::Settle(session.network_failure_of(id)));
    assert forall|j: int| 0 <= j < failures.len() && j != i implies #[trigger] failures[j].request_id()
        != id by {
        if j < i {
            assert(failures[j].request_id() != failures[i].request_id());
        } else {
            assert(failures[i].request_id() != failures[j].request_id());
        }
    }
}

/// What ending a session asks for comes in a fixed order: first what the
/// occasion puts ahead, then the failures, then what the occasion puts
/// behind them, and last the fulfilment of the shutdown sink if one is held.
pub proof fn law_teardown_order<V: Send + 'static, SC, RC>(
    session: Session<V, SC, RC>,
    effects: Seq<Effect<V, SC, RC>>,
    head: Seq<Effect<V, SC, RC>>,
    mid: Seq<Effect<V, SC, RC>>,
)
    requires
        session.tears_down(effects, head, mid),
    ensures
        effects.len() >= head.len() + mid.len() + session.shutdown_effects().len(),
        forall|i: int| 0 <= i < head.len() ==> effects[i] == head[i],
        forall|i: int|
            0 <= i < mid.len() ==> effects[effects.len() - session.shutdown_effects().len()
                - mid.len() + i] == mid[i],
        session.shutdown matches Some(promise) ==> effects.last() == Effect::<V, SC, RC>::Settle(
            Settlement::Shutdown(promise),
        ),
        session.drains(
            effects.subrange(
                head.len() as int,
                effects.len() - mid.len() - session.shutdown_effects().len(),
            ),
        ),
{
    let tail = session.shutdown_effects();
    let n = effects.len() - head.len() - mid.len() - tail.len();
    let h = head.len() as int;
    let m = mid.len() as int;
    assert forall|i: int| 0 <= i < head.len() implies effects[i] == head[i] by {
        assert(effects.subrange(0, h)[i] == effects[i]);
    }
    assert forall|i: int| 0 <= i < mid.len() implies effects[effects.len() - tail.len() - mid.len()
        + i] == mid[i] by {
        assert(effects.subrange(h + n, h + n + m)[i] == effects[h + n + i]);
    }
    if session.shutdown is Some {
        assert(effects.subrange(h + n + m, effects.len() as int)[0] == effects[h + n + m]);
    }
}

/// Once a session has ended nothing is outstanding, no shutdown sink is
/// held, and the session is as well-formed as it was.
pub proof fn law_nothing_outlives_the_session<V: Send + 'static, SC, RC>(
    session: Session<V, SC, RC>,
)
    ensures
        forall|id: ID| !session.drained().pending(id),
        session.drained().shutdown is None,
        session.drained().state == ConnectionState::Disconnected,
        session.wf() ==> session.drained().wf(),
{
    assert forall|id: ID| !session.drained().pending(id) by {
        assert(session.drained().occurrences(id) == 0);
    }
    if session.wf() {
        assert forall|id: ID| #[trigger] session.drained().occurrences(id) <= 1 by {}
    }
}

/// A session that has ended is at its end: it holds no sink, and nothing
/// the router sends changes it or asks for anything.
pub proof fn law_ended_session_is_inert<V: Send + 'static, SC: Clone, RC: Clone>(
    session: Session<V, SC, RC>,
    message: Message<V>,
    effects: Seq<Effect<V, SC, RC>>,
)
    requires
        session.wf(),
        session.state == ConnectionState::Disconnected,
        session.reacts(message, effects),
    ensures
        session.next(message) == session,
        effects.len() == 0,
        forall|id: ID| !session.pending(id),
        session.shutdown is None,
{
}

/// Names find their reasons again: two predefined reasons that go by the
/// same name are the same reason, so reading back the name a predefined
/// reason was written as gives that reason.
pub proof fn law_reason_names_differ(one: Reason, other: Reason)
    requires
        !(one is CustomReason),
        !(other is CustomReason),
        one.text() == other.text(),
    ensures
        one == other,
        Reason::is_predefined(one.text()),
{
    reveal_strlit("wamp.error.invalid_uri");
    reveal_strlit("wamp.error.no_such_procedure");
    reveal_strlit("wamp.error.procedure_already_exists");
    reveal_strlit("wamp.error.no_such_registration");
    reveal_strlit("wamp.error.no_such_subscription");
    reveal_strlit("wamp.error.invalid_argument");
    reveal_strlit("wamp.close.system_shutdown");
    reveal_strlit("wamp.close.close_realm");
    reveal_strlit("wamp.close.goodbye_and_out");
    reveal_strlit("wamp.error.not_authorized");
    reveal_strlit("wamp.error.authorization_failed");
    reveal_strlit("wamp.error.no_such_realm");
    reveal_strlit("wamp.error.no_such_role");
    reveal_strlit("wamp.error.canceled");
    reveal_strlit("wamp.error.option_not_allowed");
    reveal_strlit("wamp.error.no_eligible_callee");
    reveal_strlit("wamp.error.network_failure");
    reveal_strlit("wamp.close.normal");
    let a = one.text();
    let b = other.text();
    assert(a.len() == b.len());
    assert(a[5] == b[5]);
    assert(a[11] == b[11]);
    if a.len() == 31 {
        assert(a[19] == b[19]);
    }
}

/// Names find their matching policies again.
pub proof fn law_policy_names_differ(one: MatchingPolicy, other: MatchingPolicy)
    requires
        one.text() == other.text(),
    ensures
        one == other,
{
    reveal_strlit("prefix");
    reveal_strlit("wildcard");
    reveal_strlit("exact");
    assert("prefix"@.len() == 6 && "wildcard"@.len() == 8 && "exact"@.len() == 5);
}

/// Numbers find their error kinds again, and every error kind goes by the
/// number of the request it answers.
pub proof fn law_error_codes_differ(one: ErrorType, other: ErrorType)
    requires
        one.code_of() == other.code_of(),
    ensures
        one == other,
{
}

} // verus!
