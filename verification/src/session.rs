//! What a session is and how it moves: its states, the tables of
//! outstanding requests, what each message from the router and each
//! operation of the user does to them, and what the driver is asked to do
//! in return.
//!
//! The effects are values that the driver receives. The rest is a model:
//! the executable session in [`crate::client`] is held to it.

use crate::client::{Registration, Subscription};
use crate::messages::{
    dict_or_empty, list_or_empty, CallError, CallResult, Dict, ErrorDetails, ErrorType, List,
    Message, Reason, YieldOptions, ID, URI,
};
use crate::promise::{fulfil, reject};
use crate::ErrorKind;
use eventual::{Complete, Future};
use vstd::prelude::*;

verus! {

/// Subprotocol name of the JSON text codec.
pub const WAMP_JSON: &'static str = "wamp.2.json";

/// Subprotocol name of the MessagePack binary codec.
pub const WAMP_MSGPACK: &'static str = "wamp.2.msgpack";

/// Timer token of the connect deadline.
pub const CONNECTION_TIMEOUT: usize = 124;

/// Timer token of the inactivity deadline.
pub const EXPIRE_TIMEOUT: usize = 125;

/// What an operation is refused with on a session that is not connected.
pub const NOT_CONNECTED: &'static str = "The session is not connected";

/// What a shutdown is refused with on a session that is not connected.
pub const NOT_RUNNING: &'static str = "Tried to shut down a client that was already shutting down";

/// The producer half of an outstanding operation.
pub type Promise<T, V> = Complete<T, CallError<V>>;

/// The consumer half of an outstanding operation.
pub type Pending<T, V> = Future<T, CallError<V>>;

#[derive(Debug, Clone, Copy, PartialEq, Eq, Structural)]
pub enum ConnectionState {
    Connecting,
    Connected,
    ShuttingDown,
    Disconnected,
}

/// Which of the two wire formats a frame is written in.
#[derive(Debug, Clone, Copy, PartialEq, Eq, Structural)]
pub enum Codec {
    Json,
    MsgPack,
}

/// Why the transport is asked to close.
#[derive(Debug, Clone, Copy, PartialEq, Eq, Structural)]
pub enum CloseCode {
    Normal,
    Away,
}

/// A sink together with what it is to be settled with. The identifier is
/// that of the request the sink belongs to.
#[derive(Debug)]
#[verifier::reject_recursive_types(V)]
pub enum Settlement<V: Send + 'static> {
    Subscribe(ID, Promise<Subscription, V>, Result<Subscription, CallError<V>>),
    Unsubscribe(ID, Promise<(), V>, Result<(), CallError<V>>),
    Register(ID, Promise<Registration, V>, Result<Registration, CallError<V>>),
    Unregister(ID, Promise<(), V>, Result<(), CallError<V>>),
    Publish(ID, Promise<ID, V>, Result<ID, CallError<V>>),
    Call(ID, Promise<(List<V>, Dict<V>), V>, Result<(List<V>, Dict<V>), CallError<V>>),
    /// The sink of a shutdown, which is only ever fulfilled.
    Shutdown(Promise<(), V>),
}

/// One thing the driver has to do on behalf of the session.
#[derive(Debug)]
#[verifier::reject_recursive_types(V)]
pub enum Effect<V: Send + 'static, SC, RC> {
    /// Encode the message with the codec and hand the frame to the transport.
    Send(Codec, Message<V>),
    /// Ask the transport to close with this code.
    Close(CloseCode),
    /// Tear the transport down.
    Shutdown,
    /// Arm a timer of so many milliseconds under this token.
    Timeout(u64, usize),
    /// Tell whoever waits for the connection that the router has welcomed
    /// the session.
    Connected,
    /// Tell whoever waits for the connection that the deadline has passed.
    TimedOut,
    /// Run a subscriber on the arguments of an event.
    Event(SC, List<V>, Dict<V>),
    /// Run a callee on the arguments of an invocation, then give its verdict
    /// to [`crate::client::ConnectionHandler::handle_verdict`] under this
    /// request.
    Invocation(RC, ID, List<V>, Dict<V>),
    /// Settle a sink.
    Settle(Settlement<V>),
}

/// What a session is, as contracts speak of it.
#[verifier::ext_equal]
#[verifier::reject_recursive_types(V)]
pub struct Session<V: Send + 'static, SC, RC> {
    pub state: ConnectionState,
    pub protocol: Seq<char>,
    pub session_id: ID,
    /// The request identifier handed out last; zero before the first.
    pub last_request_id: ID,
    pub subscribe: Map<ID, (Promise<Subscription, V>, SC, URI)>,
    pub unsubscribe: Map<ID, (Promise<(), V>, ID)>,
    pub register: Map<ID, (Promise<Registration, V>, RC, URI)>,
    pub unregister: Map<ID, (Promise<(), V>, ID)>,
    pub call: Map<ID, Promise<(List<V>, Dict<V>), V>>,
    pub publish: Map<ID, Promise<ID, V>>,
    pub subscriptions: Map<ID, SC>,
    pub registrations: Map<ID, RC>,
    pub shutdown: Option<Promise<(), V>>,
}

/// The codec that goes with a subprotocol name: JSON under its own name,
/// MessagePack under every other.
pub open spec fn codec_of(protocol: Seq<char>) -> Codec {
    if protocol == WAMP_JSON@ {
        Codec::Json
    } else {
        Codec::MsgPack
    }
}

impl<V: Send + 'static> Settlement<V> {
    /// The request whose sink this settles; zero for a shutdown, which
    /// belongs to no request.
    pub open spec fn request_id(self) -> ID {
        match self {
            Settlement::Subscribe(id, _, _) => id,
            Settlement::Unsubscribe(id, _, _) => id,
            Settlement::Register(id, _, _) => id,
            Settlement::Unregister(id, _, _) => id,
            Settlement::Publish(id, _, _) => id,
            Settlement::Call(id, _, _) => id,
            Settlement::Shutdown(_) => 0,
        }
    }

    /// Settles the sink: fulfils it with the value, or fails it with the
    /// error. Whoever holds the other half then sees exactly that outcome.
    pub fn settle(self) {
        match self {
            Settlement::Subscribe(_, promise, outcome) => resolve(promise, outcome),
            Settlement::Unsubscribe(_, promise, outcome) => resolve(promise, outcome),
            Settlement::Register(_, promise, outcome) => resolve(promise, outcome),
            Settlement::Unregister(_, promise, outcome) => resolve(promise, outcome),
            Settlement::Publish(_, promise, outcome) => resolve(promise, outcome),
            Settlement::Call(_, promise, outcome) => resolve(promise, outcome),
            Settlement::Shutdown(promise) => fulfil(promise, ()),
        }
    }
}

fn resolve<T: Send + 'static, V: Send + 'static>(
    promise: Promise<T, V>,
    outcome: Result<T, CallError<V>>,
) {
    match outcome {
        Ok(value) => fulfil(promise, value),
        Err(error) => reject(promise, error),
    }
}

impl<V: Send + 'static, SC, RC> Effect<V, SC, RC> {
    /// The request whose sink this effect settles; zero for any other effect.
    pub open spec fn request_id(self) -> ID {
        match self {
            Effect::Settle(settlement) => settlement.request_id(),
            _ => 0,
        }
    }
}

impl<V: Send + 'static, SC, RC> Session<V, SC, RC> {
    /// A session that has just been opened: waiting for the router's
    /// welcome, nothing outstanding, nothing subscribed or registered.
    pub open spec fn fresh() -> Self {
        Session {
            state: ConnectionState::Connecting,
            protocol: Seq::empty(),
            session_id: 0,
            last_request_id: 0,
            subscribe: Map::empty(),
            unsubscribe: Map::empty(),
            register: Map::empty(),
            unregister: Map::empty(),
            call: Map::empty(),
            publish: Map::empty(),
            subscriptions: Map::empty(),
            registrations: Map::empty(),
            shutdown: None,
        }
    }

    /// In how many of the six tables of outstanding requests `id` is a key.
    pub open spec fn occurrences(self, id: ID) -> nat {
        (if self.subscribe.contains_key(id) { 1nat } else { 0nat })
        + (if self.unsubscribe.contains_key(id) { 1nat } else { 0nat })
        + (if self.register.contains_key(id) { 1nat } else { 0nat })
        + (if self.unregister.contains_key(id) { 1nat } else { 0nat })
        + (if self.call.contains_key(id) { 1nat } else { 0nat })
        + (if self.publish.contains_key(id) { 1nat } else { 0nat })
    }

    /// Whether a request with this identifier is outstanding.
    pub open spec fn pending(self, id: ID) -> bool {
        self.occurrences(id) > 0
    }

    /// What every session satisfies: an identifier is outstanding in at most
    /// one table and was handed out by this session; a session that has
    /// ended holds no sink; a shutdown sink is held only while shutting down.
    pub open spec fn wf(self) -> bool {
        &&& forall|id: ID| #[trigger] self.occurrences(id) <= 1
        &&& forall|id: ID| #[trigger] self.pending(id) ==> 0 < id <= self.last_request_id
        &&& self.state == ConnectionState::Disconnected ==> {
            &&& forall|id: ID| !#[trigger] self.pending(id)
            &&& self.shutdown is None
        }
        &&& self.shutdown is Some ==> self.state == ConnectionState::ShuttingDown
    }

    /// The codec that frames of this session are written in.
    pub open spec fn codec(self) -> Codec {
        codec_of(self.protocol)
    }

    /// The identifier that the next request will carry.
    pub open spec fn next_request_id(self) -> int {
        self.last_request_id + 1
    }

    /// The failure that the sink of request `id` is settled with when the
    /// connection goes away.
    pub open spec fn network_failure_of(self, id: ID) -> Settlement<V> {
        if self.subscribe.contains_key(id) {
            Settlement::Subscribe(id, self.subscribe[id].0, Err(CallError::network_failure()))
        } else if self.unsubscribe.contains_key(id) {
            Settlement::Unsubscribe(id, self.unsubscribe[id].0, Err(CallError::network_failure()))
        } else if self.register.contains_key(id) {
            Settlement::Register(id, self.register[id].0, Err(CallError::network_failure()))
        } else if self.unregister.contains_key(id) {
            Settlement::Unregister(id, self.unregister[id].0, Err(CallError::network_failure()))
        } else if self.publish.contains_key(id) {
            Settlement::Publish(id, self.publish[id], Err(CallError::network_failure()))
        } else {
            Settlement::Call(id, self.call[id], Err(CallError::network_failure()))
        }
    }

    /// Whether `failures` fails the sink of every outstanding request with a
    /// network failure, each one once, and does nothing else.
    pub open spec fn drains(self, failures: Seq<Effect<V, SC, RC>>) -> bool {
        &&& forall|i: int|
            0 <= i < failures.len() ==> {
                &&& self.pending(#[trigger] failures[i].request_id())
                &&& failures[i] == Effect::<V, SC, RC>::Settle(
                    self.network_failure_of(failures[i].request_id()),
                )
            }
        &&& forall|i: int, j: int|
            0 <= i < j < failures.len() ==> #[trigger] failures[i].request_id()
                != #[trigger] failures[j].request_id()
        &&& forall|id: ID| #[trigger]
            self.pending(id) ==> exists|i: int|
                0 <= i < failures.len() && #[trigger] failures[i].request_id() == id
    }

    /// The session after it has ended: no sink is left; the registries stay.
    pub open spec fn drained(self) -> Self {
        Session {
            state: ConnectionState::Disconnected,
            subscribe: Map::empty(),
            unsubscribe: Map::empty(),
            register: Map::empty(),
            unregister: Map::empty(),
            call: Map::empty(),
            publish: Map::empty(),
            shutdown: None,
            ..self
        }
    }

    /// The settlement of the shutdown sink, where one is held.
    pub open spec fn shutdown_effects(self) -> Seq<Effect<V, SC, RC>> {
        match self.shutdown {
            Some(promise) => seq![Effect::Settle(Settlement::Shutdown(promise))],
            None => seq![],
        }
    }

    /// Whether `effects` is what ending the session asks for: `head`, then
    /// the failure of every outstanding request, then `mid`, then the
    /// fulfilment of the shutdown sink if one is held.
    pub open spec fn tears_down(
        self,
        effects: Seq<Effect<V, SC, RC>>,
        head: Seq<Effect<V, SC, RC>>,
        mid: Seq<Effect<V, SC, RC>>,
    ) -> bool {
        let tail = self.shutdown_effects();
        let n = effects.len() - head.len() - mid.len() - tail.len();
        &&& n >= 0
        &&& effects.subrange(0, head.len() as int) == head
        &&& self.drains(effects.subrange(head.len() as int, head.len() + n))
        &&& effects.subrange(head.len() + n, head.len() + n + mid.len()) == mid
        &&& effects.subrange(head.len() + n + mid.len(), effects.len() as int) == tail
    }

    /// The session after the router has confirmed a subscription.
    pub open spec fn subscribed(self, request_id: ID, subscription_id: ID) -> Self {
        if self.subscribe.contains_key(request_id) {
            Session {
                subscribe: self.subscribe.remove(request_id),
                subscriptions: self.subscriptions.insert(
                    subscription_id,
                    self.subscribe[request_id].1,
                ),
                ..self
            }
        } else {
            self
        }
    }

    /// The session after the router has confirmed the end of a subscription.
    pub open spec fn unsubscribed(self, request_id: ID) -> Self {
        if self.unsubscribe.contains_key(request_id) {
            Session {
                unsubscribe: self.unsubscribe.remove(request_id),
                subscriptions: self.subscriptions.remove(self.unsubscribe[request_id].1),
                ..self
            }
        } else {
            self
        }
    }

    /// The session after the router has confirmed a registration.
    pub open spec fn registered(self, request_id: ID, registration_id: ID) -> Self {
        if self.register.contains_key(request_id) {
            Session {
                register: self.register.remove(request_id),
                registrations: self.registrations.insert(
                    registration_id,
                    self.register[request_id].1,
                ),
                ..self
            }
        } else {
            self
        }
    }

    /// The session after the router has confirmed the end of a registration.
    pub open spec fn unregistered(self, request_id: ID) -> Self {
        if self.unregister.contains_key(request_id) {
            Session {
                unregister: self.unregister.remove(request_id),
                registrations: self.registrations.remove(self.unregister[request_id].1),
                ..self
            }
        } else {
            self
        }
    }

    /// The session after a request of the given kind has been answered in
    /// any way that only takes it out of its table.
    pub open spec fn answered(self, kind: ErrorType, request_id: ID) -> Self {
        match kind {
            ErrorType::Subscribe => Session {
                subscribe: self.subscribe.remove(request_id),
                ..self
            },
            ErrorType::Unsubscribe => Session {
                unsubscribe: self.unsubscribe.remove(request_id),
                ..self
            },
            ErrorType::Publish => Session { publish: self.publish.remove(request_id), ..self },
            ErrorType::Register => Session { register: self.register.remove(request_id), ..self },
            ErrorType::Unregister => Session {
                unregister: self.unregister.remove(request_id),
                ..self
            },
            ErrorType::Invocation => self,
            ErrorType::Call => Session { call: self.call.remove(request_id), ..self },
        }
    }

    /// The session after `message` has arrived from the router.
    pub open spec fn next(self, message: Message<V>) -> Self {
        match self.state {
            ConnectionState::Connecting => match message {
                Message::Welcome(session_id, _) => Session {
                    state: ConnectionState::Connected,
                    session_id,
                    ..self
                },
                _ => self,
            },
            ConnectionState::Connected => match message {
                Message::Subscribed(request_id, subscription_id) => self.subscribed(
                    request_id,
                    subscription_id,
                ),
                Message::Unsubscribed(request_id) => self.unsubscribed(request_id),
                Message::Registered(request_id, registration_id) => self.registered(
                    request_id,
                    registration_id,
                ),
                Message::Unregistered(request_id) => self.unregistered(request_id),
                Message::Published(request_id, _) => self.answered(ErrorType::Publish, request_id),
                Message::Result(request_id, _, _, _) => self.answered(ErrorType::Call, request_id),
                Message::Error(kind, request_id, _, _, _, _) => self.answered(kind, request_id),
                Message::Goodbye(_, _) => Session { state: ConnectionState::ShuttingDown, ..self },
                _ => self,
            },
            ConnectionState::ShuttingDown => match message {
                Message::Goodbye(_, _) => self.drained(),
                _ => self,
            },
            ConnectionState::Disconnected => self,
        }
    }

    /// Whether `effects` settles exactly this sink where `present` holds, and
    /// is empty where it does not.
    pub open spec fn settles_if(
        present: bool,
        settlement: Settlement<V>,
        effects: Seq<Effect<V, SC, RC>>,
    ) -> bool {
        if present {
            effects =~= seq![Effect::<V, SC, RC>::Settle(settlement)]
        } else {
            effects =~= Seq::<Effect<V, SC, RC>>::empty()
        }
    }

    /// Whether `effects` is what the failure of a request asks for: the sink
    /// of that request failed with the reported reason and arguments, or
    /// nothing where no such request is outstanding.
    pub open spec fn fails(
        self,
        kind: ErrorType,
        request_id: ID,
        error: CallError<V>,
        effects: Seq<Effect<V, SC, RC>>,
    ) -> bool {
        match kind {
            ErrorType::Subscribe => Self::settles_if(
                self.subscribe.contains_key(request_id),
                Settlement::Subscribe(request_id, self.subscribe[request_id].0, Err(error)),
                effects,
            ),
            ErrorType::Unsubscribe => Self::settles_if(
                self.unsubscribe.contains_key(request_id),
                Settlement::Unsubscribe(request_id, self.unsubscribe[request_id].0, Err(error)),
                effects,
            ),
            ErrorType::Publish => Self::settles_if(
                self.publish.contains_key(request_id),
                Settlement::Publish(request_id, self.publish[request_id], Err(error)),
                effects,
            ),
            ErrorType::Register => Self::settles_if(
                self.register.contains_key(request_id),
                Settlement::Register(request_id, self.register[request_id].0, Err(error)),
                effects,
            ),
            ErrorType::Unregister => Self::settles_if(
                self.unregister.contains_key(request_id),
                Settlement::Unregister(request_id, self.unregister[request_id].0, Err(error)),
                effects,
            ),
            ErrorType::Invocation => effects =~= Seq::<Effect<V, SC, RC>>::empty(),
            ErrorType::Call => Self::settles_if(
                self.call.contains_key(request_id),
                Settlement::Call(request_id, self.call[request_id], Err(error)),
                effects,
            ),
        }
    }

    /// Whether `effects` is the delivery of a call's result: the sink of the
    /// call fulfilled with the result's arguments, absent ones read as
    /// empty, or nothing where no such call is outstanding.
    pub open spec fn delivers(
        self,
        request_id: ID,
        args: Option<List<V>>,
        kwargs: Option<Dict<V>>,
        effects: Seq<Effect<V, SC, RC>>,
    ) -> bool {
        if self.call.contains_key(request_id) {
            &&& effects.len() == 1
            &&& effects[0] matches Effect::Settle(Settlement::Call(id, promise, Ok(lists)))
            &&& id == request_id
            &&& promise == self.call[request_id]
            &&& lists.0@ == list_or_empty(args)
            &&& lists.1@ == dict_or_empty(kwargs)
        } else {
            effects.len() == 0
        }
    }
}

impl<V: Send + 'static, SC: Clone, RC: Clone> Session<V, SC, RC> {
    /// Whether `effects` is the delivery of an event: one run of the
    /// subscriber on the event's arguments, absent ones read as empty, or
    /// nothing where nobody is subscribed under that identifier.
    pub open spec fn notifies(
        self,
        subscription_id: ID,
        args: Option<List<V>>,
        kwargs: Option<Dict<V>>,
        effects: Seq<Effect<V, SC, RC>>,
    ) -> bool {
        if self.subscriptions.contains_key(subscription_id) {
            &&& effects.len() == 1
            &&& effects[0] matches Effect::Event(callback, list, dict)
            &&& cloned(self.subscriptions[subscription_id], callback)
            &&& list@ == list_or_empty(args)
            &&& dict@ == dict_or_empty(kwargs)
        } else {
            effects.len() == 0
        }
    }

    /// Whether `effects` is the delivery of an invocation: one run of the
    /// callee on the invocation's arguments, absent ones read as empty, or
    /// nothing where nothing is registered under that identifier.
    pub open spec fn invokes(
        self,
        request_id: ID,
        registration_id: ID,
        args: Option<List<V>>,
        kwargs: Option<Dict<V>>,
        effects: Seq<Effect<V, SC, RC>>,
    ) -> bool {
        if self.registrations.contains_key(registration_id) {
            &&& effects.len() == 1
            &&& effects[0] matches Effect::Invocation(callback, id, list, dict)
            &&& cloned(self.registrations[registration_id], callback)
            &&& id == request_id
            &&& list@ == list_or_empty(args)
            &&& dict@ == dict_or_empty(kwargs)
        } else {
            effects.len() == 0
        }
    }

    /// Whether `effects` is what the arrival of `message` asks for.
    pub open spec fn reacts(self, message: Message<V>, effects: Seq<Effect<V, SC, RC>>) -> bool {
        match self.state {
            ConnectionState::Connecting => match message {
                Message::Welcome(_, _) => effects =~= seq![Effect::<V, SC, RC>::Connected],
                _ => effects.len() == 0,
            },
            ConnectionState::Connected => match message {
                Message::Subscribed(request_id, subscription_id) => Self::settles_if(
                    self.subscribe.contains_key(request_id),
                    Settlement::Subscribe(
                        request_id,
                        self.subscribe[request_id].0,
                        Ok(Subscription { topic: self.subscribe[request_id].2, subscription_id }),
                    ),
                    effects,
                ),
                Message::Unsubscribed(request_id) => Self::settles_if(
                    self.unsubscribe.contains_key(request_id),
                    Settlement::Unsubscribe(request_id, self.unsubscribe[request_id].0, Ok(())),
                    effects,
                ),
                Message::Registered(request_id, registration_id) => Self::settles_if(
                    self.register.contains_key(request_id),
                    Settlement::Register(
                        request_id,
                        self.register[request_id].0,
                        Ok(Registration { procedure: self.register[request_id].2, registration_id }),
                    ),
                    effects,
                ),
                Message::Unregistered(request_id) => Self::settles_if(
                    self.unregister.contains_key(request_id),
                    Settlement::Unregister(request_id, self.unregister[request_id].0, Ok(())),
                    effects,
                ),
                Message::Published(request_id, publication_id) => Self::settles_if(
                    self.publish.contains_key(request_id),
                    Settlement::Publish(request_id, self.publish[request_id], Ok(publication_id)),
                    effects,
                ),
                Message::Result(request_id, _, args, kwargs) => self.delivers(
                    request_id,
                    args,
                    kwargs,
                    effects,
                ),
                Message::Event(subscription_id, _, _, args, kwargs) => self.notifies(
                    subscription_id,
                    args,
                    kwargs,
                    effects,
                ),
                Message::Invocation(request_id, registration_id, _, args, kwargs) => self.invokes(
                    request_id,
                    registration_id,
                    args,
                    kwargs,
                    effects,
                ),
                Message::Error(kind, request_id, _, reason, args, kwargs) => self.fails(
                    kind,
                    request_id,
                    CallError { reason, args, kwargs },
                    effects,
                ),
                Message::Goodbye(_, _) => effects =~= seq![
                    Effect::<V, SC, RC>::Send(
                        self.codec(),
                        Message::Goodbye(ErrorDetails { message: None }, Reason::GoodbyeAndOut),
                    ),
                ],
                _ => effects.len() == 0,
            },
            ConnectionState::ShuttingDown => match message {
                Message::Goodbye(_, _) => self.tears_down(effects, seq![], seq![]),
                _ => effects.len() == 0,
            },
            ConnectionState::Disconnected => effects.len() == 0,
        }
    }
}

impl<V: Send + 'static, SC, RC> Session<V, SC, RC> {
    /// The session after the transport has opened and the server has
    /// settled on a subprotocol, or on none, which stands for JSON.
    pub open spec fn opened(self, selected: Option<Seq<char>>) -> Self {
        Session {
            protocol: match selected {
                Some(name) => name,
                None => WAMP_JSON@,
            },
            ..self
        }
    }

    /// Whether `effects` is what the firing of the timer `token` asks for:
    /// a connect deadline that finds the session still waiting tears the
    /// transport down and reports the timeout; an inactivity deadline
    /// closes the transport as gone away; either ends the session.
    pub open spec fn expires(self, token: usize, effects: Seq<Effect<V, SC, RC>>) -> bool {
        if token == CONNECTION_TIMEOUT && self.state == ConnectionState::Connecting {
            self.tears_down(
                effects,
                seq![Effect::<V, SC, RC>::Shutdown, Effect::<V, SC, RC>::TimedOut],
                seq![],
            )
        } else if token == EXPIRE_TIMEOUT {
            self.tears_down(effects, seq![Effect::<V, SC, RC>::Close(CloseCode::Away)], seq![])
        } else {
            effects.len() == 0
        }
    }

    /// The session after the timer `token` has fired.
    pub open spec fn expired(self, token: usize) -> Self {
        if token == CONNECTION_TIMEOUT && self.state == ConnectionState::Connecting {
            self.drained()
        } else if token == EXPIRE_TIMEOUT {
            self.drained()
        } else {
            self
        }
    }
}

/// The reply to an invocation, given what the callee handed back: its
/// results as a yield, its failure as an error of the invocation kind.
pub open spec fn answers_invocation<V>(
    request_id: ID,
    verdict: CallResult<(Option<List<V>>, Option<Dict<V>>), V>,
    reply: Message<V>,
) -> bool {
    match verdict {
        Ok(lists) => reply == Message::<V>::Yield(request_id, YieldOptions {  }, lists.0, lists.1),
        Err(error) => {
            &&& reply matches Message::Error(kind, id, details, reason, args, kwargs)
            &&& kind == ErrorType::Invocation
            &&& id == request_id
            &&& details@ == Map::<String, V>::empty()
            &&& reason == error.reason
            &&& args == error.args
            &&& kwargs == error.kwargs
        },
    }
}

/// Whether `kind` is the error an operation other than a shutdown is
/// refused with in `state`: the connection is lost once the session has
/// ended, and the state is invalid while it is opening or closing.
pub open spec fn refusal(state: ConnectionState, kind: ErrorKind) -> bool {
    match state {
        ConnectionState::Connected => false,
        ConnectionState::Disconnected => kind is ConnectionLost,
        _ => kind matches ErrorKind::InvalidState(text) && text@ == NOT_CONNECTED@,
    }
}

impl<V: Send + 'static, SC, RC> Session<V, SC, RC> {
    /// The session after one more request identifier has been handed out.
    pub open spec fn advanced(self) -> Self {
        Session { last_request_id: (self.last_request_id + 1) as ID, ..self }
    }

    /// Whether `other` is this session with one more request outstanding,
    /// under the identifier that was next.
    pub open spec fn subscribing(self, other: Self, callback: SC, topic: URI) -> bool {
        let id = (self.last_request_id + 1) as ID;
        other == (Session {
            subscribe: self.subscribe.insert(id, (other.subscribe[id].0, callback, topic)),
            ..self.advanced()
        })
    }

    pub open spec fn unsubscribing(self, other: Self, subscription_id: ID) -> bool {
        let id = (self.last_request_id + 1) as ID;
        other == (Session {
            unsubscribe: self.unsubscribe.insert(id, (other.unsubscribe[id].0, subscription_id)),
            ..self.advanced()
        })
    }

    pub open spec fn registering(self, other: Self, callback: RC, procedure: URI) -> bool {
        let id = (self.last_request_id + 1) as ID;
        other == (Session {
            register: self.register.insert(id, (other.register[id].0, callback, procedure)),
            ..self.advanced()
        })
    }

    pub open spec fn unregistering(self, other: Self, registration_id: ID) -> bool {
        let id = (self.last_request_id + 1) as ID;
        other == (Session {
            unregister: self.unregister.insert(id, (other.unregister[id].0, registration_id)),
            ..self.advanced()
        })
    }

    pub open spec fn calling(self, other: Self) -> bool {
        let id = (self.last_request_id + 1) as ID;
        other == (Session { call: self.call.insert(id, other.call[id]), ..self.advanced() })
    }

    pub open spec fn publishing(self, other: Self) -> bool {
        let id = (self.last_request_id + 1) as ID;
        other == (Session { publish: self.publish.insert(id, other.publish[id]), ..self.advanced() })
    }

    /// Whether `other` is this session on its way down at the user's wish.
    pub open spec fn leaving(self, other: Self) -> bool {
        &&& other.shutdown is Some
        &&& other == (Session {
            state: ConnectionState::ShuttingDown,
            shutdown: other.shutdown,
            ..self
        })
    }
}

impl<V: Send + 'static, SC, RC> Session<V, SC, RC> {
    /// The session after a sequence of messages has arrived, first to last.
    pub open spec fn run(self, messages: Seq<Message<V>>) -> Self
        decreases messages.len(),
    {
        if messages.len() == 0 {
            self
        } else {
            self.run(messages.drop_last()).next(messages.last())
        }
    }

    /// Whether the arrival of `message` is the end of deliveries under
    /// `subscription_id`: the router confirms an unsubscription from it, or
    /// says goodbye.
    pub open spec fn ends_subscription(self, message: Message<V>, subscription_id: ID) -> bool {
        match message {
            Message::Unsubscribed(request_id) => self.unsubscribe.contains_key(request_id)
                && self.unsubscribe[request_id].1 == subscription_id,
            Message::Goodbye(_, _) => true,
            _ => false,
        }
    }
}

} // verus!
