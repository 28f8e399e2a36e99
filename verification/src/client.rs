//! The session as it runs: the tables of outstanding requests, the
//! dispatcher for what the router sends and the operations a user calls.
//!
//! Nothing here touches the network. Every function returns what has to be
//! done next (a frame to send, a sink to settle, a callback to run) as
//! [`Effect`] values, and the driver around the session carries them out.

use crate::handshake::{
    accepted_protocol, add_protocol, can_request, is_token, name_of, offered_protocols,
    request_from_url, selected_protocol,
};
use crate::messages::{
    keyword, positional, CallError, CallOptions, CallResult, ClientRoles, Dict, ErrorDetails,
    ErrorType, HelloDetails, List, MatchingPolicy, Message, PublishOptions, Reason,
    RegisterOptions, SubscribeOptions, YieldOptions, ID, URI,
};
use crate::promise::pair;
pub use crate::session::{
    answers_invocation, codec_of, refusal, CloseCode, Codec, ConnectionState, Effect, Pending,
    Promise, Session, Settlement, CONNECTION_TIMEOUT, EXPIRE_TIMEOUT, NOT_CONNECTED, NOT_RUNNING,
    WAMP_JSON, WAMP_MSGPACK,
};
use crate::{Error, ErrorKind, WampResult};
use std::collections::HashMap;
use url::Url;
use vstd::prelude::*;
use vstd::std_specs::iter::IteratorSpec;
use ws::util::Timeout;
use ws::Error as WSError;
use ws::{Request, Response};

verus! {

broadcast use vstd::std_specs::hash::group_hash_axioms;

/// Milliseconds a new connection waits for the router's welcome unless told otherwise.
pub const DEFAULT_CONNECT_TIMEOUT: u64 = 5000;

/// Milliseconds of silence after which the peer counts as gone, unless told
/// otherwise.
pub const EXPIRE_AFTER: u64 = 5000;

/// Where to connect and under which realm.
pub struct Connection {
    realm: URI,
    url: String,
    timeout: u64,
    expire: u64,
}

/// What a connection is set up with, as contracts speak of it.
pub struct ConnectionView {
    pub realm: Seq<char>,
    pub url: Seq<char>,
    /// Milliseconds to wait for the router's welcome.
    pub timeout: u64,
    /// Milliseconds of silence after which the peer counts as gone.
    pub expire: u64,
}

/// A live interest in a topic, as the router confirmed it.
#[derive(Debug, PartialEq, Eq)]
pub struct Subscription {
    pub topic: URI,
    pub subscription_id: ID,
}

/// A procedure this client serves, as the router confirmed it.
#[derive(Debug, PartialEq, Eq)]
pub struct Registration {
    pub procedure: URI,
    pub registration_id: ID,
}

/// The session record.
#[verifier::reject_recursive_types(V)]
pub struct ConnectionInfo<V: Send + 'static, SC, RC> {
    connection_state: ConnectionState,
    subscription_requests: HashMap<ID, (Promise<Subscription, V>, SC, URI)>,
    unsubscription_requests: HashMap<ID, (Promise<(), V>, ID)>,
    subscriptions: HashMap<ID, SC>,
    registrations: HashMap<ID, RC>,
    call_requests: HashMap<ID, Promise<(List<V>, Dict<V>), V>>,
    registration_requests: HashMap<ID, (Promise<Registration, V>, RC, URI)>,
    unregistration_requests: HashMap<ID, (Promise<(), V>, ID)>,
    protocol: String,
    publish_requests: HashMap<ID, Promise<ID, V>>,
    shutdown_complete: Option<Promise<(), V>>,
    session_id: ID,
}

/// The user's handle on a session: the session record and the counter that
/// request identifiers are drawn from.
#[verifier::reject_recursive_types(V)]
pub struct Client<V: Send + 'static, SC, RC> {
    connection_info: ConnectionInfo<V, SC, RC>,
    max_session_id: ID,
}

/// The receiving side of a session: it is told what the transport saw and
/// decides what happens to the session.
pub struct ConnectionHandler {
    realm: URI,
    expire: u64,
    timeout: Option<Timeout>,
}

impl View for Connection {
    type V = ConnectionView;

    closed spec fn view(&self) -> ConnectionView {
        ConnectionView {
            realm: self.realm.uri@,
            url: self.url@,
            timeout: self.timeout,
            expire: self.expire,
        }
    }
}

impl Connection {
    pub fn new(url: &str, realm: &str) -> (c: Connection)
        ensures
            c@ == (ConnectionView {
                realm: realm@,
                url: url@,
                timeout: DEFAULT_CONNECT_TIMEOUT,
                expire: EXPIRE_AFTER,
            }),
    {
        Connection {
            realm: URI::new(realm),
            url: url.to_owned(),
            timeout: DEFAULT_CONNECT_TIMEOUT,
            expire: EXPIRE_AFTER,
        }
    }

    /// Sets how long the peer may stay silent before it counts as gone.
    pub fn set_expire_timeout(&mut self, expire: u64)
        ensures
            final(self)@ == (ConnectionView { expire, ..old(self)@ }),
    {
        self.expire = expire;
    }

    pub fn expire_timeout(&self) -> (ms: u64)
        ensures
            ms == self@.expire,
    {
        self.expire
    }

    pub fn set_timeout(&mut self, timeout: u64)
        ensures
            final(self)@ == (ConnectionView { timeout, ..old(self)@ }),
    {
        self.timeout = timeout;
    }

    pub fn timeout(&self) -> (ms: u64)
        ensures
            ms == self@.timeout,
    {
        self.timeout
    }

    /// Sets up what a new connection starts from: a session that waits for
    /// the router's welcome, the handler that will receive for it, and the
    /// connect deadline to arm.
    pub fn start<V: Send + 'static, SC, RC>(&self) -> (opening: (
        Client<V, SC, RC>,
        ConnectionHandler,
        Effect<V, SC, RC>,
    ))
        ensures
            opening.0@ == Session::<V, SC, RC>::fresh(),
            opening.0@.wf(),
            opening.1.realm().uri@ == self@.realm,
            opening.1.expire() == self@.expire,
            opening.1.timer() is None,
            opening.2 == Effect::<V, SC, RC>::Timeout(self@.timeout, CONNECTION_TIMEOUT),
    {
        let client = Client::new();
        let handler = ConnectionHandler::new(self.realm.duplicate(), self.expire);
        (client, handler, Effect::Timeout(self.timeout, CONNECTION_TIMEOUT))
    }

    /// What connecting comes to, given what the receiving side reported
    /// before it fell silent: its report, or a timeout where it reported
    /// nothing.
    pub fn outcome<T>(&self, reported: Option<WampResult<T>>) -> (r: WampResult<T>)
        ensures
            reported matches Some(report) ==> r == report,
            reported is None ==> (r matches Err(e) && e.kind() is Timeout),
    {
        match reported {
            Some(report) => report,
            None => Err(Error::new(ErrorKind::Timeout)),
        }
    }

    pub fn url(&self) -> (url: &str)
        ensures
            url@ == self@.url,
    {
        self.url.as_str()
    }

    pub fn realm(&self) -> (realm: &URI)
        ensures
            realm.uri@ == self@.realm,
    {
        &self.realm
    }
}

impl<V: Send + 'static, SC, RC> View for Client<V, SC, RC> {
    type V = Session<V, SC, RC>;

    closed spec fn view(&self) -> Session<V, SC, RC> {
        Session {
            state: self.connection_info.connection_state,
            protocol: self.connection_info.protocol@,
            session_id: self.connection_info.session_id,
            last_request_id: self.max_session_id,
            subscribe: self.connection_info.subscription_requests@,
            unsubscribe: self.connection_info.unsubscription_requests@,
            register: self.connection_info.registration_requests@,
            unregister: self.connection_info.unregistration_requests@,
            call: self.connection_info.call_requests@,
            publish: self.connection_info.publish_requests@,
            subscriptions: self.connection_info.subscriptions@,
            registrations: self.connection_info.registrations@,
            shutdown: self.connection_info.shutdown_complete,
        }
    }
}

impl<V: Send + 'static, SC, RC> Client<V, SC, RC> {
    /// A client on a session that has just been opened.
    pub fn new() -> (client: Self)
        ensures
            client@ == Session::<V, SC, RC>::fresh(),
            client@.wf(),
    {
        Client {
            connection_info: ConnectionInfo {
                connection_state: ConnectionState::Connecting,
                subscription_requests: HashMap::new(),
                unsubscription_requests: HashMap::new(),
                subscriptions: HashMap::new(),
                registrations: HashMap::new(),
                call_requests: HashMap::new(),
                registration_requests: HashMap::new(),
                unregistration_requests: HashMap::new(),
                protocol: String::new(),
                publish_requests: HashMap::new(),
                shutdown_complete: None,
                session_id: 0,
            },
            max_session_id: 0,
        }
    }

    pub fn is_closed(&self) -> (closed: bool)
        ensures
            closed <==> self@.state == ConnectionState::ShuttingDown || self@.state
                == ConnectionState::Disconnected,
    {
        match self.connection_info.connection_state {
            ConnectionState::ShuttingDown | ConnectionState::Disconnected => true,
            _ => false,
        }
    }

    pub fn state(&self) -> (state: ConnectionState)
        ensures
            state == self@.state,
    {
        self.connection_info.connection_state
    }

    pub fn session_id(&self) -> (id: ID)
        ensures
            id == self@.session_id,
    {
        self.connection_info.session_id
    }

    /// The request identifier handed out last; zero before the first.
    pub fn last_request_id(&self) -> (id: ID)
        ensures
            id == self@.last_request_id,
    {
        self.max_session_id
    }

    /// Whether a request with this identifier is outstanding.
    pub fn is_pending(&self, id: ID) -> (pending: bool)
        ensures
            pending == self@.pending(id),
    {
        self.connection_info.subscription_requests.contains_key(&id)
            || self.connection_info.unsubscription_requests.contains_key(&id)
            || self.connection_info.registration_requests.contains_key(&id)
            || self.connection_info.unregistration_requests.contains_key(&id)
            || self.connection_info.call_requests.contains_key(&id)
            || self.connection_info.publish_requests.contains_key(&id)
    }

    /// Whether a subscriber is in place under this subscription.
    pub fn is_subscribed(&self, subscription_id: ID) -> (subscribed: bool)
        ensures
            subscribed == self@.subscriptions.contains_key(subscription_id),
    {
        self.connection_info.subscriptions.contains_key(&subscription_id)
    }

    /// Whether a callee is in place under this registration.
    pub fn is_registered(&self, registration_id: ID) -> (registered: bool)
        ensures
            registered == self@.registrations.contains_key(registration_id),
    {
        self.connection_info.registrations.contains_key(&registration_id)
    }
}

impl<V: Send + 'static, SC, RC> Client<V, SC, RC> {
    /// The codec that frames of this session are written in.
    pub fn codec(&self) -> (codec: Codec)
        ensures
            codec == self@.codec(),
    {
        if self.connection_info.protocol == WAMP_JSON.to_owned() {
            Codec::Json
        } else {
            Codec::MsgPack
        }
    }

    /// Readies a message for the transport: the frame is to be written in
    /// the codec that was agreed on when the connection was opened.
    pub fn send_message(&self, message: Message<V>) -> (effect: Effect<V, SC, RC>)
        ensures
            effect == Effect::<V, SC, RC>::Send(self@.codec(), message),
    {
        Effect::Send(self.codec(), message)
    }
}

impl<V: Send + 'static, SC, RC> Client<V, SC, RC> {
    /// Hands out the next request identifier.
    fn get_next_session_id(&mut self) -> (id: ID)
        requires
            old(self)@.last_request_id < u64::MAX,
        ensures
            id == old(self)@.last_request_id + 1,
            final(self)@ == old(self)@.advanced(),
    {
        self.max_session_id += 1;
        self.max_session_id
    }

    /// Refuses an operation on a session that is not connected.
    fn connected(&self) -> (r: WampResult<()>)
        ensures
            self@.state == ConnectionState::Connected ==> r is Ok,
            r matches Err(e) ==> refusal(self@.state, e.kind()),
            self@.state != ConnectionState::Connected ==> r is Err,
    {
        match self.connection_info.connection_state {
            ConnectionState::Connected => Ok(()),
            ConnectionState::Disconnected => Err(Error::new(ErrorKind::ConnectionLost)),
            _ => Err(Error::new(ErrorKind::InvalidState(NOT_CONNECTED))),
        }
    }

    /// Asks the router for the events of every topic that `topic_pattern`
    /// matches under `policy`. On a connected session the request is
    /// recorded with its callback and the message to send comes back with
    /// the future of the subscription; on any other the call is refused and
    /// changes nothing.
    pub fn subscribe_with_pattern(
        &mut self,
        topic_pattern: URI,
        callback: SC,
        policy: MatchingPolicy,
    ) -> (r: WampResult<(Pending<Subscription, V>, Effect<V, SC, RC>)>)
        requires
            old(self)@.wf(),
            old(self)@.last_request_id < u64::MAX,
        ensures
            final(self)@.wf(),
            old(self)@.state == ConnectionState::Connected ==> {
                &&& r matches Ok(issued)
                &&& old(self)@.subscribing(final(self)@, callback, topic_pattern)
                &&& issued.1 == Effect::<V, SC, RC>::Send(
                    old(self)@.codec(),
                    Message::Subscribe(
                        (old(self)@.last_request_id + 1) as ID,
                        SubscribeOptions { pattern_match: policy },
                        topic_pattern,
                    ),
                )
            },
            old(self)@.state != ConnectionState::Connected ==> {
                &&& r matches Err(e)
                &&& refusal(old(self)@.state, e.kind())
                &&& final(self)@ == old(self)@
            },
    {
        match self.connected() {
            Err(e) => Err(e),
            Ok(_) => {
                let request_id = self.get_next_session_id();
                let (complete, future) = pair::<Subscription, CallError<V>>();
                let mut options = SubscribeOptions::new();
                if policy != MatchingPolicy::Strict {
                    options.pattern_match = policy
                }
                self.connection_info.subscription_requests.insert(
                    request_id,
                    (complete, callback, topic_pattern.duplicate()),
                );
                proof {
                    let before = old(self)@;
                    let after = self@;
                    assert(after =~= (Session {
                        subscribe: before.subscribe.insert(
                            request_id,
                            (after.subscribe[request_id].0, callback, topic_pattern),
                        ),
                        ..before.advanced()
                    }));
                    assert(!before.pending(request_id));
                    assert(before.occurrences(request_id) == 0);
                    lemma_one_more_pending(before, after);
                }
                let effect = self.send_message(
                    Message::Subscribe(request_id, options, topic_pattern),
                );
                Ok((future, effect))
            },
        }
    }

    /// Asks for the events of one topic, matched exactly.
    pub fn subscribe(&mut self, topic: URI, callback: SC) -> (r: WampResult<
        (Pending<Subscription, V>, Effect<V, SC, RC>),
    >)
        requires
            old(self)@.wf(),
            old(self)@.last_request_id < u64::MAX,
        ensures
            final(self)@.wf(),
            old(self)@.state == ConnectionState::Connected ==> {
                &&& r matches Ok(issued)
                &&& old(self)@.subscribing(final(self)@, callback, topic)
                &&& issued.1 == Effect::<V, SC, RC>::Send(
                    old(self)@.codec(),
                    Message::Subscribe(
                        (old(self)@.last_request_id + 1) as ID,
                        SubscribeOptions { pattern_match: MatchingPolicy::Strict },
                        topic,
                    ),
                )
            },
            old(self)@.state != ConnectionState::Connected ==> {
                &&& r matches Err(e)
                &&& refusal(old(self)@.state, e.kind())
                &&& final(self)@ == old(self)@
            },
    {
        self.subscribe_with_pattern(topic, callback, MatchingPolicy::Strict)
    }

    /// Offers to serve every procedure that `procedure_pattern` matches
    /// under `policy`.
    pub fn register_with_pattern(
        &mut self,
        procedure_pattern: URI,
        callback: RC,
        policy: MatchingPolicy,
    ) -> (r: WampResult<(Pending<Registration, V>, Effect<V, SC, RC>)>)
        requires
            old(self)@.wf(),
            old(self)@.last_request_id < u64::MAX,
        ensures
            final(self)@.wf(),
            old(self)@.state == ConnectionState::Connected ==> {
                &&& r matches Ok(issued)
                &&& old(self)@.registering(final(self)@, callback, procedure_pattern)
                &&& issued.1 == Effect::<V, SC, RC>::Send(
                    old(self)@.codec(),
                    Message::Register(
                        (old(self)@.last_request_id + 1) as ID,
                        RegisterOptions { pattern_match: policy },
                        procedure_pattern,
                    ),
                )
            },
            old(self)@.state != ConnectionState::Connected ==> {
                &&& r matches Err(e)
                &&& refusal(old(self)@.state, e.kind())
                &&& final(self)@ == old(self)@
            },
    {
        match self.connected() {
            Err(e) => Err(e),
            Ok(_) => {
                let request_id = self.get_next_session_id();
                let (complete, future) = pair::<Registration, CallError<V>>();
                let mut options = RegisterOptions::new();
                if policy != MatchingPolicy::Strict {
                    options.pattern_match = policy
                }
                self.connection_info.registration_requests.insert(
                    request_id,
                    (complete, callback, procedure_pattern.duplicate()),
                );
                proof {
                    let before = old(self)@;
                    let after = self@;
                    assert(after =~= (Session {
                        register: before.register.insert(
                            request_id,
                            (after.register[request_id].0, callback, procedure_pattern),
                        ),
                        ..before.advanced()
                    }));
                    assert(!before.pending(request_id));
                    assert(before.occurrences(request_id) == 0);
                    lemma_one_more_pending(before, after);
                }
                let effect = self.send_message(
                    Message::Register(request_id, options, procedure_pattern),
                );
                Ok((future, effect))
            },
        }
    }

    /// Offers to serve one procedure, matched exactly.
    pub fn register(&mut self, procedure: URI, callback: RC) -> (r: WampResult<
        (Pending<Registration, V>, Effect<V, SC, RC>),
    >)
        requires
            old(self)@.wf(),
            old(self)@.last_request_id < u64::MAX,
        ensures
            final(self)@.wf(),
            old(self)@.state == ConnectionState::Connected ==> {
                &&& r matches Ok(issued)
                &&& old(self)@.registering(final(self)@, callback, procedure)
                &&& issued.1 == Effect::<V, SC, RC>::Send(
                    old(self)@.codec(),
                    Message::Register(
                        (old(self)@.last_request_id + 1) as ID,
                        RegisterOptions { pattern_match: MatchingPolicy::Strict },
                        procedure,
                    ),
                )
            },
            old(self)@.state != ConnectionState::Connected ==> {
                &&& r matches Err(e)
                &&& refusal(old(self)@.state, e.kind())
                &&& final(self)@ == old(self)@
            },
    {
        self.register_with_pattern(procedure, callback, MatchingPolicy::Strict)
    }

    /// Asks the router to end a subscription. The subscriber stays in place
    /// until the router confirms.
    pub fn unsubscribe(&mut self, subscription: Subscription) -> (r: WampResult<
        (Pending<(), V>, Effect<V, SC, RC>),
    >)
        requires
            old(self)@.wf(),
            old(self)@.last_request_id < u64::MAX,
        ensures
            final(self)@.wf(),
            old(self)@.state == ConnectionState::Connected ==> {
                &&& r matches Ok(issued)
                &&& old(self)@.unsubscribing(final(self)@, subscription.subscription_id)
                &&& issued.1 == Effect::<V, SC, RC>::Send(
                    old(self)@.codec(),
                    Message::Unsubscribe(
                        (old(self)@.last_request_id + 1) as ID,
                        subscription.subscription_id,
                    ),
                )
            },
            old(self)@.state != ConnectionState::Connected ==> {
                &&& r matches Err(e)
                &&& refusal(old(self)@.state, e.kind())
                &&& final(self)@ == old(self)@
            },
    {
        match self.connected() {
            Err(e) => Err(e),
            Ok(_) => {
                let request_id = self.get_next_session_id();
                let effect = self.send_message(
                    Message::Unsubscribe(request_id, subscription.subscription_id),
                );
                let (complete, future) = pair::<(), CallError<V>>();
                self.connection_info.unsubscription_requests.insert(
                    request_id,
                    (complete, subscription.subscription_id),
                );
                proof {
                    let before = old(self)@;
                    let after = self@;
                    assert(after =~= (Session {
                        unsubscribe: before.unsubscribe.insert(
                            request_id,
                            (after.unsubscribe[request_id].0, subscription.subscription_id),
                        ),
                        ..before.advanced()
                    }));
                    assert(!before.pending(request_id));
                    assert(before.occurrences(request_id) == 0);
                    lemma_one_more_pending(before, after);
                }
                Ok((future, effect))
            },
        }
    }

    /// Asks the router to end a registration. The callee stays in place
    /// until the router confirms.
    pub fn unregister(&mut self, registration: Registration) -> (r: WampResult<
        (Pending<(), V>, Effect<V, SC, RC>),
    >)
        requires
            old(self)@.wf(),
            old(self)@.last_request_id < u64::MAX,
        ensures
            final(self)@.wf(),
            old(self)@.state == ConnectionState::Connected ==> {
                &&& r matches Ok(issued)
                &&& old(self)@.unregistering(final(self)@, registration.registration_id)
                &&& issued.1 == Effect::<V, SC, RC>::Send(
                    old(self)@.codec(),
                    Message::Unregister(
                        (old(self)@.last_request_id + 1) as ID,
                        registration.registration_id,
                    ),
                )
            },
            old(self)@.state != ConnectionState::Connected ==> {
                &&& r matches Err(e)
                &&& refusal(old(self)@.state, e.kind())
                &&& final(self)@ == old(self)@
            },
    {
        match self.connected() {
            Err(e) => Err(e),
            Ok(_) => {
                let request_id = self.get_next_session_id();
                let effect = self.send_message(
                    Message::Unregister(request_id, registration.registration_id),
                );
                let (complete, future) = pair::<(), CallError<V>>();
                self.connection_info.unregistration_requests.insert(
                    request_id,
                    (complete, registration.registration_id),
                );
                proof {
                    let before = old(self)@;
                    let after = self@;
                    assert(after =~= (Session {
                        unregister: before.unregister.insert(
                            request_id,
                            (after.unregister[request_id].0, registration.registration_id),
                        ),
                        ..before.advanced()
                    }));
                    assert(!before.pending(request_id));
                    assert(before.occurrences(request_id) == 0);
                    lemma_one_more_pending(before, after);
                }
                Ok((future, effect))
            },
        }
    }

    /// Publishes to a topic without asking for a confirmation. The request
    /// takes an identifier and leaves nothing outstanding.
    pub fn publish(&mut self, topic: URI, args: Option<List<V>>, kwargs: Option<Dict<V>>) -> (r:
        WampResult<Effect<V, SC, RC>>)
        requires
            old(self)@.wf(),
            old(self)@.last_request_id < u64::MAX,
        ensures
            final(self)@.wf(),
            old(self)@.state == ConnectionState::Connected ==> {
                &&& r matches Ok(effect)
                &&& final(self)@ == old(self)@.advanced()
                &&& effect == Effect::<V, SC, RC>::Send(
                    old(self)@.codec(),
                    Message::Publish(
                        (old(self)@.last_request_id + 1) as ID,
                        PublishOptions { acknowledge: false },
                        topic,
                        args,
                        kwargs,
                    ),
                )
            },
            old(self)@.state != ConnectionState::Connected ==> {
                &&& r matches Err(e)
                &&& refusal(old(self)@.state, e.kind())
                &&& final(self)@ == old(self)@
            },
    {
        match self.connected() {
            Err(e) => Err(e),
            Ok(_) => {
                let request_id = self.get_next_session_id();
                proof {
                    let before = old(self)@;
                    let after = self@;
                    assert forall|id: ID| after.occurrences(id) == before.occurrences(id) by {}
                    assert(!before.pending(request_id));
                    lemma_one_more_pending(before, after);
                }
                Ok(
                    self.send_message(
                        Message::Publish(
                            request_id,
                            PublishOptions::new(false),
                            topic,
                            args,
                            kwargs,
                        ),
                    ),
                )
            },
        }
    }

    /// Calls a procedure.
    pub fn call(&mut self, procedure: URI, args: Option<List<V>>, kwargs: Option<Dict<V>>) -> (r:
        WampResult<(Pending<(List<V>, Dict<V>), V>, Effect<V, SC, RC>)>)
        requires
            old(self)@.wf(),
            old(self)@.last_request_id < u64::MAX,
        ensures
            final(self)@.wf(),
            old(self)@.state == ConnectionState::Connected ==> {
                &&& r matches Ok(issued)
                &&& old(self)@.calling(final(self)@)
                &&& issued.1 == Effect::<V, SC, RC>::Send(
                    old(self)@.codec(),
                    Message::Call(
                        (old(self)@.last_request_id + 1) as ID,
                        CallOptions {  },
                        procedure,
                        args,
                        kwargs,
                    ),
                )
            },
            old(self)@.state != ConnectionState::Connected ==> {
                &&& r matches Err(e)
                &&& refusal(old(self)@.state, e.kind())
                &&& final(self)@ == old(self)@
            },
    {
        match self.connected() {
            Err(e) => Err(e),
            Ok(_) => {
                let request_id = self.get_next_session_id();
                let (complete, future) = pair::<(List<V>, Dict<V>), CallError<V>>();
                self.connection_info.call_requests.insert(request_id, complete);
                proof {
                    let before = old(self)@;
                    let after = self@;
                    assert(after =~= (Session {
                        call: before.call.insert(request_id, after.call[request_id]),
                        ..before.advanced()
                    }));
                    assert(!before.pending(request_id));
                    assert(before.occurrences(request_id) == 0);
                    lemma_one_more_pending(before, after);
                }
                let effect = self.send_message(
                    Message::Call(request_id, CallOptions::new(), procedure, args, kwargs),
                );
                Ok((future, effect))
            },
        }
    }

    /// Publishes to a topic and asks the router to confirm.
    pub fn publish_and_acknowledge(
        &mut self,
        topic: URI,
        args: Option<List<V>>,
        kwargs: Option<Dict<V>>,
    ) -> (r: WampResult<(Pending<ID, V>, Effect<V, SC, RC>)>)
        requires
            old(self)@.wf(),
            old(self)@.last_request_id < u64::MAX,
        ensures
            final(self)@.wf(),
            old(self)@.state == ConnectionState::Connected ==> {
                &&& r matches Ok(issued)
                &&& old(self)@.publishing(final(self)@)
                &&& issued.1 == Effect::<V, SC, RC>::Send(
                    old(self)@.codec(),
                    Message::Publish(
                        (old(self)@.last_request_id + 1) as ID,
                        PublishOptions { acknowledge: true },
                        topic,
                        args,
                        kwargs,
                    ),
                )
            },
            old(self)@.state != ConnectionState::Connected ==> {
                &&& r matches Err(e)
                &&& refusal(old(self)@.state, e.kind())
                &&& final(self)@ == old(self)@
            },
    {
        match self.connected() {
            Err(e) => Err(e),
            Ok(_) => {
                let request_id = self.get_next_session_id();
                let (complete, future) = pair::<ID, CallError<V>>();
                self.connection_info.publish_requests.insert(request_id, complete);
                proof {
                    let before = old(self)@;
                    let after = self@;
                    assert(after =~= (Session {
                        publish: before.publish.insert(request_id, after.publish[request_id]),
                        ..before.advanced()
                    }));
                    assert(!before.pending(request_id));
                    assert(before.occurrences(request_id) == 0);
                    lemma_one_more_pending(before, after);
                }
                let effect = self.send_message(
                    Message::Publish(request_id, PublishOptions::new(true), topic, args, kwargs),
                );
                Ok((future, effect))
            },
        }
    }

    /// Says goodbye to the router. The future resolves when the router has
    /// answered in kind, or when the transport closes.
    pub fn shutdown(&mut self) -> (r: WampResult<(Pending<(), V>, Effect<V, SC, RC>)>)
        requires
            old(self)@.wf(),
        ensures
            final(self)@.wf(),
            old(self)@.state == ConnectionState::Connected ==> {
                &&& r matches Ok(issued)
                &&& old(self)@.leaving(final(self)@)
                &&& issued.1 == Effect::<V, SC, RC>::Send(
                    old(self)@.codec(),
                    Message::Goodbye(ErrorDetails { message: None }, Reason::SystemShutdown),
                )
            },
            old(self)@.state != ConnectionState::Connected ==> {
                &&& r matches Err(e)
                &&& e.kind() matches ErrorKind::InvalidState(text)
                &&& text@ == NOT_RUNNING@
                &&& final(self)@ == old(self)@
            },
    {
        match self.connection_info.connection_state {
            ConnectionState::Connected => {
                self.connection_info.connection_state = ConnectionState::ShuttingDown;
                let (complete, future) = pair::<(), CallError<V>>();
                self.connection_info.shutdown_complete = Some(complete);
                proof {
                    let before = old(self)@;
                    let after = self@;
                    assert(after =~= (Session {
                        state: ConnectionState::ShuttingDown,
                        shutdown: after.shutdown,
                        ..before
                    }));
                    assert forall|id: ID| after.occurrences(id) == before.occurrences(id) by {}
                    assert forall|id: ID| #[trigger] after.pending(id) implies before.pending(
                        id,
                    ) by {
                        assert(after.occurrences(id) == before.occurrences(id));
                    }
                }
                let effect = self.send_message(
                    Message::Goodbye(ErrorDetails::new(), Reason::SystemShutdown),
                );
                Ok((future, effect))
            },
            _ => Err(Error::new(ErrorKind::InvalidState(NOT_RUNNING))),
        }
    }
}

impl ConnectionHandler {
    /// The receiving side of a session in the given realm, which gives the
    /// peer `expire` milliseconds between frames. No inactivity timer is
    /// armed yet.
    pub fn new(realm: URI, expire: u64) -> (handler: ConnectionHandler)
        ensures
            handler.realm() == realm,
            handler.expire() == expire,
            handler.timer() is None,
    {
        ConnectionHandler { realm, expire, timeout: None }
    }

    /// Milliseconds of silence after which the peer counts as gone.
    pub closed spec fn expire(&self) -> u64 {
        self.expire
    }

    /// The realm the session asks to join.
    pub closed spec fn realm(&self) -> URI {
        self.realm
    }

    /// The inactivity timer that is armed at present.
    pub closed spec fn timer(&self) -> Option<Timeout> {
        self.timeout
    }

    fn handle_welcome<V: Send + 'static, SC, RC>(
        &self,
        client: &mut Client<V, SC, RC>,
        session_id: ID,
    ) -> (effects: Vec<Effect<V, SC, RC>>)
        requires
            old(client)@.wf(),
            old(client)@.state == ConnectionState::Connecting,
        ensures
            final(client)@.wf(),
            final(client)@ == (Session {
                state: ConnectionState::Connected,
                session_id,
                ..old(client)@
            }),
            effects@ =~= seq![Effect::<V, SC, RC>::Connected],
    {
        client.connection_info.session_id = session_id;
        client.connection_info.connection_state = ConnectionState::Connected;
        proof {
            assert(client@ =~= (Session {
                state: ConnectionState::Connected,
                session_id,
                ..old(client)@
            }));
            lemma_fewer_pending(old(client)@, client@);
        }
        vec![Effect::Connected]
    }

    fn handle_subscribed<V: Send + 'static, SC, RC>(
        &self,
        client: &mut Client<V, SC, RC>,
        request_id: ID,
        subscription_id: ID,
    ) -> (effects: Vec<Effect<V, SC, RC>>)
        requires
            old(client)@.wf(),
        ensures
            final(client)@.wf(),
            final(client)@ == old(client)@.subscribed(request_id, subscription_id),
            Session::<V, SC, RC>::settles_if(
                old(client)@.subscribe.contains_key(request_id),
                Settlement::Subscribe(
                    request_id,
                    old(client)@.subscribe[request_id].0,
                    Ok(
                        Subscription {
                            topic: old(client)@.subscribe[request_id].2,
                            subscription_id,
                        },
                    ),
                ),
                effects@,
            ),
    {
        let taken = client.connection_info.subscription_requests.remove(&request_id);
        let effects = match taken {
            Some((promise, callback, topic)) => {
                let subscription = Subscription { topic, subscription_id };
                client.connection_info.subscriptions.insert(subscription_id, callback);
                vec![Effect::Settle(Settlement::Subscribe(request_id, promise, Ok(subscription)))]
            },
            None => Vec::new(),
        };
        proof {
            assert(client@ =~= old(client)@.subscribed(request_id, subscription_id));
            lemma_fewer_pending(old(client)@, client@);
        }
        effects
    }

    fn handle_subscribe_error<V: Send + 'static, SC, RC>(
        &self,
        client: &mut Client<V, SC, RC>,
        request_id: ID,
        reason: Reason,
        args: Option<List<V>>,
        kwargs: Option<Dict<V>>,
    ) -> (effects: Vec<Effect<V, SC, RC>>)
        requires
            old(client)@.wf(),
        ensures
            final(client)@.wf(),
            final(client)@ == old(client)@.answered(ErrorType::Subscribe, request_id),
            old(client)@.fails(
                ErrorType::Subscribe,
                request_id,
                CallError { reason, args, kwargs },
                effects@,
            ),
    {
        let taken = client.connection_info.subscription_requests.remove(&request_id);
        let effects = match taken {
            Some((promise, _, _)) => {
                let error = CallError::new(reason, args, kwargs);
                vec![Effect::Settle(Settlement::Subscribe(request_id, promise, Err(error)))]
            },
            None => Vec::new(),
        };
        proof {
            assert(client@ =~= old(client)@.answered(ErrorType::Subscribe, request_id));
            lemma_fewer_pending(old(client)@, client@);
        }
        effects
    }

    fn handle_unsubscribed<V: Send + 'static, SC, RC>(
        &self,
        client: &mut Client<V, SC, RC>,
        request_id: ID,
    ) -> (effects: Vec<Effect<V, SC, RC>>)
        requires
            old(client)@.wf(),
        ensures
            final(client)@.wf(),
            final(client)@ == old(client)@.unsubscribed(request_id),
            Session::<V, SC, RC>::settles_if(
                old(client)@.unsubscribe.contains_key(request_id),
                Settlement::Unsubscribe(request_id, old(client)@.unsubscribe[request_id].0, Ok(())),
                effects@,
            ),
    {
        let taken = client.connection_info.unsubscription_requests.remove(&request_id);
        let effects = match taken {
            Some((promise, subscription_id)) => {
                client.connection_info.subscriptions.remove(&subscription_id);
                vec![Effect::Settle(Settlement::Unsubscribe(request_id, promise, Ok(())))]
            },
            None => Vec::new(),
        };
        proof {
            assert(client@ =~= old(client)@.unsubscribed(request_id));
            lemma_fewer_pending(old(client)@, client@);
        }
        effects
    }

    fn handle_unsubscribe_error<V: Send + 'static, SC, RC>(
        &self,
        client: &mut Client<V, SC, RC>,
        request_id: ID,
        reason: Reason,
        args: Option<List<V>>,
        kwargs: Option<Dict<V>>,
    ) -> (effects: Vec<Effect<V, SC, RC>>)
        requires
            old(client)@.wf(),
        ensures
            final(client)@.wf(),
            final(client)@ == old(client)@.answered(ErrorType::Unsubscribe, request_id),
            old(client)@.fails(
                ErrorType::Unsubscribe,
                request_id,
                CallError { reason, args, kwargs },
                effects@,
            ),
    {
        let taken = client.connection_info.unsubscription_requests.remove(&request_id);
        let effects = match taken {
            Some((promise, _)) => {
                let error = CallError::new(reason, args, kwargs);
                vec![Effect::Settle(Settlement::Unsubscribe(request_id, promise, Err(error)))]
            },
            None => Vec::new(),
        };
        proof {
            assert(client@ =~= old(client)@.answered(ErrorType::Unsubscribe, request_id));
            lemma_fewer_pending(old(client)@, client@);
        }
        effects
    }

    fn handle_registered<V: Send + 'static, SC, RC>(
        &self,
        client: &mut Client<V, SC, RC>,
        request_id: ID,
        registration_id: ID,
    ) -> (effects: Vec<Effect<V, SC, RC>>)
        requires
            old(client)@.wf(),
        ensures
            final(client)@.wf(),
            final(client)@ == old(client)@.registered(request_id, registration_id),
            Session::<V, SC, RC>::settles_if(
                old(client)@.register.contains_key(request_id),
                Settlement::Register(
                    request_id,
                    old(client)@.register[request_id].0,
                    Ok(
                        Registration {
                            procedure: old(client)@.register[request_id].2,
                            registration_id,
                        },
                    ),
                ),
                effects@,
            ),
    {
        let taken = client.connection_info.registration_requests.remove(&request_id);
        let effects = match taken {
            Some((promise, callback, procedure)) => {
                client.connection_info.registrations.insert(registration_id, callback);
                let registration = Registration { procedure, registration_id };
                vec![Effect::Settle(Settlement::Register(request_id, promise, Ok(registration)))]
            },
            None => Vec::new(),
        };
        proof {
            assert(client@ =~= old(client)@.registered(request_id, registration_id));
            lemma_fewer_pending(old(client)@, client@);
        }
        effects
    }

    fn handle_register_error<V: Send + 'static, SC, RC>(
        &self,
        client: &mut Client<V, SC, RC>,
        request_id: ID,
        reason: Reason,
        args: Option<List<V>>,
        kwargs: Option<Dict<V>>,
    ) -> (effects: Vec<Effect<V, SC, RC>>)
        requires
            old(client)@.wf(),
        ensures
            final(client)@.wf(),
            final(client)@ == old(client)@.answered(ErrorType::Register, request_id),
            old(client)@.fails(
                ErrorType::Register,
                request_id,
                CallError { reason, args, kwargs },
                effects@,
            ),
    {
        let taken = client.connection_info.registration_requests.remove(&request_id);
        let effects = match taken {
            Some((promise, _, _)) => {
                let error = CallError::new(reason, args, kwargs);
                vec![Effect::Settle(Settlement::Register(request_id, promise, Err(error)))]
            },
            None => Vec::new(),
        };
        proof {
            assert(client@ =~= old(client)@.answered(ErrorType::Register, request_id));
            lemma_fewer_pending(old(client)@, client@);
        }
        effects
    }

    fn handle_unregistered<V: Send + 'static, SC, RC>(
        &self,
        client: &mut Client<V, SC, RC>,
        request_id: ID,
    ) -> (effects: Vec<Effect<V, SC, RC>>)
        requires
            old(client)@.wf(),
        ensures
            final(client)@.wf(),
            final(client)@ == old(client)@.unregistered(request_id),
            Session::<V, SC, RC>::settles_if(
                old(client)@.unregister.contains_key(request_id),
                Settlement::Unregister(request_id, old(client)@.unregister[request_id].0, Ok(())),
                effects@,
            ),
    {
        let taken = client.connection_info.unregistration_requests.remove(&request_id);
        let effects = match taken {
            Some((promise, registration_id)) => {
                client.connection_info.registrations.remove(&registration_id);
                vec![Effect::Settle(Settlement::Unregister(request_id, promise, Ok(())))]
            },
            None => Vec::new(),
        };
        proof {
            assert(client@ =~= old(client)@.unregistered(request_id));
            lemma_fewer_pending(old(client)@, client@);
        }
        effects
    }

    fn handle_unregister_error<V: Send + 'static, SC, RC>(
        &self,
        client: &mut Client<V, SC, RC>,
        request_id: ID,
        reason: Reason,
        args: Option<List<V>>,
        kwargs: Option<Dict<V>>,
    ) -> (effects: Vec<Effect<V, SC, RC>>)
        requires
            old(client)@.wf(),
        ensures
            final(client)@.wf(),
            final(client)@ == old(client)@.answered(ErrorType::Unregister, request_id),
            old(client)@.fails(
                ErrorType::Unregister,
                request_id,
                CallError { reason, args, kwargs },
                effects@,
            ),
    {
        let taken = client.connection_info.unregistration_requests.remove(&request_id);
        let effects = match taken {
            Some((promise, _)) => {
                let error = CallError::new(reason, args, kwargs);
                vec![Effect::Settle(Settlement::Unregister(request_id, promise, Err(error)))]
            },
            None => Vec::new(),
        };
        proof {
            assert(client@ =~= old(client)@.answered(ErrorType::Unregister, request_id));
            lemma_fewer_pending(old(client)@, client@);
        }
        effects
    }

    fn handle_published<V: Send + 'static, SC, RC>(
        &self,
        client: &mut Client<V, SC, RC>,
        request_id: ID,
        publication_id: ID,
    ) -> (effects: Vec<Effect<V, SC, RC>>)
        requires
            old(client)@.wf(),
        ensures
            final(client)@.wf(),
            final(client)@ == old(client)@.answered(ErrorType::Publish, request_id),
            Session::<V, SC, RC>::settles_if(
                old(client)@.publish.contains_key(request_id),
                Settlement::Publish(request_id, old(client)@.publish[request_id], Ok(publication_id)),
                effects@,
            ),
    {
        let taken = client.connection_info.publish_requests.remove(&request_id);
        let effects = match taken {
            Some(promise) => {
                vec![Effect::Settle(Settlement::Publish(request_id, promise, Ok(publication_id)))]
            },
            None => Vec::new(),
        };
        proof {
            assert(client@ =~= old(client)@.answered(ErrorType::Publish, request_id));
            lemma_fewer_pending(old(client)@, client@);
        }
        effects
    }

    fn handle_publish_error<V: Send + 'static, SC, RC>(
        &self,
        client: &mut Client<V, SC, RC>,
        request_id: ID,
        reason: Reason,
        args: Option<List<V>>,
        kwargs: Option<Dict<V>>,
    ) -> (effects: Vec<Effect<V, SC, RC>>)
        requires
            old(client)@.wf(),
        ensures
            final(client)@.wf(),
            final(client)@ == old(client)@.answered(ErrorType::Publish, request_id),
            old(client)@.fails(
                ErrorType::Publish,
                request_id,
                CallError { reason, args, kwargs },
                effects@,
            ),
    {
        let taken = client.connection_info.publish_requests.remove(&request_id);
        let effects = match taken {
            Some(promise) => {
                let error = CallError::new(reason, args, kwargs);
                vec![Effect::Settle(Settlement::Publish(request_id, promise, Err(error)))]
            },
            None => Vec::new(),
        };
        proof {
            assert(client@ =~= old(client)@.answered(ErrorType::Publish, request_id));
            lemma_fewer_pending(old(client)@, client@);
        }
        effects
    }

    fn handle_result<V: Send + 'static, SC, RC>(
        &self,
        client: &mut Client<V, SC, RC>,
        call_id: ID,
        args: Option<List<V>>,
        kwargs: Option<Dict<V>>,
    ) -> (effects: Vec<Effect<V, SC, RC>>)
        requires
            old(client)@.wf(),
        ensures
            final(client)@.wf(),
            final(client)@ == old(client)@.answered(ErrorType::Call, call_id),
            old(client)@.delivers(call_id, args, kwargs, effects@),
    {
        let list = positional(args);
        let dict = keyword(kwargs);
        let taken = client.connection_info.call_requests.remove(&call_id);
        let effects = match taken {
            Some(promise) => {
                vec![Effect::Settle(Settlement::Call(call_id, promise, Ok((list, dict))))]
            },
            None => Vec::new(),
        };
        proof {
            assert(client@ =~= old(client)@.answered(ErrorType::Call, call_id));
            lemma_fewer_pending(old(client)@, client@);
        }
        effects
    }

    fn handle_call_error<V: Send + 'static, SC, RC>(
        &self,
        client: &mut Client<V, SC, RC>,
        request_id: ID,
        reason: Reason,
        args: Option<List<V>>,
        kwargs: Option<Dict<V>>,
    ) -> (effects: Vec<Effect<V, SC, RC>>)
        requires
            old(client)@.wf(),
        ensures
            final(client)@.wf(),
            final(client)@ == old(client)@.answered(ErrorType::Call, request_id),
            old(client)@.fails(
                ErrorType::Call,
                request_id,
                CallError { reason, args, kwargs },
                effects@,
            ),
    {
        let taken = client.connection_info.call_requests.remove(&request_id);
        let effects = match taken {
            Some(promise) => {
                let error = CallError::new(reason, args, kwargs);
                vec![Effect::Settle(Settlement::Call(request_id, promise, Err(error)))]
            },
            None => Vec::new(),
        };
        proof {
            assert(client@ =~= old(client)@.answered(ErrorType::Call, request_id));
            lemma_fewer_pending(old(client)@, client@);
        }
        effects
    }

    fn handle_error<V: Send + 'static, SC, RC>(
        &self,
        client: &mut Client<V, SC, RC>,
        e_type: ErrorType,
        request_id: ID,
        reason: Reason,
        args: Option<List<V>>,
        kwargs: Option<Dict<V>>,
    ) -> (effects: Vec<Effect<V, SC, RC>>)
        requires
            old(client)@.wf(),
        ensures
            final(client)@.wf(),
            final(client)@ == old(client)@.answered(e_type, request_id),
            old(client)@.fails(e_type, request_id, CallError { reason, args, kwargs }, effects@),
    {
        match e_type {
            ErrorType::Subscribe => self.handle_subscribe_error(
                client,
                request_id,
                reason,
                args,
                kwargs,
            ),
            ErrorType::Unsubscribe => self.handle_unsubscribe_error(
                client,
                request_id,
                reason,
                args,
                kwargs,
            ),
            ErrorType::Publish => self.handle_publish_error(
                client,
                request_id,
                reason,
                args,
                kwargs,
            ),
            ErrorType::Register => self.handle_register_error(
                client,
                request_id,
                reason,
                args,
                kwargs,
            ),
            ErrorType::Unregister => self.handle_unregister_error(
                client,
                request_id,
                reason,
                args,
                kwargs,
            ),
            ErrorType::Invocation => Vec::new(),
            ErrorType::Call => self.handle_call_error(client, request_id, reason, args, kwargs),
        }
    }

    fn handle_event<V: Send + 'static, SC: Clone, RC: Clone>(
        &self,
        client: &Client<V, SC, RC>,
        subscription_id: ID,
        args: Option<List<V>>,
        kwargs: Option<Dict<V>>,
    ) -> (effects: Vec<Effect<V, SC, RC>>)
        ensures
            client@.notifies(subscription_id, args, kwargs, effects@),
    {
        let list = positional(args);
        let dict = keyword(kwargs);
        match client.connection_info.subscriptions.get(&subscription_id) {
            Some(subscription) => {
                let callback = subscription.clone();
                vec![Effect::Event(callback, list, dict)]
            },
            None => Vec::new(),
        }
    }

    fn handle_invocation<V: Send + 'static, SC: Clone, RC: Clone>(
        &self,
        client: &Client<V, SC, RC>,
        request_id: ID,
        registration_id: ID,
        args: Option<List<V>>,
        kwargs: Option<Dict<V>>,
    ) -> (effects: Vec<Effect<V, SC, RC>>)
        ensures
            client@.invokes(request_id, registration_id, args, kwargs, effects@),
    {
        let list = positional(args);
        let dict = keyword(kwargs);
        match client.connection_info.registrations.get(&registration_id) {
            Some(registration) => {
                let callback = registration.clone();
                vec![Effect::Invocation(callback, request_id, list, dict)]
            },
            None => Vec::new(),
        }
    }

    fn handle_goodbye<V: Send + 'static, SC, RC>(
        &self,
        client: &mut Client<V, SC, RC>,
    ) -> (effects: Vec<Effect<V, SC, RC>>)
        requires
            old(client)@.wf(),
            old(client)@.state == ConnectionState::Connected,
        ensures
            final(client)@.wf(),
            final(client)@ == (Session { state: ConnectionState::ShuttingDown, ..old(client)@ }),
            effects@ =~= seq![
                Effect::<V, SC, RC>::Send(
                    old(client)@.codec(),
                    Message::Goodbye(ErrorDetails { message: None }, Reason::GoodbyeAndOut),
                ),
            ],
    {
        let reply = client.send_message(
            Message::Goodbye(ErrorDetails::new(), Reason::GoodbyeAndOut),
        );
        client.connection_info.connection_state = ConnectionState::ShuttingDown;
        proof {
            assert(client@ =~= (Session { state: ConnectionState::ShuttingDown, ..old(client)@ }));
            lemma_fewer_pending(old(client)@, client@);
        }
        vec![reply]
    }
}

impl ConnectionHandler {
    /// Decides what an inbound message does to the session, by the state
    /// the session is in and then by the kind of the message. A message
    /// that the state does not allow, or that answers no outstanding
    /// request, is dropped.
    pub fn handle_message<V: Send + 'static, SC: Clone, RC: Clone>(
        &self,
        client: &mut Client<V, SC, RC>,
        message: Message<V>,
    ) -> (effects: Vec<Effect<V, SC, RC>>)
        requires
            old(client)@.wf(),
        ensures
            final(client)@.wf(),
            final(client)@ == old(client)@.next(message),
            old(client)@.reacts(message, effects@),
    {
        match client.connection_info.connection_state {
            ConnectionState::Connecting => match message {
                Message::Welcome(session_id, _) => self.handle_welcome(client, session_id),
                _ => Vec::new(),
            },
            ConnectionState::Connected => match message {
                Message::Subscribed(request_id, subscription_id) => self.handle_subscribed(
                    client,
                    request_id,
                    subscription_id,
                ),
                Message::Unsubscribed(request_id) => self.handle_unsubscribed(client, request_id),
                Message::Event(subscription_id, _, _, args, kwargs) => self.handle_event(
                    client,
                    subscription_id,
                    args,
                    kwargs,
                ),
                Message::Published(request_id, publication_id) => self.handle_published(
                    client,
                    request_id,
                    publication_id,
                ),
                Message::Registered(request_id, registration_id) => self.handle_registered(
                    client,
                    request_id,
                    registration_id,
                ),
                Message::Unregistered(request_id) => self.handle_unregistered(client, request_id),
                Message::Invocation(
                    request_id,
                    registration_id,
                    _,
                    args,
                    kwargs,
                ) => self.handle_invocation(client, request_id, registration_id, args, kwargs),
                Message::Result(call_id, _, args, kwargs) => self.handle_result(
                    client,
                    call_id,
                    args,
                    kwargs,
                ),
                Message::Error(e_type, request_id, _, reason, args, kwargs) => self.handle_error(
                    client,
                    e_type,
                    request_id,
                    reason,
                    args,
                    kwargs,
                ),
                Message::Goodbye(_, _) => self.handle_goodbye(client),
                _ => Vec::new(),
            },
            ConnectionState::ShuttingDown => match message {
                Message::Goodbye(_, _) => client.tear_down(Vec::new(), Vec::new()),
                _ => Vec::new(),
            },
            ConnectionState::Disconnected => Vec::new(),
        }
    }

    /// Takes what the codec made of an inbound frame. A frame that did not
    /// decode is dropped and leaves the session as it was; a message is
    /// dispatched.
    pub fn on_message<V: Send + 'static, SC: Clone, RC: Clone>(
        &self,
        client: &mut Client<V, SC, RC>,
        decoded: WampResult<Message<V>>,
    ) -> (effects: Vec<Effect<V, SC, RC>>)
        requires
            old(client)@.wf(),
        ensures
            final(client)@.wf(),
            match decoded {
                Ok(message) => final(client)@ == old(client)@.next(message) && old(
                    client,
                )@.reacts(message, effects@),
                Err(_) => final(client)@ == old(client)@ && effects@.len() == 0,
            },
    {
        match decoded {
            Ok(message) => self.handle_message(client, message),
            Err(_) => Vec::new(),
        }
    }

    /// The transport has closed, for whatever reason: the session ends.
    /// The transport is asked to close and, after every outstanding request
    /// has been failed, torn down.
    pub fn on_close<V: Send + 'static, SC, RC>(&self, client: &mut Client<V, SC, RC>) -> (effects:
        Vec<Effect<V, SC, RC>>)
        requires
            old(client)@.wf(),
        ensures
            final(client)@.wf(),
            final(client)@ == old(client)@.drained(),
            old(client)@.tears_down(
                effects@,
                seq![Effect::<V, SC, RC>::Close(CloseCode::Normal)],
                seq![Effect::<V, SC, RC>::Shutdown],
            ),
    {
        let head = vec![Effect::Close(CloseCode::Normal)];
        let mid = vec![Effect::Shutdown];
        proof {
            assert(head@ =~= seq![Effect::<V, SC, RC>::Close(CloseCode::Normal)]);
            assert(mid@ =~= seq![Effect::<V, SC, RC>::Shutdown]);
        }
        client.tear_down(head, mid)
    }

    /// A timer has fired.
    pub fn on_timeout<V: Send + 'static, SC, RC>(
        &self,
        client: &mut Client<V, SC, RC>,
        token: usize,
    ) -> (effects: Vec<Effect<V, SC, RC>>)
        requires
            old(client)@.wf(),
        ensures
            final(client)@.wf(),
            final(client)@ == old(client)@.expired(token),
            old(client)@.expires(token, effects@),
    {
        if token == CONNECTION_TIMEOUT {
            match client.connection_info.connection_state {
                ConnectionState::Connecting => {
                    let head = vec![Effect::Shutdown, Effect::TimedOut];
                    proof {
                        assert(head@ =~= seq![
                            Effect::<V, SC, RC>::Shutdown,
                            Effect::<V, SC, RC>::TimedOut,
                        ]);
                    }
                    client.tear_down(head, Vec::new())
                },
                _ => Vec::new(),
            }
        } else if token == EXPIRE_TIMEOUT {
            let head = vec![Effect::Close(CloseCode::Away)];
            proof {
                assert(head@ =~= seq![Effect::<V, SC, RC>::Close(CloseCode::Away)]);
            }
            client.tear_down(head, Vec::new())
        } else {
            Vec::new()
        }
    }

    /// A timer has been armed. Of the inactivity timers only the newest
    /// stays armed: the one it replaces is handed back to be cancelled.
    /// Any other timer is none of this handler's business.
    pub fn on_new_timeout(&mut self, token: usize, timeout: Timeout) -> (stale: Option<Timeout>)
        ensures
            token == EXPIRE_TIMEOUT ==> stale == old(self).timer() && final(self).timer() == Some(
                timeout,
            ),
            token != EXPIRE_TIMEOUT ==> stale is None && final(self).timer() == old(self).timer(),
            final(self).realm() == old(self).realm(),
            final(self).expire() == old(self).expire(),
    {
        if token == EXPIRE_TIMEOUT {
            let stale = self.timeout.take();
            self.timeout = Some(timeout);
            stale
        } else {
            None
        }
    }

    /// A frame has arrived: the peer is alive, so the inactivity deadline
    /// starts anew.
    pub fn on_frame<V: Send + 'static, SC, RC>(&self) -> (effect: Effect<V, SC, RC>)
        ensures
            effect == Effect::<V, SC, RC>::Timeout(self.expire(), EXPIRE_TIMEOUT),
    {
        Effect::Timeout(self.expire, EXPIRE_TIMEOUT)
    }

    /// Turns what a callee handed back into the reply to its invocation.
    pub fn handle_verdict<V: Send + 'static, SC, RC>(
        &self,
        client: &Client<V, SC, RC>,
        request_id: ID,
        verdict: CallResult<(Option<List<V>>, Option<Dict<V>>), V>,
    ) -> (effect: Effect<V, SC, RC>)
        ensures
            effect matches Effect::Send(codec, reply) && codec == client@.codec()
                && answers_invocation(request_id, verdict, reply),
    {
        let message = match verdict {
            Ok((rargs, rkwargs)) => Message::Yield(request_id, YieldOptions::new(), rargs, rkwargs),
            Err(error) => {
                let (reason, args, kwargs) = error.to_tuple();
                Message::Error(
                    ErrorType::Invocation,
                    request_id,
                    HashMap::new(),
                    reason,
                    args,
                    kwargs,
                )
            },
        };
        client.send_message(message)
    }

    /// Records the subprotocol the server settled on and greets the router.
    pub fn open_with<V: Send + 'static, SC, RC>(
        &self,
        client: &mut Client<V, SC, RC>,
        selected: Option<String>,
    ) -> (effect: Effect<V, SC, RC>)
        requires
            old(client)@.wf(),
        ensures
            final(client)@.wf(),
            final(client)@ == old(client)@.opened(name_of(selected)),
            effect == Effect::<V, SC, RC>::Send(
                final(client)@.codec(),
                Message::Hello(
                    self.realm(),
                    HelloDetails {
                        roles: ClientRoles {
                            publisher: true,
                            subscriber: true,
                            caller: true,
                            callee: true,
                        },
                    },
                ),
            ),
    {
        client.connection_info.protocol = match selected {
            Some(protocol) => protocol,
            None => WAMP_JSON.to_owned(),
        };
        proof {
            assert(client@ =~= old(client)@.opened(name_of(selected)));
            lemma_fewer_pending(old(client)@, client@);
        }
        let hello_message = Message::Hello(
            self.realm.duplicate(),
            HelloDetails::new(ClientRoles::new()),
        );
        client.send_message(hello_message)
    }

    /// The transport has opened. Reads the server's choice of subprotocol
    /// from its response and goes on as [`Self::open_with`] says; where the
    /// response cannot be read, the session stays as it was and the error
    /// of the transport comes back.
    pub fn on_open<V: Send + 'static, SC, RC>(
        &self,
        client: &mut Client<V, SC, RC>,
        response: &Response,
    ) -> (opened: Result<Effect<V, SC, RC>, WSError>)
        requires
            old(client)@.wf(),
        ensures
            final(client)@.wf(),
            opened is Ok <==> selected_protocol(*response) is Some,
            opened is Err ==> final(client)@ == old(client)@,
            opened matches Ok(effect) ==> {
                &&& final(client)@ == old(client)@.opened(selected_protocol(*response).unwrap())
                &&& effect == Effect::<V, SC, RC>::Send(
                    final(client)@.codec(),
                    Message::Hello(
                        self.realm(),
                        HelloDetails {
                            roles: ClientRoles {
                                publisher: true,
                                subscriber: true,
                                caller: true,
                                callee: true,
                            },
                        },
                    ),
                )
            },
    {
        match accepted_protocol(response) {
            Ok(selected) => Ok(self.open_with(client, selected)),
            Err(e) => Err(e),
        }
    }

    /// Builds the upgrade request for an address. It succeeds exactly where
    /// the transport can make a request for the address, and the request
    /// then offers the two subprotocols in the order of preference:
    /// MessagePack, then JSON.
    pub fn build_request(&self, url: &Url) -> (built: Result<Request, WSError>)
        ensures
            built is Ok <==> can_request(*url),
            built matches Ok(request) ==> offered_protocols(request) == Some(
                seq![WAMP_MSGPACK@, WAMP_JSON@],
            ),
    {
        let built = self.offer_protocols(request_from_url(url));
        proof {
            assert(Seq::<Seq<char>>::empty().push(WAMP_MSGPACK@).push(WAMP_JSON@) =~= seq![
                WAMP_MSGPACK@,
                WAMP_JSON@,
            ]);
        }
        built
    }

    /// Takes what the transport made of an address. A request gets the two
    /// subprotocols added to whatever it offers already, MessagePack before
    /// JSON; an error is passed on as it is.
    pub fn offer_protocols(&self, made: Result<Request, WSError>) -> (built: Result<
        Request,
        WSError,
    >)
        ensures
            made matches Err(e) ==> built == Err::<Request, WSError>(e),
            made matches Ok(request) ==> {
                &&& built matches Ok(offering)
                &&& offered_protocols(request) matches Some(offers) ==> offered_protocols(offering)
                    == Some(offers.push(WAMP_MSGPACK@).push(WAMP_JSON@))
            },
    {
        match made {
            Ok(request) => {
                let mut request = request;
                proof {
                    lemma_names_are_tokens();
                }
                add_protocol(&mut request, WAMP_MSGPACK);
                add_protocol(&mut request, WAMP_JSON);
                Ok(request)
            },
            Err(e) => Err(e),
        }
    }
}

impl<V: Send + 'static, SC, RC> Client<V, SC, RC> {
    /// Takes every outstanding request out of its table and fails it with a
    /// network failure.
    fn fail_pending(&mut self) -> (failures: Vec<Effect<V, SC, RC>>)
        requires
            old(self)@.wf(),
        ensures
            old(self)@.drains(failures@),
            final(self)@ == (Session {
                subscribe: Map::empty(),
                unsubscribe: Map::empty(),
                register: Map::empty(),
                unregister: Map::empty(),
                call: Map::empty(),
                publish: Map::empty(),
                ..old(self)@
            }),
    {
        let ghost session = self@;
        let mut failures: Vec<Effect<V, SC, RC>> = Vec::new();
        let ghost none = Set::<ID>::empty();
        let ghost first = none.union(session.subscribe.dom());
        let ghost second = first.union(session.unsubscribe.dom());
        let ghost third = second.union(session.register.dom());
        let ghost fourth = third.union(session.unregister.dom());
        let ghost fifth = fourth.union(session.publish.dom());
        let ghost sixth = fifth.union(session.call.dom());
        proof {
            assert forall|id: ID| #[trigger] session.subscribe.contains_key(id) implies session.pending(
                id,
            ) by {
                assert(session.occurrences(id) <= 1);
            }
            assert forall|id: ID| #[trigger]
                session.unsubscribe.contains_key(id) implies session.pending(id)
                && !first.contains(id) by {
                assert(session.occurrences(id) <= 1);
            }
            assert forall|id: ID| #[trigger]
                session.register.contains_key(id) implies session.pending(id) && !second.contains(
                id,
            ) by {
                assert(session.occurrences(id) <= 1);
            }
            assert forall|id: ID| #[trigger]
                session.unregister.contains_key(id) implies session.pending(id) && !third.contains(
                id,
            ) by {
                assert(session.occurrences(id) <= 1);
            }
            assert forall|id: ID| #[trigger]
                session.publish.contains_key(id) implies session.pending(id) && !fourth.contains(
                id,
            ) by {
                assert(session.occurrences(id) <= 1);
            }
            assert forall|id: ID| #[trigger] session.call.contains_key(id) implies session.pending(
                id,
            ) && !fifth.contains(id) by {
                assert(session.occurrences(id) <= 1);
            }
        }
        fail_table(
            &mut self.connection_info.subscription_requests,
            &mut failures,
            fail_subscription,
            Ghost(session),
            Ghost(none),
        );
        fail_table(
            &mut self.connection_info.unsubscription_requests,
            &mut failures,
            fail_unsubscription,
            Ghost(session),
            Ghost(first),
        );
        fail_table(
            &mut self.connection_info.registration_requests,
            &mut failures,
            fail_registration,
            Ghost(session),
            Ghost(second),
        );
        fail_table(
            &mut self.connection_info.unregistration_requests,
            &mut failures,
            fail_unregistration,
            Ghost(session),
            Ghost(third),
        );
        fail_table(
            &mut self.connection_info.publish_requests,
            &mut failures,
            fail_publication,
            Ghost(session),
            Ghost(fourth),
        );
        fail_table(
            &mut self.connection_info.call_requests,
            &mut failures,
            fail_call,
            Ghost(session),
            Ghost(fifth),
        );
        proof {
            assert(session.drains_partly(failures@, sixth));
            assert forall|id: ID| #[trigger] session.pending(id) implies sixth.contains(id) by {
                assert(session.occurrences(id) > 0);
            }
            assert(self@ =~= (Session {
                subscribe: Map::empty(),
                unsubscribe: Map::empty(),
                register: Map::empty(),
                unregister: Map::empty(),
                call: Map::empty(),
                publish: Map::empty(),
                ..session
            }));
        }
        failures
    }

    /// Ends the session: every outstanding request is failed, the shutdown
    /// sink is fulfilled if one is held, and `head` and `mid` are placed
    /// before and after the failures.
    fn tear_down(&mut self, head: Vec<Effect<V, SC, RC>>, mid: Vec<Effect<V, SC, RC>>) -> (effects:
        Vec<Effect<V, SC, RC>>)
        requires
            old(self)@.wf(),
        ensures
            final(self)@.wf(),
            final(self)@ == old(self)@.drained(),
            old(self)@.tears_down(effects@, head@, mid@),
    {
        let ghost session = self@;
        let mut effects = head;
        let mut failures = self.fail_pending();
        let mut rest = mid;
        let ghost drained = failures@;
        effects.append(&mut failures);
        effects.append(&mut rest);
        self.connection_info.connection_state = ConnectionState::Disconnected;
        match self.connection_info.shutdown_complete.take() {
            Some(promise) => {
                effects.push(Effect::Settle(Settlement::Shutdown(promise)));
            },
            None => {},
        }
        proof {
            let n = drained.len() as int;
            let h = head@.len() as int;
            let m = mid@.len() as int;
            assert(effects@ =~= head@ + drained + mid@ + session.shutdown_effects());
            assert(effects@.subrange(0, h) =~= head@);
            assert(effects@.subrange(h, h + n) =~= drained);
            assert(effects@.subrange(h + n, h + n + m) =~= mid@);
            assert(effects@.subrange(h + n + m, effects@.len() as int)
                =~= session.shutdown_effects());
            assert(self@ =~= session.drained());
            assert forall|id: ID| self@.occurrences(id) == 0 by {}
        }
        effects
    }
}

/// Fails every request of one table with a network failure, adding the
/// failures to those already collected.
fn fail_table<T, V: Send + 'static, SC, RC, F: Fn(ID, T) -> Effect<V, SC, RC>>(
    table: &mut HashMap<ID, T>,
    failures: &mut Vec<Effect<V, SC, RC>>,
    make: F,
    Ghost(session): Ghost<Session<V, SC, RC>>,
    Ghost(done): Ghost<Set<ID>>,
)
    requires
        forall|id: ID, entry: T| call_requires(make, (id, entry)),
        forall|id: ID, entry: T, failure: Effect<V, SC, RC>|
            old(table)@.contains_key(id) && old(table)@[id] == entry && #[trigger] call_ensures(
                make,
                (id, entry),
                failure,
            ) ==> failure == Effect::<V, SC, RC>::Settle(session.network_failure_of(id)),
        forall|id: ID|
            old(table)@.contains_key(id) ==> #[trigger] session.pending(id) && !done.contains(id),
        session.drains_partly(old(failures)@, done),
    ensures
        final(table)@ == Map::<ID, T>::empty(),
        session.drains_partly(final(failures)@, done.union(old(table)@.dom())),
{
    let mut entries = take_all(table);
    let ghost all = entries@;
    let ghost mut done_now = done;
    while entries.len() > 0
        invariant
            entries@ == all.take(entries.len() as int),
            entries.len() <= all.len(),
            forall|id: ID, entry: T| call_requires(make, (id, entry)),
            forall|id: ID, entry: T, failure: Effect<V, SC, RC>|
                old(table)@.contains_key(id) && old(table)@[id] == entry && #[trigger] call_ensures(
                    make,
                    (id, entry),
                    failure,
                ) ==> failure == Effect::<V, SC, RC>::Settle(session.network_failure_of(id)),
            forall|id: ID|
                old(table)@.contains_key(id) ==> #[trigger] session.pending(id) && !done.contains(
                    id,
                ),
            forall|i: int|
                0 <= i < all.len() ==> old(table)@.contains_key((#[trigger] all[i]).0) && old(
                    table,
                )@[all[i].0] == all[i].1,
            forall|i: int, j: int|
                0 <= i < j < all.len() ==> (#[trigger] all[i]).0 != (#[trigger] all[j]).0,
            session.drains_partly(failures@, done_now),
            forall|id: ID|
                done_now.contains(id) <==> done.contains(id) || exists|j: int|
                    entries.len() <= j < all.len() && (#[trigger] all[j]).0 == id,
        decreases entries.len(),
    {
        let ghost last = entries.len() - 1;
        let popped = entries.pop();
        match popped {
            Some((id, entry)) => {
                assert(all[last] == (id, entry));
                let failure = make(id, entry);
                proof {
                    assert(!done_now.contains(id)) by {
                        if done_now.contains(id) {
                            let j = choose|j: int|
                                last < j < all.len() && (#[trigger] all[j]).0 == id;
                            assert(all[last].0 != all[j].0);
                        }
                    }
                    session.lemma_drains_one_more(failures@, done_now, id, failure);
                    done_now = done_now.insert(id);
                }
                failures.push(failure);
            },
            None => {},
        }
    }
    proof {
        assert forall|id: ID| done_now.contains(id) <==> done.union(old(table)@.dom()).contains(
            id,
        ) by {
            if old(table)@.contains_key(id) {
                let i = choose|i: int| 0 <= i < all.len() && (#[trigger] all[i]).0 == id;
                assert(done_now.contains(id));
            }
        }
        assert(done_now =~= done.union(old(table)@.dom()));
    }
}

fn fail_subscription<V: Send + 'static, SC, RC>(
    id: ID,
    entry: (Promise<Subscription, V>, SC, URI),
) -> (failure: Effect<V, SC, RC>)
    ensures
        failure == Effect::<V, SC, RC>::Settle(
            Settlement::Subscribe(id, entry.0, Err(CallError::network_failure())),
        ),
{
    let error = CallError::new(Reason::NetworkFailure, None, None);
    Effect::Settle(Settlement::Subscribe(id, entry.0, Err(error)))
}

fn fail_unsubscription<V: Send + 'static, SC, RC>(id: ID, entry: (Promise<(), V>, ID)) -> (failure:
    Effect<V, SC, RC>)
    ensures
        failure == Effect::<V, SC, RC>::Settle(
            Settlement::Unsubscribe(id, entry.0, Err(CallError::network_failure())),
        ),
{
    let error = CallError::new(Reason::NetworkFailure, None, None);
    Effect::Settle(Settlement::Unsubscribe(id, entry.0, Err(error)))
}

fn fail_registration<V: Send + 'static, SC, RC>(
    id: ID,
    entry: (Promise<Registration, V>, RC, URI),
) -> (failure: Effect<V, SC, RC>)
    ensures
        failure == Effect::<V, SC, RC>::Settle(
            Settlement::Register(id, entry.0, Err(CallError::network_failure())),
        ),
{
    let error = CallError::new(Reason::NetworkFailure, None, None);
    Effect::Settle(Settlement::Register(id, entry.0, Err(error)))
}

fn fail_unregistration<V: Send + 'static, SC, RC>(id: ID, entry: (Promise<(), V>, ID)) -> (failure:
    Effect<V, SC, RC>)
    ensures
        failure == Effect::<V, SC, RC>::Settle(
            Settlement::Unregister(id, entry.0, Err(CallError::network_failure())),
        ),
{
    let error = CallError::new(Reason::NetworkFailure, None, None);
    Effect::Settle(Settlement::Unregister(id, entry.0, Err(error)))
}

fn fail_publication<V: Send + 'static, SC, RC>(id: ID, entry: Promise<ID, V>) -> (failure: Effect<
    V,
    SC,
    RC,
>)
    ensures
        failure == Effect::<V, SC, RC>::Settle(
            Settlement::Publish(id, entry, Err(CallError::network_failure())),
        ),
{
    let error = CallError::new(Reason::NetworkFailure, None, None);
    Effect::Settle(Settlement::Publish(id, entry, Err(error)))
}

fn fail_call<V: Send + 'static, SC, RC>(id: ID, entry: Promise<(List<V>, Dict<V>), V>) -> (failure:
    Effect<V, SC, RC>)
    ensures
        failure == Effect::<V, SC, RC>::Settle(
            Settlement::Call(id, entry, Err(CallError::network_failure())),
        ),
{
    let error = CallError::new(Reason::NetworkFailure, None, None);
    Effect::Settle(Settlement::Call(id, entry, Err(error)))
}

/// The keys of a table, each once, in the order the table yields them.
fn keys_of<T>(table: &HashMap<ID, T>) -> (keys: Vec<ID>)
    ensures
        keys@.no_duplicates(),
        keys@.to_set() == table@.dom(),
{
    let mut keys: Vec<ID> = Vec::new();
    for key in it: table.keys()
        invariant
            keys.len() == it.index(),
            forall|j: int| 0 <= j < keys.len() ==> keys[j] == *it.seq()[j],
    {
        keys.push(*key);
    }
    proof {
        assert(keys@ =~= vstd::std_specs::hash::spec_keys_iter(table).remaining().unref());
    }
    keys
}

/// Empties a table and hands out what it held, each entry once.
fn take_all<T>(table: &mut HashMap<ID, T>) -> (entries: Vec<(ID, T)>)
    ensures
        final(table)@ == Map::<ID, T>::empty(),
        forall|i: int|
            0 <= i < entries.len() ==> old(table)@.contains_key((#[trigger] entries[i]).0)
                && old(table)@[entries[i].0] == entries[i].1,
        forall|i: int, j: int|
            0 <= i < j < entries.len() ==> (#[trigger] entries[i]).0 != (#[trigger] entries[j]).0,
        forall|id: ID|
            old(table)@.contains_key(id) ==> exists|i: int|
                0 <= i < entries.len() && (#[trigger] entries[i]).0 == id,
{
    let keys = keys_of(table);
    let mut entries: Vec<(ID, T)> = Vec::new();
    let mut i: usize = 0;
    while i < keys.len()
        invariant
            i <= keys.len(),
            keys@.no_duplicates(),
            keys@.to_set() == old(table)@.dom(),
            entries.len() == i,
            forall|j: int|
                0 <= j < i ==> (#[trigger] entries[j]).0 == keys[j] && entries[j].1 == old(
                    table,
                )@[keys[j]],
            forall|id: ID| #[trigger]
                table@.contains_key(id) ==> old(table)@.contains_key(id) && table@[id] == old(
                    table,
                )@[id],
            forall|j: int| 0 <= j < i ==> !table@.contains_key(#[trigger] keys[j]),
            forall|j: int| i <= j < keys.len() ==> table@.contains_key(#[trigger] keys[j]),
        decreases keys.len() - i,
    {
        let id = keys[i];
        let ghost before = table@;
        assert(before.contains_key(keys[i as int]));
        let taken = table.remove(&id);
        assert(table@ == before.remove(id));
        match taken {
            Some(entry) => {
                entries.push((id, entry));
            },
            None => {},
        }
        proof {
            assert forall|j: int| i < j < keys.len() implies table@.contains_key(
                #[trigger] keys[j],
            ) by {
                assert(keys[j] != keys[i as int]);
            }
        }
        i += 1;
    }
    proof {
        assert forall|id: ID| !table@.contains_key(id) by {
            if table@.contains_key(id) {
                assert(old(table)@.dom().contains(id));
                assert(keys@.to_set().contains(id));
                let j = choose|j: int| 0 <= j < keys@.len() && keys@[j] == id;
                assert(!table@.contains_key(keys[j]));
            }
        }
        assert(table@ =~= Map::<ID, T>::empty());
        assert forall|id: ID| old(table)@.contains_key(id) implies exists|i: int|
            0 <= i < entries.len() && (#[trigger] entries[i]).0 == id by {
            assert(keys@.to_set().contains(id));
            let j = choose|j: int| 0 <= j < keys@.len() && keys@[j] == id;
            assert(entries[j].0 == id);
        }
    }
    entries
}

impl<V: Send + 'static, SC, RC> Session<V, SC, RC> {
    /// Whether `failures` fails the sink of every request in `done` with a
    /// network failure, each one once, and does nothing else.
    spec fn drains_partly(self, failures: Seq<Effect<V, SC, RC>>, done: Set<ID>) -> bool {
        &&& forall|i: int|
            0 <= i < failures.len() ==> {
                &&& done.contains(#[trigger] failures[i].request_id())
                &&& self.pending(failures[i].request_id())
                &&& failures[i] == Effect::<V, SC, RC>::Settle(
                    self.network_failure_of(failures[i].request_id()),
                )
            }
        &&& forall|i: int, j: int|
            0 <= i < j < failures.len() ==> #[trigger] failures[i].request_id()
                != #[trigger] failures[j].request_id()
        &&& forall|id: ID| #[trigger]
            done.contains(id) ==> exists|i: int|
                0 <= i < failures.len() && #[trigger] failures[i].request_id() == id
    }

    proof fn lemma_drains_one_more(
        self,
        failures: Seq<Effect<V, SC, RC>>,
        done: Set<ID>,
        id: ID,
        failure: Effect<V, SC, RC>,
    )
        requires
            self.drains_partly(failures, done),
            self.pending(id),
            !done.contains(id),
            failure == Effect::<V, SC, RC>::Settle(self.network_failure_of(id)),
        ensures
            self.drains_partly(failures.push(failure), done.insert(id)),
    {
        let longer = failures.push(failure);
        assert(failure.request_id() == id);
        assert forall|other: ID| #[trigger] done.insert(id).contains(other) implies exists|i: int|
            0 <= i < longer.len() && #[trigger] longer[i].request_id() == other by {
            if other == id {
                assert(longer[failures.len() as int].request_id() == id);
            } else {
                let i = choose|i: int|
                    0 <= i < failures.len() && #[trigger] failures[i].request_id() == other;
                assert(longer[i].request_id() == other);
            }
        }
    }
}

/// A session that differs from a well-formed one only in holding fewer
/// outstanding requests, and that has not ended, is well-formed too.
proof fn lemma_fewer_pending<V: Send + 'static, SC, RC>(
    before: Session<V, SC, RC>,
    after: Session<V, SC, RC>,
)
    requires
        before.wf(),
        after.subscribe.dom().subset_of(before.subscribe.dom()),
        after.unsubscribe.dom().subset_of(before.unsubscribe.dom()),
        after.register.dom().subset_of(before.register.dom()),
        after.unregister.dom().subset_of(before.unregister.dom()),
        after.call.dom().subset_of(before.call.dom()),
        after.publish.dom().subset_of(before.publish.dom()),
        after.last_request_id == before.last_request_id,
        after.shutdown == before.shutdown,
        after.state == before.state || (before.state != ConnectionState::Disconnected
            && after.state != ConnectionState::Disconnected && after.shutdown is None),
    ensures
        after.wf(),
{
    assert forall|id: ID| #[trigger] after.occurrences(id) <= before.occurrences(id) by {}
    assert forall|id: ID| #[trigger] after.pending(id) implies before.pending(id) by {
        assert(after.occurrences(id) <= before.occurrences(id));
    }
}

/// A well-formed session stays so when the identifier that is next goes
/// into exactly one of its tables.
proof fn lemma_one_more_pending<V: Send + 'static, SC, RC>(
    before: Session<V, SC, RC>,
    after: Session<V, SC, RC>,
)
    requires
        before.wf(),
        before.last_request_id < u64::MAX,
        before.state == ConnectionState::Connected,
        after.state == before.state,
        after.shutdown == before.shutdown,
        after.last_request_id == before.last_request_id + 1,
        forall|id: ID|
            id != after.last_request_id ==> #[trigger] after.occurrences(id) == before.occurrences(
                id,
            ),
        after.occurrences(after.last_request_id) <= 1,
    ensures
        after.wf(),
{
    assert forall|id: ID| #[trigger] after.pending(id) implies 0 < id <= after.last_request_id by {
        if id != after.last_request_id {
            assert(after.occurrences(id) == before.occurrences(id));
            assert(before.pending(id));
        }
    }
    assert forall|id: ID| #[trigger] after.occurrences(id) <= 1 by {
        if id != after.last_request_id {
            assert(after.occurrences(id) == before.occurrences(id));
        }
    }
}

/// Both subprotocol names can stand in a list of offers as they are.
proof fn lemma_names_are_tokens()
    ensures
        is_token(WAMP_MSGPACK@),
        is_token(WAMP_JSON@),
{
    reveal_strlit("wamp.2.msgpack");
    reveal_strlit("wamp.2.json");
}

} // verus!
