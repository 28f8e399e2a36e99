use std::cell::RefCell;
use std::collections::HashMap;
use std::rc::Rc;

use eventual::{Async, AsyncError};
use wamp::client::{
    Client, CloseCode, Codec, Connection, ConnectionHandler, ConnectionState, Effect, Settlement,
    CONNECTION_TIMEOUT, EXPIRE_AFTER, EXPIRE_TIMEOUT,
};
use wamp::messages::{
    CallError, CallOptions, CallResult, ErrorDetails, ErrorType, EventDetails, InvocationDetails,
    Message, Reason, ResultDetails, SubscribeOptions, WelcomeDetails, YieldOptions, MatchingPolicy,
    URI,
};
use wamp::ErrorKind;

#[derive(Debug, Clone, PartialEq)]
enum Val {
    Int(i64),
    Text(String),
}

type List = Vec<Val>;
type Dict = HashMap<String, Val>;
type Subscriber = Rc<dyn Fn(List, Dict)>;
type Callee = Rc<dyn Fn(List, Dict) -> CallResult<(Option<List>, Option<Dict>), Val>>;
type Session = Client<Val, Subscriber, Callee>;
type Step = Vec<Effect<Val, Subscriber, Callee>>;

fn connected() -> (Session, ConnectionHandler) {
    let connection = Connection::new("ws://127.0.0.1:8090/ws", "realm1");
    let (mut client, handler, _) = connection.start::<Val, Subscriber, Callee>();
    handler.open_with(&mut client, Some("wamp.2.json".to_string()));
    let effects = handler.handle_message(
        &mut client,
        Message::Welcome(4321, WelcomeDetails { agent: None }),
    );
    assert_eq!(effects.len(), 1);
    assert!(matches!(effects[0], Effect::Connected));
    (client, handler)
}

/// Carries the effects out the way a driver would, and returns the
/// messages that would have gone to the router.
fn perform(handler: &ConnectionHandler, client: &Session, effects: Step) -> Vec<Message<Val>> {
    let mut wire = Vec::new();
    for effect in effects {
        match effect {
            Effect::Send(_, message) => wire.push(message),
            Effect::Settle(settlement) => settlement.settle(),
            Effect::Event(callback, args, kwargs) => callback(args, kwargs),
            Effect::Invocation(callback, request_id, args, kwargs) => {
                let verdict = callback(args, kwargs);
                match handler.handle_verdict(client, request_id, verdict) {
                    Effect::Send(_, message) => wire.push(message),
                    _ => panic!("a verdict is answered by a message"),
                }
            }
            _ => {}
        }
    }
    wire
}

fn deaf() -> Subscriber {
    Rc::new(|_args: List, _kwargs: Dict| {})
}

fn mute() -> Callee {
    Rc::new(|_args: List, _kwargs: Dict| Ok((None, None)))
}

fn uri(name: &str) -> URI {
    URI::new(name)
}

#[test]
fn a_new_session_waits_for_the_welcome() {
    let connection = Connection::new("ws://127.0.0.1:8090/ws", "realm1");
    let (client, _handler, arm) = connection.start::<Val, Subscriber, Callee>();
    assert_eq!(client.state(), ConnectionState::Connecting);
    assert_eq!(client.session_id(), 0);
    assert_eq!(client.last_request_id(), 0);
    assert!(!client.is_closed());
    match arm {
        Effect::Timeout(ms, token) => {
            assert_eq!(ms, 5000);
            assert_eq!(token, CONNECTION_TIMEOUT);
            assert_eq!(token, 124);
        }
        _ => panic!("the connect deadline is armed first"),
    }
}

#[test]
fn the_connect_deadline_can_be_set() {
    let mut connection = Connection::new("ws://127.0.0.1:8090/ws", "realm1");
    assert_eq!(connection.timeout(), 5000);
    connection.set_timeout(50);
    assert_eq!(connection.timeout(), 50);
    assert_eq!(connection.url(), "ws://127.0.0.1:8090/ws");
    assert_eq!(connection.realm().uri, "realm1");
    let (_client, _handler, arm) = connection.start::<Val, Subscriber, Callee>();
    assert!(matches!(arm, Effect::Timeout(50, 124)));
}

#[test]
fn opening_greets_the_router_with_all_four_roles() {
    let connection = Connection::new("ws://127.0.0.1:8090/ws", "realm1");
    let (mut client, handler, _) = connection.start::<Val, Subscriber, Callee>();
    let effect = handler.open_with(&mut client, Some("wamp.2.msgpack".to_string()));
    match effect {
        Effect::Send(codec, Message::Hello(realm, details)) => {
            assert_eq!(codec, Codec::MsgPack);
            assert_eq!(realm.uri, "realm1");
            assert!(details.roles.publisher);
            assert!(details.roles.subscriber);
            assert!(details.roles.caller);
            assert!(details.roles.callee);
        }
        _ => panic!("opening sends a hello"),
    }
    assert_eq!(client.codec(), Codec::MsgPack);
    assert_eq!(client.state(), ConnectionState::Connecting);
}

#[test]
fn a_router_that_selects_nothing_gets_json() {
    let connection = Connection::new("ws://127.0.0.1:8090/ws", "realm1");
    let (mut client, handler, _) = connection.start::<Val, Subscriber, Callee>();
    let effect = handler.open_with(&mut client, None);
    assert!(matches!(effect, Effect::Send(Codec::Json, Message::Hello(_, _))));
    assert_eq!(client.codec(), Codec::Json);
}

#[test]
fn the_welcome_connects_the_session() {
    let connection = Connection::new("ws://127.0.0.1:8090/ws", "realm1");
    let (mut client, handler, _) = connection.start::<Val, Subscriber, Callee>();
    handler.open_with(&mut client, None);
    let effects = handler.handle_message(
        &mut client,
        Message::Welcome(99, WelcomeDetails { agent: Some("router".to_string()) }),
    );
    assert_eq!(effects.len(), 1);
    assert!(matches!(effects[0], Effect::Connected));
    assert_eq!(client.state(), ConnectionState::Connected);
    assert_eq!(client.session_id(), 99);
}

#[test]
fn anything_but_a_welcome_is_dropped_while_connecting() {
    let connection = Connection::new("ws://127.0.0.1:8090/ws", "realm1");
    let (mut client, handler, _) = connection.start::<Val, Subscriber, Callee>();
    let effects = handler.handle_message(&mut client, Message::Subscribed(1, 2));
    assert!(effects.is_empty());
    let effects = handler.handle_message(
        &mut client,
        Message::Goodbye(ErrorDetails::new(), Reason::CloseRealm),
    );
    assert!(effects.is_empty());
    assert_eq!(client.state(), ConnectionState::Connecting);
    assert_eq!(client.session_id(), 0);
}

#[test]
fn happy_subscribe() {
    let (mut client, handler) = connected();
    let seen: Rc<RefCell<Vec<(List, Dict)>>> = Rc::new(RefCell::new(Vec::new()));
    let log = seen.clone();
    let callback: Subscriber = Rc::new(move |args: List, kwargs: Dict| {
        log.borrow_mut().push((args, kwargs));
    });
    let (future, effect) = client.subscribe(uri("com.x.topic"), callback).unwrap();
    match effect {
        Effect::Send(codec, message) => {
            assert_eq!(codec, Codec::Json);
            assert_eq!(
                message,
                Message::Subscribe(1, SubscribeOptions::new(), uri("com.x.topic"))
            );
        }
        _ => panic!("a subscription is asked for by a message"),
    }
    assert!(client.is_pending(1));
    assert!(!future.is_ready());

    let effects = handler.handle_message(&mut client, Message::Subscribed(1, 777));
    assert_eq!(effects.len(), 1);
    perform(&handler, &client, effects);
    assert!(!client.is_pending(1));
    assert!(client.is_subscribed(777));
    match future.expect() {
        Ok(subscription) => {
            assert_eq!(subscription.topic, uri("com.x.topic"));
            assert_eq!(subscription.subscription_id, 777);
        }
        Err(_) => panic!("the subscription was confirmed"),
    }

    let effects = handler.handle_message(
        &mut client,
        Message::Event(777, 5, EventDetails { topic: None }, Some(vec![Val::Int(42)]), None),
    );
    assert_eq!(effects.len(), 1);
    perform(&handler, &client, effects);
    let seen = seen.borrow();
    assert_eq!(seen.len(), 1);
    assert_eq!(seen[0].0, vec![Val::Int(42)]);
    assert!(seen[0].1.is_empty());
}

#[test]
fn call_with_error() {
    let (mut client, handler) = connected();
    let (future, effect) = client
        .call(uri("com.x.add"), Some(vec![Val::Int(1), Val::Int(2)]), None)
        .unwrap();
    match effect {
        Effect::Send(_, message) => assert_eq!(
            message,
            Message::Call(
                1,
                CallOptions::new(),
                uri("com.x.add"),
                Some(vec![Val::Int(1), Val::Int(2)]),
                None
            )
        ),
        _ => panic!("a call is made by a message"),
    }
    let effects = handler.handle_message(
        &mut client,
        Message::Error(
            ErrorType::Call,
            1,
            HashMap::new(),
            Reason::InvalidArgument,
            Some(Vec::new()),
            Some(HashMap::new()),
        ),
    );
    assert_eq!(effects.len(), 1);
    perform(&handler, &client, effects);
    assert!(!client.is_pending(1));
    match future.expect() {
        Err(AsyncError::Failed(error)) => {
            assert_eq!(error.reason, Reason::InvalidArgument);
            assert_eq!(error.reason.get_string(), "wamp.error.invalid_argument");
            assert_eq!(error.args, Some(Vec::new()));
            assert_eq!(error.kwargs, Some(HashMap::new()));
        }
        _ => panic!("the call was answered by an error"),
    }
}

#[test]
fn call_with_result() {
    let (mut client, handler) = connected();
    let (future, _) = client.call(uri("com.x.add"), Some(vec![Val::Int(1)]), None).unwrap();
    let effects = handler.handle_message(
        &mut client,
        Message::Result(1, ResultDetails {}, Some(vec![Val::Int(3)]), None),
    );
    perform(&handler, &client, effects);
    match future.expect() {
        Ok((args, kwargs)) => {
            assert_eq!(args, vec![Val::Int(3)]);
            assert!(kwargs.is_empty());
        }
        Err(_) => panic!("the call was answered by a result"),
    }
}

#[test]
fn a_result_without_arguments_gives_empty_ones() {
    let (mut client, handler) = connected();
    let (future, _) = client.call(uri("com.x.now"), None, None).unwrap();
    let effects =
        handler.handle_message(&mut client, Message::Result(1, ResultDetails {}, None, None));
    perform(&handler, &client, effects);
    match future.expect() {
        Ok((args, kwargs)) => {
            assert!(args.is_empty());
            assert!(kwargs.is_empty());
        }
        Err(_) => panic!("the call was answered by a result"),
    }
}

#[test]
fn invocation_round_trip() {
    let (mut client, handler) = connected();
    let echo: Callee = Rc::new(|args: List, _kwargs: Dict| Ok((Some(args), None)));
    let (future, effect) = client.register(uri("com.x.echo"), echo).unwrap();
    assert!(matches!(effect, Effect::Send(_, Message::Register(1, _, _))));
    let effects = handler.handle_message(&mut client, Message::Registered(1, 55));
    perform(&handler, &client, effects);
    match future.expect() {
        Ok(registration) => {
            assert_eq!(registration.procedure, uri("com.x.echo"));
            assert_eq!(registration.registration_id, 55);
        }
        Err(_) => panic!("the registration was confirmed"),
    }
    assert!(client.is_registered(55));

    let effects = handler.handle_message(
        &mut client,
        Message::Invocation(
            9,
            55,
            InvocationDetails { procedure: None },
            Some(vec![Val::Text("hello".to_string())]),
            Some(HashMap::new()),
        ),
    );
    assert_eq!(effects.len(), 1);
    let wire = perform(&handler, &client, effects);
    assert_eq!(
        wire,
        vec![Message::Yield(
            9,
            YieldOptions::new(),
            Some(vec![Val::Text("hello".to_string())]),
            None
        )]
    );
}

#[test]
fn a_failing_callee_is_answered_by_an_error() {
    let (mut client, handler) = connected();
    let broken: Callee = Rc::new(|_args: List, _kwargs: Dict| {
        Err(CallError::new(Reason::NoSuchProcedure, Some(vec![Val::Int(7)]), None))
    });
    client.register(uri("com.x.broken"), broken).unwrap();
    let effects = handler.handle_message(&mut client, Message::Registered(1, 56));
    perform(&handler, &client, effects);
    let effects = handler.handle_message(
        &mut client,
        Message::Invocation(10, 56, InvocationDetails { procedure: None }, None, None),
    );
    let wire = perform(&handler, &client, effects);
    assert_eq!(
        wire,
        vec![Message::Error(
            ErrorType::Invocation,
            10,
            HashMap::new(),
            Reason::NoSuchProcedure,
            Some(vec![Val::Int(7)]),
            None
        )]
    );
}

#[test]
fn an_invocation_of_nothing_registered_is_dropped() {
    let (mut client, handler) = connected();
    let effects = handler.handle_message(
        &mut client,
        Message::Invocation(10, 56, InvocationDetails { procedure: None }, None, None),
    );
    assert!(effects.is_empty());
}

#[test]
fn graceful_shutdown() {
    let (mut client, handler) = connected();
    let (future, effect) = client.shutdown().unwrap();
    match effect {
        Effect::Send(_, message) => {
            assert_eq!(message, Message::Goodbye(ErrorDetails::new(), Reason::SystemShutdown));
            match message {
                Message::Goodbye(_, reason) => {
                    assert_eq!(reason.get_string(), "wamp.close.system_shutdown")
                }
                _ => unreachable!(),
            }
        }
        _ => panic!("a shutdown says goodbye"),
    }
    assert_eq!(client.state(), ConnectionState::ShuttingDown);
    assert!(client.is_closed());
    assert!(!future.is_ready());

    let effects = handler.handle_message(
        &mut client,
        Message::Goodbye(ErrorDetails::new(), Reason::GoodbyeAndOut),
    );
    assert_eq!(effects.len(), 1);
    assert!(matches!(effects[0], Effect::Settle(Settlement::Shutdown(_))));
    perform(&handler, &client, effects);
    assert_eq!(client.state(), ConnectionState::Disconnected);
    assert!(matches!(future.expect(), Ok(())));
}

#[test]
fn abrupt_disconnect_drains() {
    let (mut client, handler) = connected();
    let (first, _) = client.call(uri("com.x.one"), None, None).unwrap();
    let (second, _) = client.call(uri("com.x.two"), None, None).unwrap();
    let (third, _) = client.publish_and_acknowledge(uri("com.x.news"), None, None).unwrap();
    assert!(client.is_pending(1) && client.is_pending(2) && client.is_pending(3));

    let effects = handler.on_close(&mut client);
    assert_eq!(effects.len(), 5);
    assert!(matches!(effects[0], Effect::Close(CloseCode::Normal)));
    assert!(matches!(effects[4], Effect::Shutdown));
    let mut failed: Vec<u64> = Vec::new();
    for effect in effects.iter() {
        match effect {
            Effect::Settle(Settlement::Call(id, _, Err(error))) => {
                assert_eq!(error.reason, Reason::NetworkFailure);
                assert_eq!(error.args, None);
                assert_eq!(error.kwargs, None);
                failed.push(*id);
            }
            Effect::Settle(Settlement::Publish(id, _, Err(error))) => {
                assert_eq!(error.reason, Reason::NetworkFailure);
                failed.push(*id);
            }
            Effect::Settle(_) => panic!("nothing else was outstanding"),
            _ => {}
        }
    }
    failed.sort();
    assert_eq!(failed, vec![1, 2, 3]);
    perform(&handler, &client, effects);

    assert!(client.is_closed());
    assert_eq!(client.state(), ConnectionState::Disconnected);
    assert!(!client.is_pending(1) && !client.is_pending(2) && !client.is_pending(3));
    for outcome in vec![first.expect().map(|_| ()), second.expect().map(|_| ())] {
        match outcome {
            Err(AsyncError::Failed(error)) => assert_eq!(error.reason, Reason::NetworkFailure),
            _ => panic!("the call was lost with the connection"),
        }
    }
    match third.expect() {
        Err(AsyncError::Failed(error)) => {
            assert_eq!(error.reason.get_string(), "wamp.error.network_failure")
        }
        _ => panic!("the publication was lost with the connection"),
    }
}

#[test]
fn a_second_close_fails_nothing_again() {
    let (mut client, handler) = connected();
    let _pending = client.call(uri("com.x.one"), None, None).unwrap();
    let effects = handler.on_close(&mut client);
    assert_eq!(effects.len(), 3);
    perform(&handler, &client, effects);
    let effects = handler.on_close(&mut client);
    assert_eq!(effects.len(), 2);
    assert!(matches!(effects[0], Effect::Close(CloseCode::Normal)));
    assert!(matches!(effects[1], Effect::Shutdown));
    assert_eq!(client.state(), ConnectionState::Disconnected);
}

#[test]
fn closing_drains_every_kind_of_request() {
    let (mut client, handler) = connected();
    let (subscribe, _) = client.subscribe(uri("com.x.topic"), deaf()).unwrap();
    let (register, _) = client.register(uri("com.x.proc"), mute()).unwrap();
    let (call, _) = client.call(uri("com.x.proc"), None, None).unwrap();
    let (publish, _) = client.publish_and_acknowledge(uri("com.x.topic"), None, None).unwrap();
    let (unsubscribe, _) = client
        .unsubscribe(wamp::client::Subscription { topic: uri("com.x.topic"), subscription_id: 3 })
        .unwrap();
    let (unregister, _) = client
        .unregister(wamp::client::Registration { procedure: uri("com.x.proc"), registration_id: 4 })
        .unwrap();
    let effects = handler.on_close(&mut client);
    assert_eq!(effects.len(), 8);
    let mut ids: Vec<u64> = Vec::new();
    for effect in effects.iter() {
        if let Effect::Settle(settlement) = effect {
            match settlement {
                Settlement::Subscribe(id, _, Err(_)) => ids.push(*id),
                Settlement::Register(id, _, Err(_)) => ids.push(*id),
                Settlement::Call(id, _, Err(_)) => ids.push(*id),
                Settlement::Publish(id, _, Err(_)) => ids.push(*id),
                Settlement::Unsubscribe(id, _, Err(_)) => ids.push(*id),
                Settlement::Unregister(id, _, Err(_)) => ids.push(*id),
                _ => panic!("every request fails"),
            }
        }
    }
    ids.sort();
    assert_eq!(ids, vec![1, 2, 3, 4, 5, 6]);
    perform(&handler, &client, effects);
    assert!(matches!(subscribe.expect(), Err(AsyncError::Failed(_))));
    assert!(matches!(register.expect(), Err(AsyncError::Failed(_))));
    assert!(matches!(call.expect(), Err(AsyncError::Failed(_))));
    assert!(matches!(publish.expect(), Err(AsyncError::Failed(_))));
    assert!(matches!(unsubscribe.expect(), Err(AsyncError::Failed(_))));
    assert!(matches!(unregister.expect(), Err(AsyncError::Failed(_))));
    for id in 1..7 {
        assert!(!client.is_pending(id));
    }
}

#[test]
fn closing_while_shutting_down_resolves_the_shutdown() {
    let (mut client, handler) = connected();
    let (call, _) = client.call(uri("com.x.slow"), None, None).unwrap();
    let (shutdown, _) = client.shutdown().unwrap();
    let effects = handler.on_close(&mut client);
    assert_eq!(effects.len(), 4);
    assert!(matches!(effects[0], Effect::Close(CloseCode::Normal)));
    assert!(matches!(effects[1], Effect::Settle(Settlement::Call(1, _, Err(_)))));
    assert!(matches!(effects[2], Effect::Shutdown));
    assert!(matches!(effects[3], Effect::Settle(Settlement::Shutdown(_))));
    perform(&handler, &client, effects);
    assert!(matches!(shutdown.expect(), Ok(())));
    assert!(matches!(call.expect(), Err(AsyncError::Failed(_))));
}

#[test]
fn connect_timeout() {
    let mut connection = Connection::new("ws://127.0.0.1:8090/ws", "realm1");
    connection.set_timeout(50);
    let (mut client, handler, arm) = connection.start::<Val, Subscriber, Callee>();
    assert!(matches!(arm, Effect::Timeout(50, 124)));
    handler.open_with(&mut client, None);
    let effects = handler.on_timeout(&mut client, CONNECTION_TIMEOUT);
    assert_eq!(effects.len(), 2);
    assert!(matches!(effects[0], Effect::Shutdown));
    assert!(matches!(effects[1], Effect::TimedOut));
    assert_eq!(client.state(), ConnectionState::Disconnected);
    match connection.outcome::<()>(None) {
        Err(error) => assert!(matches!(error.get_kind(), ErrorKind::Timeout)),
        Ok(_) => panic!("nothing was reported"),
    }
    assert!(connection.outcome(Some(Ok(()))).is_ok());
}

#[test]
fn the_connect_deadline_means_nothing_once_connected() {
    let (mut client, handler) = connected();
    let effects = handler.on_timeout(&mut client, CONNECTION_TIMEOUT);
    assert!(effects.is_empty());
    assert_eq!(client.state(), ConnectionState::Connected);
}

#[test]
fn silence_ends_the_session() {
    let (mut client, handler) = connected();
    let (call, _) = client.call(uri("com.x.slow"), None, None).unwrap();
    let effects = handler.on_timeout(&mut client, EXPIRE_TIMEOUT);
    assert_eq!(effects.len(), 2);
    assert!(matches!(effects[0], Effect::Close(CloseCode::Away)));
    assert!(matches!(effects[1], Effect::Settle(Settlement::Call(1, _, Err(_)))));
    perform(&handler, &client, effects);
    assert_eq!(client.state(), ConnectionState::Disconnected);
    assert!(matches!(call.expect(), Err(AsyncError::Failed(_))));
}

#[test]
fn an_unknown_timer_changes_nothing() {
    let (mut client, handler) = connected();
    let effects = handler.on_timeout(&mut client, 7);
    assert!(effects.is_empty());
    assert_eq!(client.state(), ConnectionState::Connected);
}

#[test]
fn the_inactivity_deadline_can_be_set() {
    let mut connection = Connection::new("ws://127.0.0.1:8090/ws", "realm1");
    assert_eq!(connection.expire_timeout(), 5000);
    connection.set_expire_timeout(250);
    assert_eq!(connection.expire_timeout(), 250);
    assert_eq!(connection.timeout(), 5000);
    let (_client, handler, _) = connection.start::<Val, Subscriber, Callee>();
    assert!(matches!(
        handler.on_frame::<Val, Subscriber, Callee>(),
        Effect::Timeout(250, 125)
    ));
    let own = ConnectionHandler::new(uri("realm1"), 10);
    assert!(matches!(own.on_frame::<Val, Subscriber, Callee>(), Effect::Timeout(10, 125)));
}

#[test]
fn every_frame_rearms_the_inactivity_deadline() {
    let (_client, handler) = connected();
    match handler.on_frame::<Val, Subscriber, Callee>() {
        Effect::Timeout(ms, token) => {
            assert_eq!(ms, EXPIRE_AFTER);
            assert_eq!(ms, 5000);
            assert_eq!(token, EXPIRE_TIMEOUT);
            assert_eq!(token, 125);
        }
        _ => panic!("a frame arms a timer"),
    }
}

#[test]
fn a_reply_to_an_unknown_request_is_dropped() {
    let (mut client, handler) = connected();
    let _pending = client.call(uri("com.x.one"), None, None).unwrap();
    assert!(handler.handle_message(&mut client, Message::Subscribed(1, 5)).is_empty());
    assert!(handler.handle_message(&mut client, Message::Subscribed(9, 5)).is_empty());
    assert!(handler.handle_message(&mut client, Message::Unsubscribed(1)).is_empty());
    assert!(handler.handle_message(&mut client, Message::Registered(1, 5)).is_empty());
    assert!(handler.handle_message(&mut client, Message::Unregistered(1)).is_empty());
    assert!(handler.handle_message(&mut client, Message::Published(1, 5)).is_empty());
    assert!(handler
        .handle_message(&mut client, Message::Result(2, ResultDetails {}, None, None))
        .is_empty());
    assert!(handler
        .handle_message(
            &mut client,
            Message::Event(5, 1, EventDetails { topic: None }, None, None)
        )
        .is_empty());
    assert!(handler
        .handle_message(
            &mut client,
            Message::Error(ErrorType::Publish, 1, HashMap::new(), Reason::NotAuthorized, None, None)
        )
        .is_empty());
    assert!(client.is_pending(1));
    assert!(!client.is_subscribed(5));
    assert!(!client.is_registered(5));
    assert_eq!(client.state(), ConnectionState::Connected);
}

#[test]
fn an_error_for_an_invocation_is_dropped() {
    let (mut client, handler) = connected();
    let _pending = client.call(uri("com.x.one"), None, None).unwrap();
    let effects = handler.handle_message(
        &mut client,
        Message::Error(ErrorType::Invocation, 1, HashMap::new(), Reason::Cancelled, None, None),
    );
    assert!(effects.is_empty());
    assert!(client.is_pending(1));
}

#[test]
fn a_message_the_client_only_sends_is_dropped() {
    let (mut client, handler) = connected();
    let effects = handler.handle_message(
        &mut client,
        Message::Subscribe(1, SubscribeOptions::new(), uri("com.x.topic")),
    );
    assert!(effects.is_empty());
    let effects = handler.handle_message(
        &mut client,
        Message::Welcome(5, WelcomeDetails { agent: None }),
    );
    assert!(effects.is_empty());
    assert_eq!(client.session_id(), 4321);
}

#[test]
fn each_kind_of_error_fails_its_own_request() {
    let (mut client, handler) = connected();
    let (subscribe, _) = client.subscribe(uri("com.x.topic"), deaf()).unwrap();
    let (register, _) = client.register(uri("com.x.proc"), mute()).unwrap();
    let (publish, _) = client.publish_and_acknowledge(uri("com.x.topic"), None, None).unwrap();
    let (unregister, _) = client
        .unregister(wamp::client::Registration { procedure: uri("com.x.proc"), registration_id: 4 })
        .unwrap();
    let kinds = vec![
        (ErrorType::Subscribe, 1, Reason::NotAuthorized),
        (ErrorType::Register, 2, Reason::ProcedureAlreadyExists),
        (ErrorType::Publish, 3, Reason::InvalidURI),
        (ErrorType::Unregister, 4, Reason::NoSuchRegistration),
    ];
    for (kind, id, reason) in kinds {
        let effects = handler.handle_message(
            &mut client,
            Message::Error(kind, id, HashMap::new(), reason, None, None),
        );
        assert_eq!(effects.len(), 1);
        perform(&handler, &client, effects);
        assert!(!client.is_pending(id));
    }
    match subscribe.expect() {
        Err(AsyncError::Failed(e)) => assert_eq!(e.reason, Reason::NotAuthorized),
        _ => panic!("the subscription was refused"),
    }
    match register.expect() {
        Err(AsyncError::Failed(e)) => assert_eq!(e.reason, Reason::ProcedureAlreadyExists),
        _ => panic!("the registration was refused"),
    }
    match publish.expect() {
        Err(AsyncError::Failed(e)) => assert_eq!(e.reason, Reason::InvalidURI),
        _ => panic!("the publication was refused"),
    }
    match unregister.expect() {
        Err(AsyncError::Failed(e)) => assert_eq!(e.reason, Reason::NoSuchRegistration),
        _ => panic!("the unregistration was refused"),
    }
}

#[test]
fn a_failed_unsubscription_leaves_the_subscriber_in_place() {
    let (mut client, handler) = connected();
    let count = Rc::new(RefCell::new(0u32));
    let tally = count.clone();
    let callback: Subscriber = Rc::new(move |_args: List, _kwargs: Dict| {
        *tally.borrow_mut() += 1;
    });
    let (future, _) = client.subscribe(uri("com.x.topic"), callback).unwrap();
    let effects = handler.handle_message(&mut client, Message::Subscribed(1, 777));
    perform(&handler, &client, effects);
    let subscription = future.expect().ok().unwrap();
    let (unsubscribing, _) = client.unsubscribe(subscription).unwrap();
    let effects = handler.handle_message(
        &mut client,
        Message::Error(
            ErrorType::Unsubscribe,
            2,
            HashMap::new(),
            Reason::NoSuchSubscription,
            None,
            None,
        ),
    );
    perform(&handler, &client, effects);
    assert!(matches!(unsubscribing.expect(), Err(AsyncError::Failed(_))));
    assert!(client.is_subscribed(777));
    let effects = handler.handle_message(
        &mut client,
        Message::Event(777, 1, EventDetails { topic: None }, None, None),
    );
    perform(&handler, &client, effects);
    assert_eq!(*count.borrow(), 1);
}

#[test]
fn events_in_flight_are_delivered_until_the_router_confirms() {
    let (mut client, handler) = connected();
    let count = Rc::new(RefCell::new(0u32));
    let tally = count.clone();
    let callback: Subscriber = Rc::new(move |_args: List, _kwargs: Dict| {
        *tally.borrow_mut() += 1;
    });
    let (future, _) = client.subscribe(uri("com.x.topic"), callback).unwrap();
    let effects = handler.handle_message(&mut client, Message::Subscribed(1, 777));
    perform(&handler, &client, effects);
    let subscription = future.expect().ok().unwrap();

    let (unsubscribing, effect) = client.unsubscribe(subscription).unwrap();
    assert!(matches!(effect, Effect::Send(_, Message::Unsubscribe(2, 777))));
    let effects = handler.handle_message(
        &mut client,
        Message::Event(777, 1, EventDetails { topic: None }, None, None),
    );
    perform(&handler, &client, effects);
    assert_eq!(*count.borrow(), 1);

    let effects = handler.handle_message(&mut client, Message::Unsubscribed(2));
    perform(&handler, &client, effects);
    assert!(matches!(unsubscribing.expect(), Ok(())));
    assert!(!client.is_subscribed(777));
    let effects = handler.handle_message(
        &mut client,
        Message::Event(777, 2, EventDetails { topic: None }, None, None),
    );
    assert!(effects.is_empty());
    assert_eq!(*count.borrow(), 1);
}

#[test]
fn two_subscriptions_to_one_topic_are_both_honoured() {
    let (mut client, handler) = connected();
    let count = Rc::new(RefCell::new(0u32));
    let one = count.clone();
    let two = count.clone();
    let first: Subscriber = Rc::new(move |_a: List, _k: Dict| *one.borrow_mut() += 1);
    let second: Subscriber = Rc::new(move |_a: List, _k: Dict| *two.borrow_mut() += 10);
    client.subscribe(uri("com.x.topic"), first).unwrap();
    client.subscribe(uri("com.x.topic"), second).unwrap();
    let effects = handler.handle_message(&mut client, Message::Subscribed(1, 100));
    perform(&handler, &client, effects);
    let effects = handler.handle_message(&mut client, Message::Subscribed(2, 200));
    perform(&handler, &client, effects);
    assert!(client.is_subscribed(100) && client.is_subscribed(200));
    for id in vec![100, 200] {
        let effects = handler.handle_message(
            &mut client,
            Message::Event(id, 1, EventDetails { topic: None }, None, None),
        );
        perform(&handler, &client, effects);
    }
    assert_eq!(*count.borrow(), 11);
}

#[test]
fn unregistering_takes_the_callee_out_once_confirmed() {
    let (mut client, handler) = connected();
    let (future, _) = client.register(uri("com.x.proc"), mute()).unwrap();
    let effects = handler.handle_message(&mut client, Message::Registered(1, 55));
    perform(&handler, &client, effects);
    let registration = future.expect().ok().unwrap();
    let (unregistering, effect) = client.unregister(registration).unwrap();
    assert!(matches!(effect, Effect::Send(_, Message::Unregister(2, 55))));
    assert!(client.is_registered(55));
    let effects = handler.handle_message(&mut client, Message::Unregistered(2));
    perform(&handler, &client, effects);
    assert!(matches!(unregistering.expect(), Ok(())));
    assert!(!client.is_registered(55));
}

#[test]
fn an_acknowledged_publication_resolves_with_its_id() {
    let (mut client, handler) = connected();
    let (future, effect) = client
        .publish_and_acknowledge(uri("com.x.news"), Some(vec![Val::Int(1)]), None)
        .unwrap();
    match effect {
        Effect::Send(_, Message::Publish(id, options, topic, args, kwargs)) => {
            assert_eq!(id, 1);
            assert!(options.acknowledge);
            assert_eq!(topic, uri("com.x.news"));
            assert_eq!(args, Some(vec![Val::Int(1)]));
            assert_eq!(kwargs, None);
        }
        _ => panic!("a publication is a message"),
    }
    let effects = handler.handle_message(&mut client, Message::Published(1, 31337));
    perform(&handler, &client, effects);
    assert!(matches!(future.expect(), Ok(31337)));
}

#[test]
fn the_router_saying_goodbye_is_answered_in_kind() {
    let (mut client, handler) = connected();
    let effects = handler.handle_message(
        &mut client,
        Message::Goodbye(ErrorDetails::new(), Reason::CloseRealm),
    );
    let wire = perform(&handler, &client, effects);
    assert_eq!(wire, vec![Message::Goodbye(ErrorDetails::new(), Reason::GoodbyeAndOut)]);
    match &wire[0] {
        Message::Goodbye(_, reason) => assert_eq!(reason.get_string(), "wamp.close.goodbye_and_out"),
        _ => unreachable!(),
    }
    assert_eq!(client.state(), ConnectionState::ShuttingDown);
    assert!(client.is_closed());
}

#[test]
fn while_shutting_down_only_a_goodbye_counts() {
    let (mut client, handler) = connected();
    let (call, _) = client.call(uri("com.x.slow"), None, None).unwrap();
    let (_shutdown, _) = client.shutdown().unwrap();
    let effects = handler.handle_message(
        &mut client,
        Message::Result(1, ResultDetails {}, None, None),
    );
    assert!(effects.is_empty());
    assert!(client.is_pending(1));
    assert_eq!(client.state(), ConnectionState::ShuttingDown);
    let effects = handler.handle_message(
        &mut client,
        Message::Goodbye(ErrorDetails::new(), Reason::GoodbyeAndOut),
    );
    assert_eq!(effects.len(), 2);
    perform(&handler, &client, effects);
    assert!(matches!(call.expect(), Err(AsyncError::Failed(_))));
    assert!(!client.is_pending(1));
}

#[test]
fn an_ended_session_accepts_nothing() {
    let (mut client, handler) = connected();
    let effects = handler.on_close(&mut client);
    perform(&handler, &client, effects);
    let effects = handler.handle_message(
        &mut client,
        Message::Welcome(5, WelcomeDetails { agent: None }),
    );
    assert!(effects.is_empty());
    let effects = handler.handle_message(
        &mut client,
        Message::Goodbye(ErrorDetails::new(), Reason::GoodbyeAndOut),
    );
    assert!(effects.is_empty());
    assert_eq!(client.state(), ConnectionState::Disconnected);
}

#[test]
fn a_frame_that_does_not_decode_is_dropped() {
    let (mut client, handler) = connected();
    let _pending = client.call(uri("com.x.one"), None, None).unwrap();
    let undecoded = Err(wamp::Error::new(ErrorKind::MalformedData));
    let effects = handler.on_message(&mut client, undecoded);
    assert!(effects.is_empty());
    assert_eq!(client.state(), ConnectionState::Connected);
    assert!(client.is_pending(1));
    let effects = handler.on_message(
        &mut client,
        Ok(Message::Result(1, ResultDetails {}, None, None)),
    );
    assert_eq!(effects.len(), 1);
    assert!(!client.is_pending(1));
}

#[test]
fn a_pattern_subscription_carries_its_policy() {
    let (mut client, _handler) = connected();
    let (_f, effect) = client
        .subscribe_with_pattern(uri("com.x"), deaf(), MatchingPolicy::Prefix)
        .unwrap();
    match effect {
        Effect::Send(_, Message::Subscribe(1, options, topic)) => {
            assert_eq!(options.pattern_match, MatchingPolicy::Prefix);
            assert_eq!(topic, uri("com.x"));
        }
        _ => panic!("a subscription is asked for by a message"),
    }
    let (_f, effect) = client
        .register_with_pattern(uri("com..proc"), mute(), MatchingPolicy::Wildcard)
        .unwrap();
    match effect {
        Effect::Send(_, Message::Register(2, options, procedure)) => {
            assert_eq!(options.pattern_match, MatchingPolicy::Wildcard);
            assert_eq!(procedure, uri("com..proc"));
        }
        _ => panic!("a registration is asked for by a message"),
    }
    let (_f, effect) = client
        .subscribe_with_pattern(uri("com.x.y"), deaf(), MatchingPolicy::Strict)
        .unwrap();
    assert!(matches!(
        effect,
        Effect::Send(_, Message::Subscribe(3, SubscribeOptions { pattern_match: MatchingPolicy::Strict }, _))
    ));
}
