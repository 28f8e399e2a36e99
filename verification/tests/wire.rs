use std::collections::HashMap;

use wamp::messages::{
    same_text, CallOptions, ClientRoles, ErrorDetails, ErrorType, EventDetails, HelloDetails,
    InvocationDetails, MatchingPolicy, Message, PublishOptions, Reason, RegisterOptions,
    ResultDetails, SubscribeOptions, WelcomeDetails, YieldOptions, URI,
};

fn uri(name: &str) -> URI {
    URI::new(name)
}

#[test]
fn every_message_opens_with_its_number() {
    let none: Option<Vec<i64>> = None;
    let numbered: Vec<(Message<i64>, u64)> = vec![
        (Message::Hello(uri("r"), HelloDetails::new(ClientRoles::new())), 1),
        (Message::Welcome(1, WelcomeDetails { agent: None }), 2),
        (Message::Goodbye(ErrorDetails::new(), Reason::NormalClose), 6),
        (
            Message::Error(ErrorType::Call, 1, HashMap::new(), Reason::Cancelled, None, None),
            8,
        ),
        (Message::Publish(1, PublishOptions::new(true), uri("t"), none.clone(), None), 16),
        (Message::Published(1, 2), 17),
        (Message::Subscribe(1, SubscribeOptions::new(), uri("t")), 32),
        (Message::Subscribed(1, 2), 33),
        (Message::Unsubscribe(1, 2), 34),
        (Message::Unsubscribed(1), 35),
        (Message::Event(1, 2, EventDetails { topic: None }, None, None), 36),
        (Message::Call(1, CallOptions::new(), uri("p"), None, None), 48),
        (Message::Result(1, ResultDetails {}, None, None), 50),
        (Message::Register(1, RegisterOptions::new(), uri("p")), 64),
        (Message::Registered(1, 2), 65),
        (Message::Unregister(1, 2), 66),
        (Message::Unregistered(1), 67),
        (Message::Invocation(1, 2, InvocationDetails { procedure: None }, None, None), 68),
        (Message::Yield(1, YieldOptions::new(), None, None), 70),
    ];
    for (message, number) in numbered {
        assert_eq!(message.code(), number);
    }
}

#[test]
fn an_error_kind_goes_by_the_number_of_its_request() {
    let kinds = vec![
        (ErrorType::Subscribe, 32),
        (ErrorType::Unsubscribe, 34),
        (ErrorType::Publish, 16),
        (ErrorType::Register, 64),
        (ErrorType::Unregister, 66),
        (ErrorType::Invocation, 68),
        (ErrorType::Call, 48),
    ];
    for (kind, number) in kinds {
        assert_eq!(kind.code(), number);
        assert_eq!(ErrorType::from_code(number), Some(kind));
        assert_eq!(ErrorType::from_code(kind.code()), Some(kind));
    }
    for number in vec![0, 1, 8, 17, 33, 50, 70, u64::MAX] {
        assert_eq!(ErrorType::from_code(number), None);
    }
}

#[test]
fn a_matching_policy_goes_by_its_name() {
    assert_eq!(MatchingPolicy::Prefix.name(), "prefix");
    assert_eq!(MatchingPolicy::Wildcard.name(), "wildcard");
    assert_eq!(MatchingPolicy::Strict.name(), "exact");
    for policy in vec![MatchingPolicy::Prefix, MatchingPolicy::Wildcard, MatchingPolicy::Strict] {
        assert_eq!(MatchingPolicy::from_name(policy.name()), Some(policy));
    }
    assert_eq!(MatchingPolicy::from_name("Prefix"), None);
    assert_eq!(MatchingPolicy::from_name(""), None);
    assert_eq!(MatchingPolicy::from_name("strict"), None);
}

#[test]
fn a_reason_is_found_again_by_its_name() {
    let predefined = vec![
        Reason::InvalidURI,
        Reason::NoSuchProcedure,
        Reason::ProcedureAlreadyExists,
        Reason::NoSuchRegistration,
        Reason::NoSuchSubscription,
        Reason::InvalidArgument,
        Reason::SystemShutdown,
        Reason::CloseRealm,
        Reason::GoodbyeAndOut,
        Reason::NotAuthorized,
        Reason::AuthorizationFailed,
        Reason::NoSuchRealm,
        Reason::NoSuchRole,
        Reason::Cancelled,
        Reason::OptionNotAllowed,
        Reason::NoEligibleCallee,
        Reason::NetworkFailure,
        Reason::NormalClose,
    ];
    for reason in predefined {
        assert_eq!(Reason::from_text(&reason.get_string()), reason);
    }
    assert_eq!(
        Reason::from_text("com.example.error.odd"),
        Reason::CustomReason(uri("com.example.error.odd"))
    );
    assert_eq!(Reason::from_text(""), Reason::CustomReason(uri("")));
    assert_eq!(
        Reason::from_text("wamp.error.invalid_argument"),
        Reason::InvalidArgument
    );
}

#[test]
fn texts_are_the_same_when_they_read_the_same() {
    assert!(same_text("wamp.2.json", "wamp.2.json"));
    assert!(!same_text("wamp.2.json", "wamp.2.msgpack"));
    assert!(!same_text("a", "A"));
    assert!(same_text("", ""));
}

#[test]
fn the_options_start_out_plain() {
    assert_eq!(SubscribeOptions::new().pattern_match, MatchingPolicy::Strict);
    assert_eq!(RegisterOptions::new().pattern_match, MatchingPolicy::Strict);
    assert!(PublishOptions::new(true).acknowledge);
    assert!(!PublishOptions::new(false).acknowledge);
    assert_eq!(ErrorDetails::new().message, None);
    let roles = ClientRoles::new();
    assert!(roles.publisher && roles.subscriber && roles.caller && roles.callee);
    assert_eq!(HelloDetails::new(roles).roles, roles);
}
