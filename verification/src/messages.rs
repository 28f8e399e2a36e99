//! The records exchanged with the router: identifiers, resource names,
//! reasons, options and the message variants themselves.
//!
//! The payload carried by a message (the elements of its positional list and
//! the values of its keyword dictionary) is a type parameter `V`: the session
//! engine moves payloads around and never looks inside them.

use std::collections::HashMap;
use vstd::prelude::*;

verus! {

/// Identifier of a request, subscription, registration, publication or session.
pub type ID = u64;

/// Positional arguments of a message.
pub type List<V> = Vec<V>;

/// Keyword arguments of a message.
pub type Dict<V> = HashMap<String, V>;

/// A dotted resource name, used as realm, topic or procedure.
#[derive(Debug, Clone, PartialEq, Eq, Hash)]
pub struct URI {
    pub uri: String,
}

impl URI {
    pub fn new(uri: &str) -> (r: URI)
        ensures
            r.uri@ == uri@,
    {
        URI { uri: uri.to_owned() }
    }

    /// A second handle on the same name.
    pub fn duplicate(&self) -> (r: URI)
        ensures
            r == *self,
    {
        URI { uri: self.uri.clone() }
    }
}

/// Whether two texts are the same.
pub fn same_text(a: &str, b: &str) -> (same: bool)
    ensures
        same == (a@ == b@),
{
    a.to_owned() == b.to_owned()
}

/// How the router matches a topic or procedure name against a pattern.
#[derive(Debug, Clone, Copy, PartialEq, Eq, Hash, Structural)]
pub enum MatchingPolicy {
    /// The name is a prefix; everything below it matches.
    Prefix,
    /// Empty components of the name match any component.
    Wildcard,
    /// Only the exact name matches.
    Strict,
}

impl MatchingPolicy {
    /// The name of the policy on the wire.
    pub open spec fn text(self) -> Seq<char> {
        match self {
            MatchingPolicy::Prefix => "prefix"@,
            MatchingPolicy::Wildcard => "wildcard"@,
            MatchingPolicy::Strict => "exact"@,
        }
    }

    pub fn name(&self) -> (name: &'static str)
        ensures
            name@ == self.text(),
    {
        match self {
            MatchingPolicy::Prefix => "prefix",
            MatchingPolicy::Wildcard => "wildcard",
            MatchingPolicy::Strict => "exact",
        }
    }

    /// The policy that goes by this name, if any does.
    pub fn from_name(name: &str) -> (policy: Option<MatchingPolicy>)
        ensures
            policy matches Some(found) ==> found.text() == name@,
            policy is None ==> name@ != "prefix"@ && name@ != "wildcard"@ && name@ != "exact"@,
    {
        if same_text(name, "prefix") {
            Some(MatchingPolicy::Prefix)
        } else if same_text(name, "wildcard") {
            Some(MatchingPolicy::Wildcard)
        } else if same_text(name, "exact") {
            Some(MatchingPolicy::Strict)
        } else {
            None
        }
    }
}

/// The request kind that an `Error` message answers.
#[derive(Debug, Clone, Copy, PartialEq, Eq, Hash, Structural)]
pub enum ErrorType {
    Subscribe,
    Unsubscribe,
    Publish,
    Register,
    Unregister,
    Invocation,
    Call,
}

impl ErrorType {
    /// The number of the kind on the wire: that of the request it answers.
    pub open spec fn code_of(self) -> u64 {
        match self {
            ErrorType::Subscribe => 32,
            ErrorType::Unsubscribe => 34,
            ErrorType::Publish => 16,
            ErrorType::Register => 64,
            ErrorType::Unregister => 66,
            ErrorType::Invocation => 68,
            ErrorType::Call => 48,
        }
    }

    pub fn code(&self) -> (code: u64)
        ensures
            code == self.code_of(),
    {
        match self {
            ErrorType::Subscribe => 32,
            ErrorType::Unsubscribe => 34,
            ErrorType::Publish => 16,
            ErrorType::Register => 64,
            ErrorType::Unregister => 66,
            ErrorType::Invocation => 68,
            ErrorType::Call => 48,
        }
    }

    /// The kind that goes by this number, if any does.
    pub fn from_code(code: u64) -> (kind: Option<ErrorType>)
        ensures
            kind matches Some(found) ==> found.code_of() == code,
            kind is None ==> forall|any: ErrorType| any.code_of() != code,
    {
        if code == 32 {
            Some(ErrorType::Subscribe)
        } else if code == 34 {
            Some(ErrorType::Unsubscribe)
        } else if code == 16 {
            Some(ErrorType::Publish)
        } else if code == 64 {
            Some(ErrorType::Register)
        } else if code == 66 {
            Some(ErrorType::Unregister)
        } else if code == 68 {
            Some(ErrorType::Invocation)
        } else if code == 48 {
            Some(ErrorType::Call)
        } else {
            None
        }
    }
}

/// Why a request failed or a session ended.
#[derive(Debug, Clone, PartialEq, Eq, Hash)]
pub enum Reason {
    InvalidURI,
    NoSuchProcedure,
    ProcedureAlreadyExists,
    NoSuchRegistration,
    NoSuchSubscription,
    InvalidArgument,
    SystemShutdown,
    CloseRealm,
    GoodbyeAndOut,
    NotAuthorized,
    AuthorizationFailed,
    NoSuchRealm,
    NoSuchRole,
    Cancelled,
    OptionNotAllowed,
    NoEligibleCallee,
    NetworkFailure,
    NormalClose,
    /// Any name outside the predefined ones.
    CustomReason(URI),
}

impl Reason {
    /// The resource name that stands for this reason on the wire.
    pub open spec fn text(self) -> Seq<char> {
        match self {
            Reason::InvalidURI => "wamp.error.invalid_uri"@,
            Reason::NoSuchProcedure => "wamp.error.no_such_procedure"@,
            Reason::ProcedureAlreadyExists => "wamp.error.procedure_already_exists"@,
            Reason::NoSuchRegistration => "wamp.error.no_such_registration"@,
            Reason::NoSuchSubscription => "wamp.error.no_such_subscription"@,
            Reason::InvalidArgument => "wamp.error.invalid_argument"@,
            Reason::SystemShutdown => "wamp.close.system_shutdown"@,
            Reason::CloseRealm => "wamp.close.close_realm"@,
            Reason::GoodbyeAndOut => "wamp.close.goodbye_and_out"@,
            Reason::NotAuthorized => "wamp.error.not_authorized"@,
            Reason::AuthorizationFailed => "wamp.error.authorization_failed"@,
            Reason::NoSuchRealm => "wamp.error.no_such_realm"@,
            Reason::NoSuchRole => "wamp.error.no_such_role"@,
            Reason::Cancelled => "wamp.error.canceled"@,
            Reason::OptionNotAllowed => "wamp.error.option_not_allowed"@,
            Reason::NoEligibleCallee => "wamp.error.no_eligible_callee"@,
            Reason::NetworkFailure => "wamp.error.network_failure"@,
            Reason::NormalClose => "wamp.close.normal"@,
            Reason::CustomReason(name) => name.uri@,
        }
    }

    /// Whether a name is one of the predefined ones.
    pub open spec fn is_predefined(text: Seq<char>) -> bool {
        ||| text == "wamp.error.invalid_uri"@
        ||| text == "wamp.error.no_such_procedure"@
        ||| text == "wamp.error.procedure_already_exists"@
        ||| text == "wamp.error.no_such_registration"@
        ||| text == "wamp.error.no_such_subscription"@
        ||| text == "wamp.error.invalid_argument"@
        ||| text == "wamp.close.system_shutdown"@
        ||| text == "wamp.close.close_realm"@
        ||| text == "wamp.close.goodbye_and_out"@
        ||| text == "wamp.error.not_authorized"@
        ||| text == "wamp.error.authorization_failed"@
        ||| text == "wamp.error.no_such_realm"@
        ||| text == "wamp.error.no_such_role"@
        ||| text == "wamp.error.canceled"@
        ||| text == "wamp.error.option_not_allowed"@
        ||| text == "wamp.error.no_eligible_callee"@
        ||| text == "wamp.error.network_failure"@
        ||| text == "wamp.close.normal"@
    }

    /// The reason that goes by this name: the predefined one where there
    /// is one, a custom one otherwise.
    pub fn from_text(text: &str) -> (reason: Reason)
        ensures
            reason.text() == text@,
            reason is CustomReason <==> !Self::is_predefined(text@),
    {
        if same_text(text, "wamp.error.invalid_uri") {
            Reason::InvalidURI
        } else if same_text(text, "wamp.error.no_such_procedure") {
            Reason::NoSuchProcedure
        } else if same_text(text, "wamp.error.procedure_already_exists") {
            Reason::ProcedureAlreadyExists
        } else if same_text(text, "wamp.error.no_such_registration") {
            Reason::NoSuchRegistration
        } else if same_text(text, "wamp.error.no_such_subscription") {
            Reason::NoSuchSubscription
        } else if same_text(text, "wamp.error.invalid_argument") {
            Reason::InvalidArgument
        } else if same_text(text, "wamp.close.system_shutdown") {
            Reason::SystemShutdown
        } else if same_text(text, "wamp.close.close_realm") {
            Reason::CloseRealm
        } else if same_text(text, "wamp.close.goodbye_and_out") {
            Reason::GoodbyeAndOut
        } else if same_text(text, "wamp.error.not_authorized") {
            Reason::NotAuthorized
        } else if same_text(text, "wamp.error.authorization_failed") {
            Reason::AuthorizationFailed
        } else if same_text(text, "wamp.error.no_such_realm") {
            Reason::NoSuchRealm
        } else if same_text(text, "wamp.error.no_such_role") {
            Reason::NoSuchRole
        } else if same_text(text, "wamp.error.canceled") {
            Reason::Cancelled
        } else if same_text(text, "wamp.error.option_not_allowed") {
            Reason::OptionNotAllowed
        } else if same_text(text, "wamp.error.no_eligible_callee") {
            Reason::NoEligibleCallee
        } else if same_text(text, "wamp.error.network_failure") {
            Reason::NetworkFailure
        } else if same_text(text, "wamp.close.normal") {
            Reason::NormalClose
        } else {
            Reason::CustomReason(URI::new(text))
        }
    }

    pub fn get_string(&self) -> (r: String)
        ensures
            r@ == self.text(),
    {
        match self {
            Reason::InvalidURI => "wamp.error.invalid_uri".to_owned(),
            Reason::NoSuchProcedure => "wamp.error.no_such_procedure".to_owned(),
            Reason::ProcedureAlreadyExists => "wamp.error.procedure_already_exists".to_owned(),
            Reason::NoSuchRegistration => "wamp.error.no_such_registration".to_owned(),
            Reason::NoSuchSubscription => "wamp.error.no_such_subscription".to_owned(),
            Reason::InvalidArgument => "wamp.error.invalid_argument".to_owned(),
            Reason::SystemShutdown => "wamp.close.system_shutdown".to_owned(),
            Reason::CloseRealm => "wamp.close.close_realm".to_owned(),
            Reason::GoodbyeAndOut => "wamp.close.goodbye_and_out".to_owned(),
            Reason::NotAuthorized => "wamp.error.not_authorized".to_owned(),
            Reason::AuthorizationFailed => "wamp.error.authorization_failed".to_owned(),
            Reason::NoSuchRealm => "wamp.error.no_such_realm".to_owned(),
            Reason::NoSuchRole => "wamp.error.no_such_role".to_owned(),
            Reason::Cancelled => "wamp.error.canceled".to_owned(),
            Reason::OptionNotAllowed => "wamp.error.option_not_allowed".to_owned(),
            Reason::NoEligibleCallee => "wamp.error.no_eligible_callee".to_owned(),
            Reason::NetworkFailure => "wamp.error.network_failure".to_owned(),
            Reason::NormalClose => "wamp.close.normal".to_owned(),
            Reason::CustomReason(name) => name.uri.clone(),
        }
    }
}

/// The roles a client announces when it greets the router.
#[derive(Debug, Clone, Copy, PartialEq, Eq, Structural)]
pub struct ClientRoles {
    pub publisher: bool,
    pub subscriber: bool,
    pub caller: bool,
    pub callee: bool,
}

impl ClientRoles {
    /// All four roles.
    pub fn new() -> (r: ClientRoles)
        ensures
            r == (ClientRoles { publisher: true, subscriber: true, caller: true, callee: true }),
    {
        ClientRoles { publisher: true, subscriber: true, caller: true, callee: true }
    }
}

#[derive(Debug, Clone, Copy, PartialEq, Eq, Structural)]
pub struct HelloDetails {
    pub roles: ClientRoles,
}

impl HelloDetails {
    pub fn new(roles: ClientRoles) -> (r: HelloDetails)
        ensures
            r == (HelloDetails { roles }),
    {
        HelloDetails { roles }
    }
}

#[derive(Debug, Clone, PartialEq, Eq)]
pub struct WelcomeDetails {
    pub agent: Option<String>,
}

#[derive(Debug, Clone, PartialEq, Eq)]
pub struct ErrorDetails {
    pub message: Option<String>,
}

impl ErrorDetails {
    pub fn new() -> (r: ErrorDetails)
        ensures
            r == (ErrorDetails { message: None }),
    {
        ErrorDetails { message: None }
    }
}

#[derive(Debug, Clone, Copy, PartialEq, Eq, Structural)]
pub struct SubscribeOptions {
    pub pattern_match: MatchingPolicy,
}

impl SubscribeOptions {
    pub fn new() -> (r: SubscribeOptions)
        ensures
            r == (SubscribeOptions { pattern_match: MatchingPolicy::Strict }),
    {
        SubscribeOptions { pattern_match: MatchingPolicy::Strict }
    }
}

#[derive(Debug, Clone, Copy, PartialEq, Eq, Structural)]
pub struct RegisterOptions {
    pub pattern_match: MatchingPolicy,
}

impl RegisterOptions {
    pub fn new() -> (r: RegisterOptions)
        ensures
            r == (RegisterOptions { pattern_match: MatchingPolicy::Strict }),
    {
        RegisterOptions { pattern_match: MatchingPolicy::Strict }
    }
}

#[derive(Debug, Clone, Copy, PartialEq, Eq, Structural)]
pub struct PublishOptions {
    /// Whether the router is asked to confirm the publication.
    pub acknowledge: bool,
}

impl PublishOptions {
    pub fn new(acknowledge: bool) -> (r: PublishOptions)
        ensures
            r == (PublishOptions { acknowledge }),
    {
        PublishOptions { acknowledge }
    }
}

#[derive(Debug, Clone, Copy, PartialEq, Eq, Structural)]
pub struct CallOptions {}

impl CallOptions {
    pub fn new() -> (r: CallOptions)
        ensures
            r == (CallOptions {  }),
    {
        CallOptions {  }
    }
}

#[derive(Debug, Clone, Copy, PartialEq, Eq, Structural)]
pub struct YieldOptions {}

impl YieldOptions {
    pub fn new() -> (r: YieldOptions)
        ensures
            r == (YieldOptions {  }),
    {
        YieldOptions {  }
    }
}

#[derive(Debug, Clone, Copy, PartialEq, Eq, Structural)]
pub struct ResultDetails {}

#[derive(Debug, Clone, PartialEq, Eq)]
pub struct EventDetails {
    pub topic: Option<URI>,
}

#[derive(Debug, Clone, PartialEq, Eq)]
pub struct InvocationDetails {
    pub procedure: Option<URI>,
}

/// A failure reported for one operation: by the router, by a callee, or by
/// the session itself when the connection is lost.
#[derive(Debug, Clone, PartialEq)]
pub struct CallError<V> {
    pub reason: Reason,
    pub args: Option<List<V>>,
    pub kwargs: Option<Dict<V>>,
}

impl<V> CallError<V> {
    pub fn new(reason: Reason, args: Option<List<V>>, kwargs: Option<Dict<V>>) -> (r: CallError<V>)
        ensures
            r == (CallError { reason, args, kwargs }),
    {
        CallError { reason, args, kwargs }
    }

    pub fn to_tuple(self) -> (r: (Reason, Option<List<V>>, Option<Dict<V>>))
        ensures
            r == (self.reason, self.args, self.kwargs),
    {
        (self.reason, self.args, self.kwargs)
    }

    /// The failure given to every operation that is still outstanding when
    /// the connection goes away.
    pub open spec fn network_failure() -> CallError<V> {
        CallError { reason: Reason::NetworkFailure, args: None, kwargs: None }
    }
}

/// What a callee hands back: the result lists of the call, or its failure.
pub type CallResult<T, V> = Result<T, CallError<V>>;

/// One protocol message.
#[derive(Debug, Clone, PartialEq)]
pub enum Message<V> {
    Hello(URI, HelloDetails),
    Welcome(ID, WelcomeDetails),
    Goodbye(ErrorDetails, Reason),
    Error(ErrorType, ID, Dict<V>, Reason, Option<List<V>>, Option<Dict<V>>),
    Subscribe(ID, SubscribeOptions, URI),
    Subscribed(ID, ID),
    Unsubscribe(ID, ID),
    Unsubscribed(ID),
    Publish(ID, PublishOptions, URI, Option<List<V>>, Option<Dict<V>>),
    Published(ID, ID),
    Event(ID, ID, EventDetails, Option<List<V>>, Option<Dict<V>>),
    Register(ID, RegisterOptions, URI),
    Registered(ID, ID),
    Unregister(ID, ID),
    Unregistered(ID),
    Call(ID, CallOptions, URI, Option<List<V>>, Option<Dict<V>>),
    Invocation(ID, ID, InvocationDetails, Option<List<V>>, Option<Dict<V>>),
    Yield(ID, YieldOptions, Option<List<V>>, Option<Dict<V>>),
    Result(ID, ResultDetails, Option<List<V>>, Option<Dict<V>>),
}

impl<V> Message<V> {
    /// The number that opens the message on the wire.
    pub open spec fn code_of(self) -> u64 {
        match self {
            Message::Hello(..) => 1,
            Message::Welcome(..) => 2,
            Message::Goodbye(..) => 6,
            Message::Error(..) => 8,
            Message::Publish(..) => 16,
            Message::Published(..) => 17,
            Message::Subscribe(..) => 32,
            Message::Subscribed(..) => 33,
            Message::Unsubscribe(..) => 34,
            Message::Unsubscribed(..) => 35,
            Message::Event(..) => 36,
            Message::Call(..) => 48,
            Message::Result(..) => 50,
            Message::Register(..) => 64,
            Message::Registered(..) => 65,
            Message::Unregister(..) => 66,
            Message::Unregistered(..) => 67,
            Message::Invocation(..) => 68,
            Message::Yield(..) => 70,
        }
    }

    pub fn code(&self) -> (code: u64)
        ensures
            code == self.code_of(),
    {
        match self {
            Message::Hello(..) => 1,
            Message::Welcome(..) => 2,
            Message::Goodbye(..) => 6,
            Message::Error(..) => 8,
            Message::Publish(..) => 16,
            Message::Published(..) => 17,
            Message::Subscribe(..) => 32,
            Message::Subscribed(..) => 33,
            Message::Unsubscribe(..) => 34,
            Message::Unsubscribed(..) => 35,
            Message::Event(..) => 36,
            Message::Call(..) => 48,
            Message::Result(..) => 50,
            Message::Register(..) => 64,
            Message::Registered(..) => 65,
            Message::Unregister(..) => 66,
            Message::Unregistered(..) => 67,
            Message::Invocation(..) => 68,
            Message::Yield(..) => 70,
        }
    }
}

/// The positional arguments of a message, an absent list read as the empty one.
pub open spec fn list_or_empty<V>(args: Option<List<V>>) -> Seq<V> {
    match args {
        Some(list) => list@,
        None => Seq::empty(),
    }
}

/// The keyword arguments of a message, an absent dictionary read as the empty one.
pub open spec fn dict_or_empty<V>(kwargs: Option<Dict<V>>) -> Map<String, V> {
    match kwargs {
        Some(dict) => dict@,
        None => Map::empty(),
    }
}

/// Unpacks positional arguments, giving the empty list where there are none.
pub fn positional<V>(args: Option<List<V>>) -> (r: List<V>)
    ensures
        r@ == list_or_empty(args),
        args matches Some(list) ==> r == list,
{
    match args {
        Some(list) => list,
        None => Vec::new(),
    }
}

/// Unpacks keyword arguments, giving the empty dictionary where there are none.
pub fn keyword<V>(kwargs: Option<Dict<V>>) -> (r: Dict<V>)
    ensures
        r@ == dict_or_empty(kwargs),
        kwargs matches Some(dict) ==> r == dict,
{
    match kwargs {
        Some(dict) => dict,
        None => HashMap::new(),
    }
}

} // verus!
