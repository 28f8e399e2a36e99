//! The opening handshake: which subprotocols a request offers and which one
//! the response settles on.

use vstd::prelude::*;
use ws::Error as WSError;

verus! {

/// The subprotocols a request offers, in the order of preference, as
/// `ws::Request::protocols` reads them from the request's headers; `None`
/// where that header is not text.
pub uninterp spec fn offered_protocols(request: ws::Request) -> Option<Seq<Seq<char>>>;

/// Whether a name can stand in a list of subprotocols as it is: printable
/// ASCII without blanks or commas.
pub open spec fn is_token(name: Seq<char>) -> bool {
    forall|i: int| 0 <= i < name.len() ==> 0x21 <= #[trigger] name[i] as u32 <= 0x7e && name[i] != ','
}

/// Whether `ws::Request::from_url` builds a request for an address. Its
/// source gives up in one place only, where the address names no host, so
/// whether it succeeds depends on the address alone. (The request it builds
/// does not: it holds a key drawn at random.)
pub uninterp spec fn can_request(url: url::Url) -> bool;

/// Calls `ws::Request::from_url`, which builds the upgrade request for an
/// address and fails exactly where the address names no host. The request
/// it builds has no subprotocol header, so it offers none.
#[verifier::external_body]
pub(crate) fn request_from_url(url: &url::Url) -> (made: Result<ws::Request, WSError>)
    ensures
        made is Ok <==> can_request(*url),
        made matches Ok(request) ==> offered_protocols(request) == Some(
            Seq::<Seq<char>>::empty(),
        ),
{
    ws::Request::from_url(url)
}

/// Calls `ws::Request::add_protocol`, which appends the name to the
/// subprotocol header, after a comma where the header exists. Reading the
/// header back splits at commas and trims blanks, so a name without either
/// comes out as the last offer.
#[verifier::external_body]
pub(crate) fn add_protocol(request: &mut ws::Request, protocol: &str)
    requires
        is_token(protocol@),
    ensures
        offered_protocols(*old(request)) matches Some(offers) ==> offered_protocols(
            *final(request),
        ) == Some(offers.push(protocol@)),
{
    request.add_protocol(protocol)
}

/// The subprotocol a response settles on, as `ws::Response::protocol`
/// reads it from the response's headers: `Some(None)` where the header is
/// missing, `None` where it is not text.
pub uninterp spec fn selected_protocol(response: ws::Response) -> Option<Option<Seq<char>>>;

/// The text of a name that may be absent.
pub open spec fn name_of(selected: Option<String>) -> Option<Seq<char>> {
    match selected {
        Some(name) => Some(name@),
        None => None,
    }
}

/// Calls `ws::Response::protocol`, which reads the subprotocol the server
/// settled on from the response's headers: none where the header is
/// missing, an error where it is not text. The name is copied out.
#[verifier::external_body]
pub(crate) fn accepted_protocol(response: &ws::Response) -> (read: Result<Option<String>, WSError>)
    ensures
        read matches Ok(selected) ==> selected_protocol(*response) == Some(name_of(selected)),
        read is Err ==> selected_protocol(*response) is None,
{
    response.protocol().map(|selected| selected.map(|name| name.to_string()))
}

} // verus!
