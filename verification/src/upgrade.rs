//! The upgrade negotiation: which request a client sends, what it accepts as
//! the answer, and the steps between the two.

use vstd::prelude::*;
use vstd::string::StringExecFns;
use crate::handshake::{accept_text, base64_text, expected_accept, generate_key, HandshakeKey};
use crate::text::same_text;

verus! {

/// A handshake that did not end in a connection. Each failure is terminal.
#[derive(Clone, Copy, Debug, PartialEq, Eq, Structural)]
pub enum HttpUpgradeError {
    /// The address has no scheme, or one that is none of `ws`, `wss`,
    /// `http` and `https`.
    UnsupportedScheme,
    /// The HTTP exchange itself failed.
    TransportFailed,
    /// The server answered with a status other than 101; the status is kept.
    SwitchingProtocolsNotSupported(u16),
    /// The answer has no `Sec-WebSocket-Accept` header.
    NoAcceptHeader,
    /// The `Sec-WebSocket-Accept` header is not the expected value.
    WrongAcceptHeader,
    /// The HTTP layer did not hand over the byte stream.
    UpgradeFailed,
}

impl HttpUpgradeError {
    /// The text that `description` gives for each failure.
    pub open spec fn description_spec(self) -> Seq<char> {
        match self {
            HttpUpgradeError::UnsupportedScheme => "Unsupported URI scheme"@,
            HttpUpgradeError::TransportFailed => "HTTP transport failed"@,
            HttpUpgradeError::SwitchingProtocolsNotSupported(_) =>
                "Switching protocols not supported"@,
            HttpUpgradeError::NoAcceptHeader => "No Accept header"@,
            HttpUpgradeError::WrongAcceptHeader => "Wrong Accept header"@,
            HttpUpgradeError::UpgradeFailed => "Upgrade failed"@,
        }
    }

    /// A short text that says what went wrong.
    pub fn description(&self) -> (text: &'static str)
        ensures
            text@ == self.description_spec(),
    {
        match self {
            HttpUpgradeError::UnsupportedScheme => "Unsupported URI scheme",
            HttpUpgradeError::TransportFailed => "HTTP transport failed",
            HttpUpgradeError::SwitchingProtocolsNotSupported(_) =>
                "Switching protocols not supported",
            HttpUpgradeError::NoAcceptHeader => "No Accept header",
            HttpUpgradeError::WrongAcceptHeader => "Wrong Accept header",
            HttpUpgradeError::UpgradeFailed => "Upgrade failed",
        }
    }

    /// The failure as a line of text: the name of the type, a colon and the
    /// description.
    pub fn to_text(&self) -> (text: String)
        ensures
            text@ == "HttpUpgradeError: "@ + self.description_spec(),
    {
        String::from_str("HttpUpgradeError: ").concat(self.description())
    }

    /// The status that the server answered with, where that is the failure.
    pub fn status(&self) -> (status: Option<u16>)
        ensures
            status == match *self {
                HttpUpgradeError::SwitchingProtocolsNotSupported(code) => Some(code),
                _ => None,
            },
    {
        match self {
            HttpUpgradeError::SwitchingProtocolsNotSupported(code) => Some(*code),
            _ => None,
        }
    }
}

/// The scheme of the HTTP request that carries the handshake.
#[derive(Clone, Copy, Debug, PartialEq, Eq, Structural)]
pub enum HttpScheme {
    Http,
    Https,
}

/// The status of the answer that switches protocols.
pub const SWITCHING_PROTOCOLS: u16 = 101;

/// The HTTP scheme for the scheme of an address: `ws` and `http` go over
/// `http`, `wss` and `https` over `https`; there is none for any other.
pub open spec fn scheme_for(scheme: Seq<char>) -> Option<HttpScheme> {
    if scheme == "ws"@ || scheme == "http"@ {
        Some(HttpScheme::Http)
    } else if scheme == "wss"@ || scheme == "https"@ {
        Some(HttpScheme::Https)
    } else {
        None
    }
}

/// The HTTP scheme for the scheme of an address, or the failure
/// `UnsupportedScheme`.
pub fn http_scheme(scheme: &str) -> (r: Result<HttpScheme, HttpUpgradeError>)
    ensures
        r == match scheme_for(scheme@) {
            Some(found) => Ok::<HttpScheme, HttpUpgradeError>(found),
            None => Err(HttpUpgradeError::UnsupportedScheme),
        },
{
    if same_text(scheme, "ws") || same_text(scheme, "http") {
        Ok(HttpScheme::Http)
    } else if same_text(scheme, "wss") || same_text(scheme, "https") {
        Ok(HttpScheme::Https)
    } else {
        Err(HttpUpgradeError::UnsupportedScheme)
    }
}

impl HttpScheme {
    /// The scheme as it stands in an address.
    pub fn as_str(&self) -> (text: &'static str)
        ensures
            text@ == match *self {
                HttpScheme::Http => "http"@,
                HttpScheme::Https => "https"@,
            },
    {
        match self {
            HttpScheme::Http => "http",
            HttpScheme::Https => "https",
        }
    }
}

/// The view of a text that may be absent.
pub open spec fn text_view(text: Option<String>) -> Option<Seq<char>> {
    match text {
        Some(s) => Some(s@),
        None => None,
    }
}

fn clone_text(text: &Option<String>) -> (copy: Option<String>)
    ensures
        text_view(copy) == text_view(*text),
{
    match text {
        Some(s) => Some(s.clone()),
        None => None,
    }
}

/// The address to connect to, in its parts.
#[derive(Clone, Debug, PartialEq, Eq)]
pub struct Target {
    pub scheme: Option<String>,
    pub authority: Option<String>,
    pub path_and_query: Option<String>,
    /// The host of the authority, for the `Host` header.
    pub host: Option<String>,
}

/// `Target` as a mathematical value.
#[verifier::ext_equal]
pub struct TargetView {
    pub scheme: Option<Seq<char>>,
    pub authority: Option<Seq<char>>,
    pub path_and_query: Option<Seq<char>>,
    pub host: Option<Seq<char>>,
}

impl View for Target {
    type V = TargetView;

    open spec fn view(&self) -> TargetView {
        TargetView {
            scheme: text_view(self.scheme),
            authority: text_view(self.authority),
            path_and_query: text_view(self.path_and_query),
            host: text_view(self.host),
        }
    }
}

/// One header of a request.
#[derive(Clone, Debug, PartialEq, Eq)]
pub struct Header {
    pub name: String,
    pub value: String,
}

impl View for Header {
    type V = (Seq<char>, Seq<char>);

    open spec fn view(&self) -> (Seq<char>, Seq<char>) {
        (self.name@, self.value@)
    }
}

/// The request that carries the handshake: a GET without a body.
#[derive(Clone, Debug, PartialEq, Eq)]
pub struct UpgradeRequest {
    pub scheme: HttpScheme,
    pub authority: Option<String>,
    pub path_and_query: Option<String>,
    pub headers: Vec<Header>,
}

/// `UpgradeRequest` as a mathematical value.
#[verifier::ext_equal]
pub struct RequestView {
    pub scheme: HttpScheme,
    pub authority: Option<Seq<char>>,
    pub path_and_query: Option<Seq<char>>,
    pub headers: Seq<(Seq<char>, Seq<char>)>,
}

impl View for UpgradeRequest {
    type V = RequestView;

    open spec fn view(&self) -> RequestView {
        RequestView {
            scheme: self.scheme,
            authority: text_view(self.authority),
            path_and_query: text_view(self.path_and_query),
            headers: self.headers@.map_values(|header: Header| header@),
        }
    }
}

impl UpgradeRequest {
    /// The method of the request. Its body is empty.
    pub fn method(&self) -> (method: &'static str)
        ensures
            method@ == "GET"@,
    {
        "GET"
    }
}

/// The headers of the handshake request, in the order in which they are
/// set: the four that every request has, and `Host` where a host is known.
pub open spec fn upgrade_headers(key: Seq<char>, host: Option<Seq<char>>) -> Seq<
    (Seq<char>, Seq<char>),
> {
    let fixed = seq![
        ("Upgrade"@, "websocket"@),
        ("Connection"@, "Upgrade"@),
        ("Sec-WebSocket-Version"@, "13"@),
        ("Sec-WebSocket-Key"@, key),
    ];
    match host {
        Some(name) => fixed.push(("Host"@, name)),
        None => fixed,
    }
}

/// The request for an address and a key in base64: the scheme rewritten,
/// authority, path and query as they were, and the handshake headers. An
/// address without a supported scheme has none.
pub open spec fn request_for(target: TargetView, key: Seq<char>) -> Result<
    RequestView,
    HttpUpgradeError,
> {
    match target.scheme {
        None => Err(HttpUpgradeError::UnsupportedScheme),
        Some(scheme) => match scheme_for(scheme) {
            None => Err(HttpUpgradeError::UnsupportedScheme),
            Some(found) => Ok(
                RequestView {
                    scheme: found,
                    authority: target.authority,
                    path_and_query: target.path_and_query,
                    headers: upgrade_headers(key, target.host),
                },
            ),
        },
    }
}

fn header(name: &str, value: &str) -> (header: Header)
    ensures
        header@ == (name@, value@),
{
    Header { name: name.to_owned(), value: value.to_owned() }
}

/// The request that opens the handshake with `target`, for the key whose
/// base64 text is `key`.
pub fn upgrade_request(target: &Target, key: &str) -> (r: Result<UpgradeRequest, HttpUpgradeError>)
    ensures
        match request_for(target@, key@) {
            Ok(request) => r matches Ok(got) && got@ == request,
            Err(e) => r matches Err(got) && got == e,
        },
{
    let scheme = match &target.scheme {
        None => {
            return Err(HttpUpgradeError::UnsupportedScheme);
        },
        Some(text) => match http_scheme(text.as_str()) {
            Err(e) => {
                return Err(e);
            },
            Ok(found) => found,
        },
    };
    let mut headers: Vec<Header> = Vec::new();
    headers.push(header("Upgrade", "websocket"));
    headers.push(header("Connection", "Upgrade"));
    headers.push(header("Sec-WebSocket-Version", "13"));
    headers.push(header("Sec-WebSocket-Key", key));
    match &target.host {
        Some(name) => {
            headers.push(header("Host", name.as_str()));
        },
        None => {},
    }
    let request = UpgradeRequest {
        scheme,
        authority: clone_text(&target.authority),
        path_and_query: clone_text(&target.path_and_query),
        headers,
    };
    assert(request@.headers =~= upgrade_headers(key@, target@.host));
    Ok(request)
}

/// What an answer is worth: it has the status 101, it has an accept
/// header, and the header is the expected value, byte for byte. The first
/// that fails decides.
pub open spec fn response_check(status: u16, accept: Option<Seq<char>>, expected: Seq<char>)
    -> Result<(), HttpUpgradeError> {
    if status != SWITCHING_PROTOCOLS {
        Err(HttpUpgradeError::SwitchingProtocolsNotSupported(status))
    } else {
        match accept {
            None => Err(HttpUpgradeError::NoAcceptHeader),
            Some(value) => if value == expected {
                Ok(())
            } else {
                Err(HttpUpgradeError::WrongAcceptHeader)
            },
        }
    }
}

/// Holds the server's answer to the expected accept value.
pub fn check_response(status: u16, accept: Option<&str>, expected: &str) -> (r: Result<
    (),
    HttpUpgradeError,
>)
    ensures
        r == response_check(
            status,
            match accept {
                Some(value) => Some(value@),
                None => None,
            },
            expected@,
        ),
{
    if status != SWITCHING_PROTOCOLS {
        return Err(HttpUpgradeError::SwitchingProtocolsNotSupported(status));
    }
    match accept {
        None => Err(HttpUpgradeError::NoAcceptHeader),
        Some(value) => if same_text(value, expected) {
            Ok(())
        } else {
            Err(HttpUpgradeError::WrongAcceptHeader)
        },
    }
}

/// Where a negotiation stands.
#[derive(Clone, Debug, PartialEq, Eq)]
pub enum Negotiation {
    /// Nothing was sent yet.
    Start,
    /// The request is out; the answer has to carry `expected`.
    AwaitingResponse { expected: String },
    /// The answer was accepted; the byte stream is to be handed over.
    AwaitingUpgrade,
    /// The byte stream is there: framing starts.
    Established,
    /// The negotiation failed.
    Failed(HttpUpgradeError),
}

/// What happened outside.
#[derive(Clone, Debug, PartialEq, Eq)]
pub enum Event {
    /// A connection is asked for, with the key in base64 and the accept
    /// value that answers it.
    Open { target: Target, key: String, expected: String },
    /// The HTTP exchange failed.
    TransportFailed,
    /// The answer came, with its status and its accept header.
    Response { status: u16, accept: Option<String> },
    /// The HTTP layer handed the byte stream over.
    Upgraded,
    /// The HTTP layer did not hand the byte stream over.
    UpgradeRefused,
}

/// What is to be done outside.
#[derive(Clone, Debug, PartialEq, Eq)]
pub enum Action {
    /// Send this request and report the answer.
    Send(UpgradeRequest),
    /// Take the byte stream over from the HTTP layer.
    TakeOver,
    /// Hand the byte stream to the codec.
    StartFraming,
    /// Give up with this failure.
    Fail(HttpUpgradeError),
    /// The event was not awaited: nothing is to be done.
    Nothing,
}

/// `Negotiation` as a mathematical value.
#[verifier::ext_equal]
pub enum NegotiationView {
    Start,
    AwaitingResponse { expected: Seq<char> },
    AwaitingUpgrade,
    Established,
    Failed(HttpUpgradeError),
}

/// `Event` as a mathematical value.
#[verifier::ext_equal]
pub enum EventView {
    Open { target: TargetView, key: Seq<char>, expected: Seq<char> },
    TransportFailed,
    Response { status: u16, accept: Option<Seq<char>> },
    Upgraded,
    UpgradeRefused,
}

/// `Action` as a mathematical value.
#[verifier::ext_equal]
pub enum ActionView {
    Send(RequestView),
    TakeOver,
    StartFraming,
    Fail(HttpUpgradeError),
    Nothing,
}

impl View for Negotiation {
    type V = NegotiationView;

    open spec fn view(&self) -> NegotiationView {
        match self {
            Negotiation::Start => NegotiationView::Start,
            Negotiation::AwaitingResponse { expected } => NegotiationView::AwaitingResponse {
                expected: expected@,
            },
            Negotiation::AwaitingUpgrade => NegotiationView::AwaitingUpgrade,
            Negotiation::Established => NegotiationView::Established,
            Negotiation::Failed(e) => NegotiationView::Failed(*e),
        }
    }
}

impl View for Event {
    type V = EventView;

    open spec fn view(&self) -> EventView {
        match self {
            Event::Open { target, key, expected } => EventView::Open {
                target: target@,
                key: key@,
                expected: expected@,
            },
            Event::TransportFailed => EventView::TransportFailed,
            Event::Response { status, accept } => EventView::Response {
                status: *status,
                accept: text_view(*accept),
            },
            Event::Upgraded => EventView::Upgraded,
            Event::UpgradeRefused => EventView::UpgradeRefused,
        }
    }
}

impl View for Action {
    type V = ActionView;

    open spec fn view(&self) -> ActionView {
        match self {
            Action::Send(request) => ActionView::Send(request@),
            Action::TakeOver => ActionView::TakeOver,
            Action::StartFraming => ActionView::StartFraming,
            Action::Fail(e) => ActionView::Fail(*e),
            Action::Nothing => ActionView::Nothing,
        }
    }
}

/// The state and the action after a failure.
pub open spec fn failed(e: HttpUpgradeError) -> (NegotiationView, ActionView) {
    (NegotiationView::Failed(e), ActionView::Fail(e))
}

/// One step of the negotiation: the state after `event`, and what is to be
/// done.
///
/// At the start, a connection that is asked for has its request sent, where
/// the address has one. While the answer is awaited, a failed exchange
/// fails, and an answer is held to `response_check`: a good one has the byte
/// stream taken over. While the stream is awaited, its arrival starts the
/// framing and its refusal fails. An event that the state does not await
/// changes nothing.
pub open spec fn step_spec(state: NegotiationView, event: EventView) -> (
    NegotiationView,
    ActionView,
) {
    match (state, event) {
        (NegotiationView::Start, EventView::Open { target, key, expected }) => match request_for(
            target,
            key,
        ) {
            Ok(request) => (
                NegotiationView::AwaitingResponse { expected },
                ActionView::Send(request),
            ),
            Err(e) => failed(e),
        },
        (NegotiationView::AwaitingResponse { .. }, EventView::TransportFailed) => failed(
            HttpUpgradeError::TransportFailed,
        ),
        (
            NegotiationView::AwaitingResponse { expected },
            EventView::Response { status, accept },
        ) => match response_check(status, accept, expected) {
            Ok(()) => (NegotiationView::AwaitingUpgrade, ActionView::TakeOver),
            Err(e) => failed(e),
        },
        (NegotiationView::AwaitingUpgrade, EventView::Upgraded) => (
            NegotiationView::Established,
            ActionView::StartFraming,
        ),
        (NegotiationView::AwaitingUpgrade, EventView::UpgradeRefused) => failed(
            HttpUpgradeError::UpgradeFailed,
        ),
        _ => (state, ActionView::Nothing),
    }
}

fn fail(e: HttpUpgradeError) -> (r: (Negotiation, Action))
    ensures
        (r.0@, r.1@) == failed(e),
{
    (Negotiation::Failed(e), Action::Fail(e))
}

/// Takes one event: the state afterwards, and what is to be done.
pub fn step(state: Negotiation, event: Event) -> (r: (Negotiation, Action))
    ensures
        (r.0@, r.1@) == step_spec(state@, event@),
{
    match state {
        Negotiation::Start => match event {
            Event::Open { target, key, expected } => match upgrade_request(&target, key.as_str()) {
                Ok(request) => (Negotiation::AwaitingResponse { expected }, Action::Send(request)),
                Err(e) => fail(e),
            },
            _ => (Negotiation::Start, Action::Nothing),
        },
        Negotiation::AwaitingResponse { expected } => match event {
            Event::TransportFailed => fail(HttpUpgradeError::TransportFailed),
            Event::Response { status, accept } => {
                let checked = match &accept {
                    Some(value) => check_response(status, Some(value.as_str()), expected.as_str()),
                    None => check_response(status, None, expected.as_str()),
                };
                match checked {
                    Ok(()) => (Negotiation::AwaitingUpgrade, Action::TakeOver),
                    Err(e) => fail(e),
                }
            },
            _ => (Negotiation::AwaitingResponse { expected }, Action::Nothing),
        },
        Negotiation::AwaitingUpgrade => match event {
            Event::Upgraded => (Negotiation::Established, Action::StartFraming),
            Event::UpgradeRefused => fail(HttpUpgradeError::UpgradeFailed),
            _ => (Negotiation::AwaitingUpgrade, Action::Nothing),
        },
        Negotiation::Established => (Negotiation::Established, Action::Nothing),
        Negotiation::Failed(e) => (Negotiation::Failed(e), Action::Nothing),
    }
}

/// The event that asks for a connection to `target` with the given key: it
/// carries the key in base64 and the accept value that answers the key.
pub fn open_with_key(target: Target, key: &HandshakeKey) -> (event: Event)
    ensures
        event@ == (EventView::Open {
            target: target@,
            key: base64_text(key@),
            expected: accept_text(key@),
        }),
{
    Event::Open {
        target,
        key: key.serialize(),
        expected: expected_accept(key).serialize(),
    }
}

/// The event that asks for a connection to `target` with a fresh random
/// key, and the key.
pub fn open(target: Target) -> (r: (HandshakeKey, Event))
    ensures
        r.1@ == (EventView::Open {
            target: target@,
            key: base64_text(r.0@),
            expected: accept_text(r.0@),
        }),
{
    let key = generate_key();
    let event = open_with_key(target, &key);
    (key, event)
}

} // verus!
