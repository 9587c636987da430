//! Framing of protocol messages, classification of responses, the message
//! identifier counter, and the single-retry policy of an exchange.
//!
//! The session itself (socket, handshake, encryption) lives with the caller.
//! An [`Exchange`] tells the caller what to do next ([`Action`]) and is told
//! what happened; it decides when to reconnect, when to retry and when to
//! give up.

use vstd::prelude::*;
use coap_lite::{CoapRequest, Packet, RequestType};

verus! {

/// How many times one request is written to a session before giving up.
pub const MAX_ATTEMPTS: u8 = 2;

/// Ways an operation on the gateway fails.
#[derive(Debug)]
pub enum ClientError {
    /// A session could not be established (address, bind or handshake).
    Connect(String),
    /// Reading or writing the session failed on every attempt.
    Transport(String),
    /// The gateway answered with a response code that is not a success.
    Rejected { code: u8, text: String },
    /// A request could not be framed, or a response body could not be read.
    Malformed(String),
}

/// Request methods used against the gateway.
#[derive(Debug, Clone, Copy, PartialEq, Eq)]
pub enum Method {
    Get,
    Put,
}

/// A decoded response: its code byte (class in the top three bits, detail
/// in the low five) and its payload.
#[derive(Debug, Clone)]
pub struct Response {
    pub code: u8,
    pub payload: Vec<u8>,
}

/// What the caller of an exchange has to do next.
#[derive(Debug, Clone, Copy, PartialEq, Eq)]
pub enum Action {
    /// Establish a fresh session, then report with `on_connected`.
    Connect,
    /// Write the request to the session, read one datagram, and report it
    /// with `on_reply`.
    Send,
    /// The exchange is over; take its result with `Messenger::finish`.
    Finish,
}

/// Bytes of a request as coap_lite serialises it, or `None` when it
/// refuses to.
pub uninterp spec fn coap_request_bytes(
    put: bool,
    path: Seq<char>,
    msg_id: u16,
    payload: Seq<char>,
) -> Option<Seq<u8>>;

/// Code byte and payload of a datagram as coap_lite parses it, or `None`
/// when the bytes are not a message.
pub uninterp spec fn coap_response_of(bytes: Seq<u8>) -> Option<(u8, Seq<u8>)>;

/// Text of bytes decoded as UTF-8, invalid sequences replaced.
pub uninterp spec fn utf8_lossy_of(bytes: Seq<u8>) -> Seq<char>;

pub open spec fn opt_bytes(v: Option<Vec<u8>>) -> Option<Seq<u8>> {
    match v {
        Some(b) => Some(b@),
        None => None,
    }
}

/// Relies on coap_lite's `CoapRequest` (`new`, `set_method`, `set_path`)
/// and `Packet::to_bytes`: a confirmable request with the given method,
/// path, message id and payload, serialised.
#[verifier::external_body]
fn encode_request(put: bool, path: &str, msg_id: u16, payload: &str) -> (r: Option<Vec<u8>>)
    ensures
        opt_bytes(r) == coap_request_bytes(put, path@, msg_id, payload@),
{
    let mut request: CoapRequest<()> = CoapRequest::new();
    request.set_method(if put { RequestType::Put } else { RequestType::Get });
    request.set_path(path);
    request.message.header.message_id = msg_id;
    request.message.payload = payload.as_bytes().to_vec();
    request.message.to_bytes().ok()
}

/// Relies on coap_lite's `Packet::from_bytes`, and on its conversion of the
/// header's `MessageClass` to the code byte.
#[verifier::external_body]
fn decode_response(bytes: &[u8]) -> (r: Option<(u8, Vec<u8>)>)
    ensures
        match r {
            Some((code, payload)) => coap_response_of(bytes@) == Some((code, payload@)),
            None => coap_response_of(bytes@) is None,
        },
{
    match Packet::from_bytes(bytes) {
        Ok(packet) => Some((u8::from(packet.header.code), packet.payload)),
        Err(_) => None,
    }
}

/// Relies on `String::from_utf8_lossy`.
#[verifier::external_body]
fn lossy_text(bytes: &[u8]) -> (r: String)
    ensures
        r@ == utf8_lossy_of(bytes@),
{
    String::from_utf8_lossy(bytes).into_owned()
}

/// Success codes: created, deleted, valid, changed, content (2.01 to 2.05).
pub open spec fn is_success_code(code: u8) -> bool {
    0x41 <= code <= 0x45
}

/// Hands back the payload of a response with a success code, and turns
/// any other code into a rejection that carries the code and the payload's
/// text.
pub fn check_response(response: Response) -> (r: Result<Vec<u8>, ClientError>)
    ensures
        r is Err <==> !is_success_code(response.code),
        r matches Ok(p) ==> p@ == response.payload@,
        r matches Err(e) ==> (e matches ClientError::Rejected { code, text } && code
            == response.code && text@ == utf8_lossy_of(response.payload@)),
{
    let code = response.code;
    if !(0x41 <= code && code <= 0x45) {
        let text = lossy_text(response.payload.as_slice());
        Err(ClientError::Rejected { code, text })
    } else {
        Ok(response.payload)
    }
}

/// How an exchange ended, in terms of plain values.
pub enum EndView {
    Answered { code: u8, payload: Seq<u8> },
    ConnectFailed(Seq<char>),
    TransportFailed(Seq<char>),
}

/// The state of an exchange: whether its session is up, how many attempts
/// have failed, and how it ended, if it has.
pub struct ExchangeView {
    pub connected: bool,
    pub failures: nat,
    pub end: Option<EndView>,
}

/// How an exchange ended.
pub enum Ended {
    Answered(Response),
    ConnectFailed(String),
    TransportFailed(String),
}

impl Ended {
    pub open spec fn view(&self) -> EndView {
        match self {
            Ended::Answered(r) => EndView::Answered { code: r.code, payload: r.payload@ },
            Ended::ConnectFailed(m) => EndView::ConnectFailed(m@),
            Ended::TransportFailed(m) => EndView::TransportFailed(m@),
        }
    }
}

/// One request on its way through the session, with at most one retry on a
/// freshly established session.
pub struct Exchange {
    pub request: Vec<u8>,
    pub connected: bool,
    pub failures: u8,
    pub end: Option<Ended>,
}

/// State of an exchange that has not started.
pub open spec fn start_view(connected: bool) -> ExchangeView {
    ExchangeView { connected, failures: 0, end: None }
}

/// What to do next in a given state.
pub open spec fn action_of(v: ExchangeView) -> Action {
    if v.end is Some {
        Action::Finish
    } else if !v.connected {
        Action::Connect
    } else {
        Action::Send
    }
}

/// The state after a failed attempt: the session is dropped, and the
/// exchange ends once the attempts are used up.
pub open spec fn failed_attempt(v: ExchangeView, msg: Seq<char>) -> ExchangeView {
    ExchangeView {
        connected: false,
        failures: v.failures + 1,
        end: if v.failures + 1 >= MAX_ATTEMPTS {
            Some(EndView::TransportFailed(msg))
        } else {
            None
        },
    }
}

/// The state after trying to establish a session.
pub open spec fn after_connect(v: ExchangeView, result: Result<(), Seq<char>>) -> ExchangeView {
    match result {
        Ok(_) => ExchangeView { connected: true, ..v },
        Err(msg) => ExchangeView { end: Some(EndView::ConnectFailed(msg)), ..v },
    }
}

/// Message recorded when a datagram is not a protocol message.
pub open spec fn malformed_reply_msg() -> Seq<char> {
    "malformed response"@
}

/// The state after an attempt to write the request and read one datagram.
pub open spec fn after_reply(v: ExchangeView, reply: Result<Seq<u8>, Seq<char>>) -> ExchangeView {
    match reply {
        Ok(bytes) => match coap_response_of(bytes) {
            Some((code, payload)) => ExchangeView {
                end: Some(EndView::Answered { code, payload }),
                ..v
            },
            None => failed_attempt(v, malformed_reply_msg()),
        },
        Err(msg) => failed_attempt(v, msg),
    }
}

pub open spec fn unit_result(r: Result<(), String>) -> Result<(), Seq<char>> {
    match r {
        Ok(_) => Ok(()),
        Err(m) => Err(m@),
    }
}

pub open spec fn reply_result(r: Result<Vec<u8>, String>) -> Result<Seq<u8>, Seq<char>> {
    match r {
        Ok(b) => Ok(b@),
        Err(m) => Err(m@),
    }
}

impl Exchange {
    pub open spec fn view(&self) -> ExchangeView {
        ExchangeView {
            connected: self.connected,
            failures: self.failures as nat,
            end: match self.end {
                Some(e) => Some(e.view()),
                None => None,
            },
        }
    }

    /// Attempts stay within the limit, and a running exchange has one left.
    pub open spec fn wf(&self) -> bool {
        &&& self.failures <= MAX_ATTEMPTS
        &&& self.end is None ==> self.failures < MAX_ATTEMPTS
    }

    /// What the caller has to do next.
    pub fn next_action(&self) -> (r: Action)
        ensures
            r == action_of(self@),
    {
        if self.end.is_some() {
            Action::Finish
        } else if !self.connected {
            Action::Connect
        } else {
            Action::Send
        }
    }

    /// Whether the exchange still holds a usable session; once this turns
    /// false the caller drops its session.
    pub fn is_connected(&self) -> (r: bool)
        ensures
            r == self.connected,
    {
        self.connected
    }

    /// Reports the outcome of establishing a session.
    pub fn on_connected(&mut self, result: Result<(), String>)
        requires
            old(self).wf(),
            action_of(old(self)@) == Action::Connect,
        ensures
            final(self).wf(),
            final(self)@ == after_connect(old(self)@, unit_result(result)),
            final(self).request == old(self).request,
    {
        match result {
            Ok(()) => {
                self.connected = true;
            },
            Err(msg) => {
                self.end = Some(Ended::ConnectFailed(msg));
            },
        }
    }

    fn fail_attempt(&mut self, msg: String)
        requires
            old(self).wf(),
            old(self).end is None,
        ensures
            final(self).wf(),
            final(self)@ == failed_attempt(old(self)@, msg@),
            final(self).request == old(self).request,
    {
        self.connected = false;
        self.failures = self.failures + 1;
        if self.failures >= MAX_ATTEMPTS {
            self.end = Some(Ended::TransportFailed(msg));
        }
    }

    /// Reports what came back from writing the request and reading one
    /// datagram: its bytes, or the I/O error.
    pub fn on_reply(&mut self, reply: Result<Vec<u8>, String>)
        requires
            old(self).wf(),
            action_of(old(self)@) == Action::Send,
        ensures
            final(self).wf(),
            final(self)@ == after_reply(old(self)@, reply_result(reply)),
            final(self).request == old(self).request,
    {
        match reply {
            Ok(bytes) => match decode_response(bytes.as_slice()) {
                Some((code, payload)) => {
                    self.end = Some(Ended::Answered(Response { code, payload }));
                },
                None => {
                    let msg = String::from_str("malformed response");
                    proof {
                        reveal_strlit("malformed response");
                    }
                    self.fail_attempt(msg);
                },
            },
            Err(msg) => self.fail_attempt(msg),
        }
    }
}

/// The session state shared by all requests: whether a session is up, and
/// the identifier the next message gets.
pub struct Messenger {
    pub connected: bool,
    pub msg_id: u16,
}

/// The identifier that follows `id`, wrapping from 65535 to 0.
pub open spec fn next_id(id: u16) -> u16 {
    if id == 65535 {
        0
    } else {
        (id + 1) as u16
    }
}

/// The identifier after `n` exchanges, starting from `id`.
pub open spec fn id_after(id: u16, n: nat) -> u16
    decreases n,
{
    if n == 0 {
        id
    } else {
        next_id(id_after(id, (n - 1) as nat))
    }
}

/// What an ended exchange hands to its caller.
pub open spec fn result_matches(r: Result<Response, ClientError>, e: EndView) -> bool {
    match e {
        EndView::Answered { code, payload } => r matches Ok(resp) && resp.code == code
            && resp.payload@ == payload,
        EndView::ConnectFailed(m) => r matches Err(ClientError::Connect(t)) && t@ == m,
        EndView::TransportFailed(m) => r matches Err(ClientError::Transport(t)) && t@ == m,
    }
}

/// The counter moves by one per exchange, modulo 65536.
pub proof fn id_after_is_modular(id: u16, n: nat)
    ensures
        id_after(id, n) as int == (id as int + n) % 65536,
    decreases n,
{
    if n > 0 {
        id_after_is_modular(id, (n - 1) as nat);
    }
}

/// Starting at 1, after 65535 exchanges the next identifier is 0.
pub proof fn id_wraps_to_zero()
    ensures
        id_after(1, 65535) == 0,
{
    id_after_is_modular(1, 65535);
}

/// An exchange whose session fails once and then answers: the caller is
/// told to establish a fresh session, sends again on it, and the exchange
/// ends with the answer.
pub proof fn retry_recovers_after_one_failure(
    connected: bool,
    err: Seq<char>,
    bytes: Seq<u8>,
)
    requires
        coap_response_of(bytes) is Some,
    ensures
        ({
            let s0 = if connected {
                start_view(true)
            } else {
                after_connect(start_view(false), Ok(()))
            };
            let s1 = after_reply(s0, Err(err));
            let s2 = after_connect(s1, Ok(()));
            let s3 = after_reply(s2, Ok(bytes));
            let answer = coap_response_of(bytes)->Some_0;
            &&& action_of(s0) == Action::Send
            &&& action_of(s1) == Action::Connect
            &&& action_of(s2) == Action::Send
            &&& action_of(s3) == Action::Finish
            &&& s3.end == Some(EndView::Answered { code: answer.0, payload: answer.1 })
        }),
{
}

/// An exchange whose session fails twice in a row ends with a transport
/// failure carrying the second error, and asks for no third attempt.
pub proof fn retry_gives_up_after_two_failures(err1: Seq<char>, err2: Seq<char>)
    ensures
        ({
            let s1 = after_reply(start_view(true), Err(err1));
            let s2 = after_connect(s1, Ok(()));
            let s3 = after_reply(s2, Err(err2));
            &&& action_of(s1) == Action::Connect
            &&& action_of(s2) == Action::Send
            &&& action_of(s3) == Action::Finish
            &&& s3.end == Some(EndView::TransportFailed(err2))
            &&& s3.failures == MAX_ATTEMPTS
        }),
{
}

impl Messenger {
    /// A messenger whose first message gets identifier 1; `connected` says
    /// whether the caller already holds a session.
    pub fn new(connected: bool) -> (r: Messenger)
        ensures
            r.connected == connected,
            r.msg_id == 1,
    {
        Messenger { connected, msg_id: 1 }
    }

    /// Hands out the current identifier and advances the counter, wrapping
    /// from 65535 to 0.
    pub fn next_msg_id(&mut self) -> (r: u16)
        ensures
            r == old(self).msg_id,
            final(self).msg_id == next_id(old(self).msg_id),
            final(self).connected == old(self).connected,
    {
        let id = self.msg_id;
        self.msg_id = self.msg_id.wrapping_add(1);
        id
    }

    /// Frames a request under the next message identifier and starts its
    /// exchange on the current session.
    pub fn begin(&mut self, method: Method, path: &str, payload: &str) -> (r: Result<
        Exchange,
        ClientError,
    >)
        ensures
            final(self).msg_id == next_id(old(self).msg_id),
            final(self).connected == old(self).connected,
            match coap_request_bytes(method == Method::Put, path@, old(self).msg_id, payload@) {
                Some(bytes) => r matches Ok(ex) && ex.wf() && ex.request@ == bytes && ex@
                    == start_view(old(self).connected),
                None => r matches Err(ClientError::Malformed(_)),
            },
    {
        let id = self.next_msg_id();
        let put = match method {
            Method::Get => false,
            Method::Put => true,
        };
        match encode_request(put, path, id, payload) {
            Some(request) => Ok(Exchange { request, connected: self.connected, failures: 0, end: None }),
            None => Err(ClientError::Malformed(String::from_str("request cannot be framed"))),
        }
    }

    /// Takes the result of an ended exchange, and keeps its session state
    /// for the requests that follow.
    pub fn finish(&mut self, ex: Exchange) -> (r: Result<Response, ClientError>)
        requires
            action_of(ex@) == Action::Finish,
        ensures
            final(self).connected == ex.connected,
            final(self).msg_id == old(self).msg_id,
            ex@.end matches Some(e) && result_matches(r, e),
    {
        self.connected = ex.connected;
        match ex.end {
            Some(Ended::Answered(resp)) => Ok(resp),
            Some(Ended::ConnectFailed(m)) => Err(ClientError::Connect(m)),
            Some(Ended::TransportFailed(m)) => Err(ClientError::Transport(m)),
            None => Err(ClientError::Transport(String::new())),
        }
    }
}

} // verus!
