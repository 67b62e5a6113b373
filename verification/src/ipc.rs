//! The message protocol between client and daemon: the three requests, the
//! three responses, how each is written on the bus and read back, the server's
//! registration slot and per-call dispatch, and the client's single exchange.

use crate::text::{join, same_text, starts_with, strip_prefix};
use crate::wire::{first_text, ArgView, CallRequest, CallRequestView, Payload};
use vstd::prelude::*;
use vstd::std_specs::cmp::PartialEqSpecImpl;
use vstd::string::*;

verus! {

/// The introspection document of the exported object.
pub const DBUS_INTERFACE_XML: &'static str = r#"
<node>
  <interface name='com.gabm.satty.IPC'>
    <method name='LoadImage'>
      <arg type='s' name='filename' direction='in'/>
      <arg type='s' name='response' direction='out'/>
    </method>
    <method name='Shutdown'>
      <arg type='s' name='response' direction='out'/>
    </method>
    <method name='Ping'>
      <arg type='s' name='response' direction='out'/>
    </method>
  </interface>
</node>
"#;

/// The interface that declares the three methods.
pub const DBUS_INTERFACE_NAME: &'static str = "com.gabm.satty.IPC";

/// The path under which the daemon exports its object.
pub const DBUS_OBJECT_PATH: &'static str = "/com/gabm/satty/IPC";

/// The well-known bus name that the one running daemon owns.
pub const DBUS_SERVICE_NAME: &'static str = "com.gabm.satty";

/// How long a client waits for the reply to a call, in milliseconds.
pub const CALL_TIMEOUT_MS: i32 = 5000;

/// A request from a client to the daemon.
#[derive(Debug)]
pub enum IpcMessage {
    /// Show the image stored at `filename`, an absolute path.
    LoadImage { filename: String },
    /// Leave.
    Shutdown,
    /// Say that you are there.
    Ping,
}

/// What an [`IpcMessage`] stands for.
pub enum MessageView {
    LoadImage { filename: Seq<char> },
    Shutdown,
    Ping,
}

impl View for IpcMessage {
    type V = MessageView;

    open spec fn view(&self) -> MessageView {
        match self {
            IpcMessage::LoadImage { filename } => MessageView::LoadImage { filename: filename@ },
            IpcMessage::Shutdown => MessageView::Shutdown,
            IpcMessage::Ping => MessageView::Ping,
        }
    }
}

/// The daemon's answer to one request.
#[derive(Debug)]
pub enum IpcResponse {
    /// The request was accepted. On the bus this is the string `Ok`.
    Accepted,
    /// The request was refused, for the reason given.
    Error(String),
    /// The answer to a ping.
    Pong,
}

/// What an [`IpcResponse`] stands for.
pub enum ResponseView {
    Accepted,
    Error(Seq<char>),
    Pong,
}

impl View for IpcResponse {
    type V = ResponseView;

    open spec fn view(&self) -> ResponseView {
        match self {
            IpcResponse::Accepted => ResponseView::Accepted,
            IpcResponse::Error(reason) => ResponseView::Error(reason@),
            IpcResponse::Pong => ResponseView::Pong,
        }
    }
}

/// Why a call could not be read as a request.
#[derive(Debug, Clone, Copy, PartialEq, Eq, Structural)]
pub enum ProtocolError {
    /// The method is none of the three.
    UnknownMethod,
    /// The method takes a string argument and the call brought none.
    InvalidArgs,
}

impl ProtocolError {
    /// The words that describe the error.
    pub open spec fn text(self) -> Seq<char> {
        match self {
            ProtocolError::UnknownMethod => "Unknown method"@,
            ProtocolError::InvalidArgs => "Invalid filename parameter"@,
        }
    }

    /// The words that describe the error.
    pub fn message(&self) -> (r: String)
        ensures
            r@ == self.text(),
    {
        match self {
            ProtocolError::UnknownMethod => String::from_str("Unknown method"),
            ProtocolError::InvalidArgs => String::from_str("Invalid filename parameter"),
        }
    }
}

/// Why a client's exchange with the daemon brought no response.
#[derive(Debug, Clone, Copy, PartialEq, Eq, Structural)]
pub enum IpcError {
    /// The session bus could not be reached.
    BusUnavailable,
    /// The call failed or ran out of time: no daemon answered.
    DaemonUnreachable,
    /// A reply came whose body does not begin with a string.
    MalformedReply,
}

impl IpcError {
    /// The words that describe the error.
    pub open spec fn text(self) -> Seq<char> {
        match self {
            IpcError::BusUnavailable => "Failed to connect to session bus"@,
            IpcError::DaemonUnreachable => "Failed to call DBus method (is the daemon running?)"@,
            IpcError::MalformedReply => "Failed to parse DBus response"@,
        }
    }

    /// The words that describe the error.
    pub fn message(&self) -> (r: String)
        ensures
            r@ == self.text(),
    {
        match self {
            IpcError::BusUnavailable => String::from_str("Failed to connect to session bus"),
            IpcError::DaemonUnreachable => String::from_str(
                "Failed to call DBus method (is the daemon running?)",
            ),
            IpcError::MalformedReply => String::from_str("Failed to parse DBus response"),
        }
    }
}

/// The name of the method that carries `m`.
pub open spec fn method_name(m: MessageView) -> Seq<char> {
    match m {
        MessageView::LoadImage { .. } => "LoadImage"@,
        MessageView::Shutdown => "Shutdown"@,
        MessageView::Ping => "Ping"@,
    }
}

/// The arguments of the call that carries `m`.
pub open spec fn message_body(m: MessageView) -> Seq<ArgView> {
    match m {
        MessageView::LoadImage { filename } => seq![ArgView::Text(filename)],
        MessageView::Shutdown => Seq::empty(),
        MessageView::Ping => Seq::empty(),
    }
}

/// The request that a call of `method` with the arguments `body` carries.
/// `LoadImage` takes its file name from the first argument, which must be a
/// string; the other two methods take none and ignore what is sent.
pub open spec fn decode_call(method: Seq<char>, body: Seq<ArgView>) -> Result<
    MessageView,
    ProtocolError,
> {
    if method == "LoadImage"@ {
        match first_text(body) {
            Some(filename) => Ok(MessageView::LoadImage { filename }),
            None => Err(ProtocolError::InvalidArgs),
        }
    } else if method == "Shutdown"@ {
        Ok(MessageView::Shutdown)
    } else if method == "Ping"@ {
        Ok(MessageView::Ping)
    } else {
        Err(ProtocolError::UnknownMethod)
    }
}

/// The string that carries the response `r`.
pub open spec fn wire_text(r: ResponseView) -> Seq<char> {
    match r {
        ResponseView::Accepted => "Ok"@,
        ResponseView::Error(reason) => "Error: "@ + reason,
        ResponseView::Pong => "Pong"@,
    }
}

/// The response that the string `s` carries. A string that begins with
/// `Error:` is a refusal; its reason is what follows `Error: `, or the whole
/// string where the space is missing. `Pong` is the answer to a ping. Every
/// other string is an acceptance.
pub open spec fn parse_wire_text(s: Seq<char>) -> ResponseView {
    if "Error:"@.is_prefix_of(s) {
        if "Error: "@.is_prefix_of(s) {
            ResponseView::Error(s.skip("Error: "@.len() as int))
        } else {
            ResponseView::Error(s)
        }
    } else if s == "Pong"@ {
        ResponseView::Pong
    } else {
        ResponseView::Accepted
    }
}

/// The view of the outcome of reading a call.
pub open spec fn decoded_view(r: Result<IpcMessage, ProtocolError>) -> Result<
    MessageView,
    ProtocolError,
> {
    match r {
        Ok(m) => Ok(m@),
        Err(e) => Err(e),
    }
}

impl IpcMessage {
    /// Reads a method call as a request.
    pub fn from_method_call(method: &str, params: &Payload) -> (r: Result<
        IpcMessage,
        ProtocolError,
    >)
        ensures
            decoded_view(r) == decode_call(method@, params@),
    {
        if same_text(method, "LoadImage") {
            match params.first_text() {
                Some(filename) => Ok(IpcMessage::LoadImage { filename: String::from_str(filename) }),
                None => Err(ProtocolError::InvalidArgs),
            }
        } else if same_text(method, "Shutdown") {
            Ok(IpcMessage::Shutdown)
        } else if same_text(method, "Ping") {
            Ok(IpcMessage::Ping)
        } else {
            Err(ProtocolError::UnknownMethod)
        }
    }

    /// The name of the method that carries this request.
    pub fn method(&self) -> (r: &'static str)
        ensures
            r@ == method_name(self@),
    {
        match self {
            IpcMessage::LoadImage { .. } => "LoadImage",
            IpcMessage::Shutdown => "Shutdown",
            IpcMessage::Ping => "Ping",
        }
    }

    /// The arguments of the call that carries this request.
    pub fn params(&self) -> (r: Payload)
        ensures
            r@ == message_body(self@),
    {
        match self {
            IpcMessage::LoadImage { filename } => Payload::text(filename.clone()),
            IpcMessage::Shutdown => Payload::empty(),
            IpcMessage::Ping => Payload::empty(),
        }
    }
}

impl Clone for IpcMessage {
    fn clone(&self) -> (r: IpcMessage)
        ensures
            r@ == self@,
    {
        match self {
            IpcMessage::LoadImage { filename } => IpcMessage::LoadImage {
                filename: filename.clone(),
            },
            IpcMessage::Shutdown => IpcMessage::Shutdown,
            IpcMessage::Ping => IpcMessage::Ping,
        }
    }
}

impl PartialEq for IpcMessage {
    fn eq(&self, other: &IpcMessage) -> (r: bool) {
        match (self, other) {
            (IpcMessage::LoadImage { filename: a }, IpcMessage::LoadImage { filename: b }) => {
                same_text(a.as_str(), b.as_str())
            },
            (IpcMessage::Shutdown, IpcMessage::Shutdown) => true,
            (IpcMessage::Ping, IpcMessage::Ping) => true,
            _ => false,
        }
    }
}

impl PartialEqSpecImpl for IpcMessage {
    open spec fn obeys_eq_spec() -> bool {
        true
    }

    open spec fn eq_spec(&self, other: &IpcMessage) -> bool {
        self@ == other@
    }
}

/// The view of the outcome of reading a reply.
pub open spec fn reply_view(r: Result<IpcResponse, IpcError>) -> Result<ResponseView, IpcError> {
    match r {
        Ok(response) => Ok(response@),
        Err(e) => Err(e),
    }
}

/// The response that a reply with the arguments `body` carries: what its first
/// argument says where that is a string, and no response otherwise.
pub open spec fn decode_reply(body: Seq<ArgView>) -> Result<ResponseView, IpcError> {
    match first_text(body) {
        Some(s) => Ok(parse_wire_text(s)),
        None => Err(IpcError::MalformedReply),
    }
}

impl IpcResponse {
    /// The string that carries this response.
    pub fn to_wire(&self) -> (r: String)
        ensures
            r@ == wire_text(self@),
    {
        match self {
            IpcResponse::Accepted => String::from_str("Ok"),
            IpcResponse::Error(reason) => join("Error: ", reason.as_str()),
            IpcResponse::Pong => String::from_str("Pong"),
        }
    }

    /// The body of the reply that carries this response: one string.
    pub fn to_variant(&self) -> (r: Payload)
        ensures
            r@ == seq![ArgView::Text(wire_text(self@))],
    {
        Payload::text(self.to_wire())
    }

    /// Reads the string of a reply.
    pub fn from_wire(s: &str) -> (r: IpcResponse)
        ensures
            r@ == parse_wire_text(s@),
    {
        if starts_with(s, "Error:") {
            match strip_prefix(s, "Error: ") {
                Some(reason) => IpcResponse::Error(String::from_str(reason)),
                None => IpcResponse::Error(String::from_str(s)),
            }
        } else if same_text(s, "Pong") {
            IpcResponse::Pong
        } else {
            IpcResponse::Accepted
        }
    }

    /// Reads the body of a reply.
    pub fn from_variant(body: &Payload) -> (r: Result<IpcResponse, IpcError>)
        ensures
            reply_view(r) == decode_reply(body@),
    {
        match body.first_text() {
            Some(s) => Ok(IpcResponse::from_wire(s)),
            None => Err(IpcError::MalformedReply),
        }
    }
}

impl Clone for IpcResponse {
    fn clone(&self) -> (r: IpcResponse)
        ensures
            r@ == self@,
    {
        match self {
            IpcResponse::Accepted => IpcResponse::Accepted,
            IpcResponse::Error(reason) => IpcResponse::Error(reason.clone()),
            IpcResponse::Pong => IpcResponse::Pong,
        }
    }
}

impl PartialEq for IpcResponse {
    fn eq(&self, other: &IpcResponse) -> (r: bool) {
        match (self, other) {
            (IpcResponse::Accepted, IpcResponse::Accepted) => true,
            (IpcResponse::Error(a), IpcResponse::Error(b)) => same_text(a.as_str(), b.as_str()),
            (IpcResponse::Pong, IpcResponse::Pong) => true,
            _ => false,
        }
    }
}

impl PartialEqSpecImpl for IpcResponse {
    open spec fn obeys_eq_spec() -> bool {
        true
    }

    open spec fn eq_spec(&self, other: &IpcResponse) -> bool {
        self@ == other@
    }
}

/// Every request is read back from the call that carries it.
pub proof fn lemma_message_round_trip(m: MessageView)
    ensures
        decode_call(method_name(m), message_body(m)) == Ok::<MessageView, ProtocolError>(m),
{
    reveal_strlit("LoadImage");
    reveal_strlit("Shutdown");
    reveal_strlit("Ping");
    match m {
        MessageView::LoadImage { filename } => {
            assert(first_text(message_body(m)) == Some(filename));
        },
        MessageView::Shutdown => {
            assert("Shutdown"@.len() != "LoadImage"@.len());
        },
        MessageView::Ping => {
            assert("Ping"@.len() != "LoadImage"@.len());
            assert("Ping"@.len() != "Shutdown"@.len());
        },
    }
}

/// Every response is read back from the string that carries it, whatever the
/// reason of a refusal holds.
pub proof fn lemma_response_round_trip(r: ResponseView)
    ensures
        parse_wire_text(wire_text(r)) == r,
        decode_reply(seq![ArgView::Text(wire_text(r))]) == Ok::<ResponseView, IpcError>(r),
{
    reveal_strlit("Ok");
    reveal_strlit("Pong");
    reveal_strlit("Error:");
    reveal_strlit("Error: ");
    match r {
        ResponseView::Accepted => {
            assert(!"Error:"@.is_prefix_of("Ok"@));
            assert("Ok"@.len() != "Pong"@.len());
        },
        ResponseView::Error(reason) => {
            let s = "Error: "@ + reason;
            assert("Error: "@ =~= s.subrange(0, 7));
            assert("Error:"@ =~= s.subrange(0, 6));
            assert(s.skip(7) =~= reason);
        },
        ResponseView::Pong => {
            assert(!"Error:"@.is_prefix_of("Pong"@));
        },
    }
    assert(first_text(seq![ArgView::Text(wire_text(r))]) == Some(wire_text(r)));
}

/// The three methods bear different names.
pub proof fn lemma_method_names_differ(a: MessageView, b: MessageView)
    ensures
        method_name(a) == method_name(b) <==> (a is LoadImage && b is LoadImage) || (a is Shutdown
            && b is Shutdown) || (a is Ping && b is Ping),
{
    reveal_strlit("LoadImage");
    reveal_strlit("Shutdown");
    reveal_strlit("Ping");
    assert("Shutdown"@.len() != "LoadImage"@.len());
    assert("Ping"@.len() != "LoadImage"@.len());
    assert("Ping"@.len() != "Shutdown"@.len());
}

/// The server side of the exported object: the slot for the handle that the
/// bus gives when the object is registered, and the rule by which each
/// incoming call is answered. `R` is the type of that handle. The slot is
/// filled once and never overwritten.
pub struct IpcServer<R> {
    registration_id: Option<R>,
}

/// Why a handle was not taken into the slot.
#[derive(Debug)]
pub enum RegistrationError<R> {
    /// The slot holds a handle already; the one offered comes back.
    AlreadyRegistered(R),
}

impl<R> IpcServer<R> {
    /// The handle in the slot, if the object has been registered.
    pub closed spec fn registration(&self) -> Option<R> {
        self.registration_id
    }

    /// A server whose object is not registered yet.
    pub fn new() -> (r: IpcServer<R>)
        ensures
            r.registration() is None,
    {
        IpcServer { registration_id: None }
    }

    /// Whether the object has been registered.
    pub fn is_registered(&self) -> (r: bool)
        ensures
            r == (self.registration() is Some),
    {
        self.registration_id.is_some()
    }

    /// Takes the handle that the bus gave for the exported object. An empty
    /// slot takes it; a full slot keeps what it holds and hands the new handle
    /// back.
    pub fn register_object(&mut self, handle: R) -> (r: Result<(), RegistrationError<R>>)
        ensures
            match old(self).registration() {
                None => r is Ok && final(self).registration() == Some(handle),
                Some(_) => r == Err::<(), RegistrationError<R>>(
                    RegistrationError::AlreadyRegistered(handle),
                ) && final(self).registration() == old(self).registration(),
            },
        no_unwind
    {
        let taken = match &self.registration_id {
            Some(_) => true,
            None => false,
        };
        if taken {
            Err(RegistrationError::AlreadyRegistered(handle))
        } else {
            self.registration_id = Some(handle);
            Ok(())
        }
    }

    /// Answers one incoming call. A call that reads as a request is handed to
    /// `callback`, whose response is the answer. A call that does not is
    /// answered with a refusal that names the fault, and `callback` is not
    /// asked.
    pub fn handle_call<F: Fn(IpcMessage) -> IpcResponse>(
        method: &str,
        params: &Payload,
        callback: &F,
    ) -> (r: IpcResponse)
        requires
            forall|m: IpcMessage| callback.requires((m,)),
        ensures
            match decode_call(method@, params@) {
                Ok(request) => exists|m: IpcMessage| m@ == request && callback.ensures((m,), r),
                Err(e) => r@ == ResponseView::Error(e.text()),
            },
    {
        match IpcMessage::from_method_call(method, params) {
            Ok(message) => {
                let response = callback(message);
                assert(message@ == decode_call(method@, params@)->Ok_0);
                response
            },
            Err(e) => IpcResponse::Error(e.message()),
        }
    }
}

/// What the transport reports to a client during one exchange.
#[derive(Debug)]
pub enum ClientEvent {
    /// Nothing has been done yet.
    Started,
    /// The session bus is connected.
    Connected,
    /// The session bus could not be connected.
    ConnectFailed,
    /// The call returned a reply with this body.
    Replied(Payload),
    /// The call failed or ran out of time.
    CallFailed,
}

/// What a [`ClientEvent`] stands for.
pub enum ClientEventView {
    Started,
    Connected,
    ConnectFailed,
    Replied(Seq<ArgView>),
    CallFailed,
}

impl View for ClientEvent {
    type V = ClientEventView;

    open spec fn view(&self) -> ClientEventView {
        match self {
            ClientEvent::Started => ClientEventView::Started,
            ClientEvent::Connected => ClientEventView::Connected,
            ClientEvent::ConnectFailed => ClientEventView::ConnectFailed,
            ClientEvent::Replied(body) => ClientEventView::Replied(body@),
            ClientEvent::CallFailed => ClientEventView::CallFailed,
        }
    }
}

/// What a client does next in its exchange.
#[derive(Debug)]
pub enum ClientAction {
    /// Connect to the session bus.
    Connect,
    /// Place this call and wait for its reply.
    Call(CallRequest),
    /// The exchange is over, with this outcome.
    Finish(Result<IpcResponse, IpcError>),
}

/// What a [`ClientAction`] stands for.
pub enum ClientActionView {
    Connect,
    Call(CallRequestView),
    Finish(Result<ResponseView, IpcError>),
}

impl View for ClientAction {
    type V = ClientActionView;

    open spec fn view(&self) -> ClientActionView {
        match self {
            ClientAction::Connect => ClientActionView::Connect,
            ClientAction::Call(request) => ClientActionView::Call(request@),
            ClientAction::Finish(outcome) => ClientActionView::Finish(reply_view(*outcome)),
        }
    }
}

/// The call that carries the request `m` to the daemon.
pub open spec fn client_request(m: MessageView) -> CallRequestView {
    CallRequestView {
        destination: DBUS_SERVICE_NAME@,
        object_path: DBUS_OBJECT_PATH@,
        interface: DBUS_INTERFACE_NAME@,
        method: method_name(m),
        body: message_body(m),
        reply_signature: None,
        timeout_ms: CALL_TIMEOUT_MS as int,
    }
}

/// The next action of a client that wants to send `m` and has been told
/// `event`.
pub open spec fn client_step(m: MessageView, event: ClientEventView) -> ClientActionView {
    match event {
        ClientEventView::Started => ClientActionView::Connect,
        ClientEventView::Connected => ClientActionView::Call(client_request(m)),
        ClientEventView::ConnectFailed => ClientActionView::Finish(Err(IpcError::BusUnavailable)),
        ClientEventView::Replied(body) => ClientActionView::Finish(decode_reply(body)),
        ClientEventView::CallFailed => ClientActionView::Finish(Err(IpcError::DaemonUnreachable)),
    }
}

/// The client side of one exchange: a fresh connection, one call, one reply.
pub struct IpcClient;

impl IpcClient {
    /// The call that carries `message` to the daemon.
    pub fn request(message: &IpcMessage) -> (r: CallRequest)
        ensures
            r@ == client_request(message@),
    {
        CallRequest {
            destination: String::from_str(DBUS_SERVICE_NAME),
            object_path: String::from_str(DBUS_OBJECT_PATH),
            interface: String::from_str(DBUS_INTERFACE_NAME),
            method: String::from_str(message.method()),
            body: message.params(),
            reply_signature: None,
            timeout_ms: CALL_TIMEOUT_MS,
        }
    }

    /// One step of sending `message`: given what the transport reported last,
    /// what to do next. The exchange begins with [`ClientEvent::Started`] and
    /// is over when the action is [`ClientAction::Finish`].
    pub fn send_message(message: &IpcMessage, event: ClientEvent) -> (r: ClientAction)
        ensures
            r@ == client_step(message@, event@),
    {
        match event {
            ClientEvent::Started => ClientAction::Connect,
            ClientEvent::Connected => ClientAction::Call(IpcClient::request(message)),
            ClientEvent::ConnectFailed => ClientAction::Finish(Err(IpcError::BusUnavailable)),
            ClientEvent::Replied(body) => ClientAction::Finish(IpcResponse::from_variant(&body)),
            ClientEvent::CallFailed => ClientAction::Finish(Err(IpcError::DaemonUnreachable)),
        }
    }
}

/// An exchange ends without a response exactly when the transport failed: the
/// bus could not be connected, the call failed or ran out of time, or the
/// reply does not begin with a string. A refusal by the daemon is a response.
pub proof fn lemma_failure_is_no_response(m: MessageView, event: ClientEventView)
    ensures
        (client_step(m, event) matches ClientActionView::Finish(Err(_))) <==> (event is ConnectFailed
            || event is CallFailed || (event matches ClientEventView::Replied(body)
            && first_text(body) is None)),
        (client_step(m, event) matches ClientActionView::Finish(Ok(_))) <==> (
        event matches ClientEventView::Replied(body) && first_text(body) is Some),
        client_step(m, event) matches ClientActionView::Call(request) ==> {
            &&& request.timeout_ms == CALL_TIMEOUT_MS
            &&& decode_call(request.method, request.body) == Ok::<MessageView, ProtocolError>(m)
        },
{
    lemma_message_round_trip(m);
}

} // verus!
