//! The daemon: how it comes to own the well-known name, how it answers each
//! request, and what it hands to the application once an image has been read.
//!
//! The daemon's life is a state machine. [`DaemonServer::run`] takes what
//! happened and returns what to do next; the caller performs it and reports
//! back. Requests are answered by [`DaemonServer::dispatch`], which holds no
//! state: whatever a request holds, the daemon stays as it is.

use crate::ipc::{
    client_request, client_step, decode_call, decode_reply, lemma_message_round_trip,
    lemma_response_round_trip, wire_text, ClientActionView, ClientEventView, IpcError, IpcMessage,
    IpcResponse, IpcServer, MessageView, ProtocolError, ResponseView, DBUS_SERVICE_NAME,
};
use crate::text::{decimal, decimal_string, join, lemma_decimal_injective};
use crate::wire::{first_number, first_text, ArgView, CallRequest, CallRequestView, Payload};
use vstd::prelude::*;
use vstd::string::*;

verus! {

/// Flag of a name request: a later owner that asks to replace may take the
/// name over.
pub const NAME_FLAG_ALLOW_REPLACEMENT: u32 = 1;

/// Flag of a name request: fail at once rather than wait behind an owner.
pub const NAME_FLAG_DO_NOT_QUEUE: u32 = 4;

/// The flags that the daemon sends with its name request.
pub const NAME_REQUEST_FLAGS: u32 = 5;

/// The bus's answer `1`: the name had no owner and is now ours.
pub const NAME_REPLY_PRIMARY_OWNER: u32 = 1;

/// The bus's answer `2`: the name has an owner and we were put in its queue.
pub const NAME_REPLY_IN_QUEUE: u32 = 2;

/// The bus's answer `3`: the name has an owner who keeps it.
pub const NAME_REPLY_EXISTS: u32 = 3;

/// The bus's answer `4`: this connection owns the name already.
pub const NAME_REPLY_ALREADY_OWNER: u32 = 4;

/// Ownership of the well-known name, and how it came about.
#[derive(Debug, Clone, Copy, PartialEq, Eq, Structural)]
pub enum Lease {
    /// The name had no owner.
    PrimaryOwner,
    /// This connection owned the name before it asked.
    AlreadyOwner,
}

/// Why the daemon gave up before it served.
#[derive(Debug, Clone, Copy, PartialEq, Eq, Structural)]
pub enum DaemonError {
    /// The session bus could not be reached.
    BusUnavailable,
    /// The name request was not answered.
    NameRequestFailed,
    /// The answer to the name request does not begin with a number.
    MalformedNameReply,
    /// Another daemon owns the name; we would have been queued behind it.
    AlreadyRunning,
    /// Another owner holds the name and does not give it up.
    NameExists,
    /// The bus answered the name request with a number that has no meaning.
    UnknownNameResult(u32),
    /// The object could not be registered on the bus.
    RegistrationFailed,
}

/// Where the daemon stands in its life.
#[derive(Debug, Clone, Copy, PartialEq, Eq, Structural)]
pub enum DaemonState {
    /// Nothing is owned and nothing is exported.
    Unregistered,
    /// The bus is connected and the name has been asked for.
    NameRequested,
    /// The name is owned and the object is exported: requests are answered.
    Serving,
    /// The daemon gave up or was told to leave.
    Terminated,
}

impl Lease {
    /// The line that announces the lease.
    pub open spec fn text(self) -> Seq<char> {
        match self {
            Lease::PrimaryOwner => "Daemon listening on DBus: com.gabm.satty"@,
            Lease::AlreadyOwner => "Daemon became primary owner on DBus"@,
        }
    }

    /// The line that announces the lease.
    pub fn announcement(&self) -> (r: String)
        ensures
            r@ == self.text(),
    {
        match self {
            Lease::PrimaryOwner => String::from_str("Daemon listening on DBus: com.gabm.satty"),
            Lease::AlreadyOwner => String::from_str("Daemon became primary owner on DBus"),
        }
    }
}

impl DaemonError {
    /// The words that describe the error.
    pub open spec fn text(self) -> Seq<char> {
        match self {
            DaemonError::BusUnavailable => "Failed to connect to session bus"@,
            DaemonError::NameRequestFailed => "Failed to request DBus name"@,
            DaemonError::MalformedNameReply => "Failed to parse name request result"@,
            DaemonError::AlreadyRunning => "Daemon already running on DBus"@,
            DaemonError::NameExists => "Name already exists on DBus"@,
            DaemonError::UnknownNameResult(code) => "Unknown name request result: "@ + decimal(
                code as nat,
            ),
            DaemonError::RegistrationFailed => "Failed to register DBus object"@,
        }
    }

    /// Whether the error says that another owner holds the name.
    pub open spec fn is_conflict(self) -> bool {
        self == DaemonError::AlreadyRunning || self == DaemonError::NameExists
    }

    /// The words that describe the error.
    pub fn message(&self) -> (r: String)
        ensures
            r@ == self.text(),
    {
        match self {
            DaemonError::BusUnavailable => String::from_str("Failed to connect to session bus"),
            DaemonError::NameRequestFailed => String::from_str("Failed to request DBus name"),
            DaemonError::MalformedNameReply => String::from_str(
                "Failed to parse name request result",
            ),
            DaemonError::AlreadyRunning => String::from_str("Daemon already running on DBus"),
            DaemonError::NameExists => String::from_str("Name already exists on DBus"),
            DaemonError::UnknownNameResult(code) => {
                let number = decimal_string(*code);
                join("Unknown name request result: ", number.as_str())
            },
            DaemonError::RegistrationFailed => String::from_str("Failed to register DBus object"),
        }
    }

    /// Whether the error says that another owner holds the name.
    pub fn conflict(&self) -> (r: bool)
        ensures
            r == self.is_conflict(),
    {
        match self {
            DaemonError::AlreadyRunning => true,
            DaemonError::NameExists => true,
            _ => false,
        }
    }
}

/// What the bus's answer to the name request means. The answer's first
/// argument is a number: `1` and `4` grant the name, `2` and `3` report
/// another owner, and every other number is an error of its own.
pub open spec fn arbitrate(body: Seq<ArgView>) -> Result<Lease, DaemonError> {
    match first_number(body) {
        None => Err(DaemonError::MalformedNameReply),
        Some(code) => {
            if code == NAME_REPLY_PRIMARY_OWNER {
                Ok(Lease::PrimaryOwner)
            } else if code == NAME_REPLY_IN_QUEUE {
                Err(DaemonError::AlreadyRunning)
            } else if code == NAME_REPLY_EXISTS {
                Err(DaemonError::NameExists)
            } else if code == NAME_REPLY_ALREADY_OWNER {
                Ok(Lease::AlreadyOwner)
            } else {
                Err(DaemonError::UnknownNameResult(code))
            }
        },
    }
}

/// The call by which the daemon asks the bus for the well-known name.
pub open spec fn name_request() -> CallRequestView {
    CallRequestView {
        destination: "org.freedesktop.DBus"@,
        object_path: "/org/freedesktop/DBus"@,
        interface: "org.freedesktop.DBus"@,
        method: "RequestName"@,
        body: seq![ArgView::Text(DBUS_SERVICE_NAME@), ArgView::Number(NAME_REQUEST_FLAGS)],
        reply_signature: Some("(u)"@),
        timeout_ms: -1,
    }
}

/// The two flags of the name request make up its flag word.
pub proof fn lemma_name_request_flags()
    ensures
        NAME_REQUEST_FLAGS == NAME_FLAG_ALLOW_REPLACEMENT | NAME_FLAG_DO_NOT_QUEUE,
{
    assert(5u32 == 1u32 | 4u32) by (bit_vector);
}

/// What happened to the daemon. `R` is the type of the handle that the bus
/// gives for a registered object.
#[derive(Debug)]
pub enum DaemonEvent<R> {
    /// The daemon was started.
    Started,
    /// The session bus is connected.
    Connected,
    /// The session bus could not be connected.
    ConnectFailed,
    /// The bus answered the name request with this body.
    NameReplied(Payload),
    /// The name request failed.
    NameRequestFailed,
    /// The object was registered under this handle.
    Registered(R),
    /// The object could not be registered.
    RegistrationFailed,
    /// The exit that a shutdown request scheduled has come due.
    ExitDue,
}

/// What a [`DaemonEvent`] stands for.
pub enum DaemonEventView<R> {
    Started,
    Connected,
    ConnectFailed,
    NameReplied(Seq<ArgView>),
    NameRequestFailed,
    Registered(R),
    RegistrationFailed,
    ExitDue,
}

impl<R> View for DaemonEvent<R> {
    type V = DaemonEventView<R>;

    open spec fn view(&self) -> DaemonEventView<R> {
        match self {
            DaemonEvent::Started => DaemonEventView::Started,
            DaemonEvent::Connected => DaemonEventView::Connected,
            DaemonEvent::ConnectFailed => DaemonEventView::ConnectFailed,
            DaemonEvent::NameReplied(body) => DaemonEventView::NameReplied(body@),
            DaemonEvent::NameRequestFailed => DaemonEventView::NameRequestFailed,
            DaemonEvent::Registered(handle) => DaemonEventView::Registered(*handle),
            DaemonEvent::RegistrationFailed => DaemonEventView::RegistrationFailed,
            DaemonEvent::ExitDue => DaemonEventView::ExitDue,
        }
    }
}

/// What the daemon's caller is to do next.
#[derive(Debug)]
pub enum DaemonAction {
    /// Connect to the session bus.
    Connect,
    /// Place this call, which asks for the well-known name.
    RequestName(CallRequest),
    /// The name is ours under this lease: export the object.
    RegisterObject(Lease),
    /// The daemon serves: hand every incoming call to the dispatch.
    Serve,
    /// Give up with this error.
    Abort(DaemonError),
    /// Leave the process, with success.
    Exit,
    /// The event has no meaning in the present state: do nothing.
    Ignore,
}

/// What a [`DaemonAction`] stands for.
pub enum DaemonActionView {
    Connect,
    RequestName(CallRequestView),
    RegisterObject(Lease),
    Serve,
    Abort(DaemonError),
    Exit,
    Ignore,
}

impl View for DaemonAction {
    type V = DaemonActionView;

    open spec fn view(&self) -> DaemonActionView {
        match self {
            DaemonAction::Connect => DaemonActionView::Connect,
            DaemonAction::RequestName(request) => DaemonActionView::RequestName(request@),
            DaemonAction::RegisterObject(lease) => DaemonActionView::RegisterObject(*lease),
            DaemonAction::Serve => DaemonActionView::Serve,
            DaemonAction::Abort(e) => DaemonActionView::Abort(*e),
            DaemonAction::Exit => DaemonActionView::Exit,
            DaemonAction::Ignore => DaemonActionView::Ignore,
        }
    }
}

/// What a [`DaemonServer`] stands for.
pub struct DaemonModel<R> {
    /// Where the daemon stands.
    pub state: DaemonState,
    /// The lease on the well-known name, once granted.
    pub lease: Option<Lease>,
    /// The handle of the exported object, once registered.
    pub registration: Option<R>,
}

impl<R> DaemonModel<R> {
    /// The daemon before anything has happened.
    pub open spec fn initial() -> DaemonModel<R> {
        DaemonModel { state: DaemonState::Unregistered, lease: None, registration: None }
    }

    /// What holds of every daemon that can come about: one that has not asked
    /// for the name owns and exports nothing; an object is exported only under
    /// a lease; a daemon that serves has both.
    pub open spec fn wf(self) -> bool {
        &&& self.state == DaemonState::Unregistered ==> self.lease is None
        &&& self.state == DaemonState::Unregistered ==> self.registration is None
        &&& self.state == DaemonState::Serving ==> self.lease is Some
        &&& self.state == DaemonState::Serving ==> self.registration is Some
        &&& self.registration is Some ==> self.lease is Some
    }

    /// This daemon, having given up.
    pub open spec fn terminated(self) -> DaemonModel<R> {
        DaemonModel { state: DaemonState::Terminated, ..self }
    }
}

/// The daemon after `event`, and what its caller is to do.
///
/// | state | event | next state | action |
/// |---|---|---|---|
/// | `Unregistered` | `Started` | unchanged | `Connect` |
/// | `Unregistered` | `Connected` | `NameRequested` | `RequestName` |
/// | `Unregistered` | `ConnectFailed` | `Terminated` | `Abort` |
/// | `NameRequested`, no lease | `NameReplied`, granted | lease held | `RegisterObject` |
/// | `NameRequested`, no lease | `NameReplied`, not granted | `Terminated` | `Abort` |
/// | `NameRequested`, no lease | `NameRequestFailed` | `Terminated` | `Abort` |
/// | `NameRequested`, lease | `Registered` | `Serving`, handle kept | `Serve` |
/// | `NameRequested`, lease | `RegistrationFailed` | `Terminated` | `Abort` |
/// | `Serving` | `ExitDue` | `Terminated` | `Exit` |
/// | every other pair | | unchanged | `Ignore` |
pub open spec fn daemon_step<R>(pre: DaemonModel<R>, event: DaemonEventView<R>) -> (
    DaemonModel<R>,
    DaemonActionView,
) {
    match pre.state {
        DaemonState::Unregistered => match event {
            DaemonEventView::Started => (pre, DaemonActionView::Connect),
            DaemonEventView::Connected => (
                DaemonModel { state: DaemonState::NameRequested, ..pre },
                DaemonActionView::RequestName(name_request()),
            ),
            DaemonEventView::ConnectFailed => (
                pre.terminated(),
                DaemonActionView::Abort(DaemonError::BusUnavailable),
            ),
            _ => (pre, DaemonActionView::Ignore),
        },
        DaemonState::NameRequested => match event {
            DaemonEventView::NameReplied(body) => if pre.lease is None {
                match arbitrate(body) {
                    Ok(lease) => (
                        DaemonModel { lease: Some(lease), ..pre },
                        DaemonActionView::RegisterObject(lease),
                    ),
                    Err(e) => (pre.terminated(), DaemonActionView::Abort(e)),
                }
            } else {
                (pre, DaemonActionView::Ignore)
            },
            DaemonEventView::NameRequestFailed => if pre.lease is None {
                (pre.terminated(), DaemonActionView::Abort(DaemonError::NameRequestFailed))
            } else {
                (pre, DaemonActionView::Ignore)
            },
            DaemonEventView::Registered(handle) => if pre.lease is Some
                && pre.registration is None {
                (
                    DaemonModel {
                        state: DaemonState::Serving,
                        registration: Some(handle),
                        ..pre
                    },
                    DaemonActionView::Serve,
                )
            } else {
                (pre, DaemonActionView::Ignore)
            },
            DaemonEventView::RegistrationFailed => if pre.lease is Some {
                (pre.terminated(), DaemonActionView::Abort(DaemonError::RegistrationFailed))
            } else {
                (pre, DaemonActionView::Ignore)
            },
            _ => (pre, DaemonActionView::Ignore),
        },
        DaemonState::Serving => match event {
            DaemonEventView::ExitDue => (pre.terminated(), DaemonActionView::Exit),
            _ => (pre, DaemonActionView::Ignore),
        },
        DaemonState::Terminated => (pre, DaemonActionView::Ignore),
    }
}

/// The daemon after all of `events`, in order.
pub open spec fn daemon_run<R>(pre: DaemonModel<R>, events: Seq<DaemonEventView<R>>) -> DaemonModel<
    R,
>
    decreases events.len(),
{
    if events.len() == 0 {
        pre
    } else {
        daemon_step(daemon_run(pre, events.drop_last()), events.last()).0
    }
}

/// Whether `event` is an answer of the bus that grants the name.
pub open spec fn grants_name<R>(event: DaemonEventView<R>) -> bool {
    event matches DaemonEventView::NameReplied(body) && arbitrate(body) is Ok
}

/// The daemon. `R` is the type of the handle that the bus gives for a
/// registered object.
pub struct DaemonServer<R> {
    server: IpcServer<R>,
    state: DaemonState,
    lease: Option<Lease>,
}

impl<R> View for DaemonServer<R> {
    type V = DaemonModel<R>;

    closed spec fn view(&self) -> DaemonModel<R> {
        DaemonModel {
            state: self.state,
            lease: self.lease,
            registration: self.server.registration(),
        }
    }
}

impl<R> DaemonServer<R> {
    #[verifier::type_invariant]
    spec fn well_formed(self) -> bool {
        self@.wf()
    }

    /// A daemon that has done nothing yet.
    pub fn new() -> (r: DaemonServer<R>)
        ensures
            r@ == DaemonModel::<R>::initial(),
    {
        DaemonServer { server: IpcServer::new(), state: DaemonState::Unregistered, lease: None }
    }

    /// Where the daemon stands.
    pub fn state(&self) -> (r: DaemonState)
        ensures
            r == self@.state,
            self@.wf(),
    {
        proof {
            use_type_invariant(self);
        }
        self.state
    }

    /// The lease on the well-known name, once granted.
    pub fn lease(&self) -> (r: Option<Lease>)
        ensures
            r == self@.lease,
            self@.wf(),
    {
        proof {
            use_type_invariant(self);
        }
        self.lease
    }

    /// Whether requests are being answered.
    pub fn is_serving(&self) -> (r: bool)
        ensures
            r == (self@.state == DaemonState::Serving),
            r ==> self@.lease is Some && self@.registration is Some,
    {
        proof {
            use_type_invariant(self);
        }
        self.state == DaemonState::Serving
    }

    /// The call by which the daemon asks the bus for the well-known name.
    pub fn name_request() -> (r: CallRequest)
        ensures
            r@ == name_request(),
    {
        CallRequest {
            destination: String::from_str("org.freedesktop.DBus"),
            object_path: String::from_str("/org/freedesktop/DBus"),
            interface: String::from_str("org.freedesktop.DBus"),
            method: String::from_str("RequestName"),
            body: Payload::text_and_number(String::from_str(DBUS_SERVICE_NAME), NAME_REQUEST_FLAGS),
            reply_signature: Some(String::from_str("(u)")),
            timeout_ms: -1,
        }
    }

    /// Reads the bus's answer to the name request.
    pub fn acquire(reply: &Payload) -> (r: Result<Lease, DaemonError>)
        ensures
            r == arbitrate(reply@),
    {
        match reply.first_number() {
            None => Err(DaemonError::MalformedNameReply),
            Some(code) => {
                if code == NAME_REPLY_PRIMARY_OWNER {
                    Ok(Lease::PrimaryOwner)
                } else if code == NAME_REPLY_IN_QUEUE {
                    Err(DaemonError::AlreadyRunning)
                } else if code == NAME_REPLY_EXISTS {
                    Err(DaemonError::NameExists)
                } else if code == NAME_REPLY_ALREADY_OWNER {
                    Ok(Lease::AlreadyOwner)
                } else {
                    Err(DaemonError::UnknownNameResult(code))
                }
            },
        }
    }

    /// One step of the daemon's life: takes what happened, moves to the next
    /// state and returns what the caller is to do. The first event is
    /// [`DaemonEvent::Started`].
    pub fn run(&mut self, event: DaemonEvent<R>) -> (r: DaemonAction)
        ensures
            final(self)@ == daemon_step(old(self)@, event@).0,
            r@ == daemon_step(old(self)@, event@).1,
    {
        proof {
            use_type_invariant(&*self);
        }
        match self.state {
            DaemonState::Unregistered => match event {
                DaemonEvent::Started => DaemonAction::Connect,
                DaemonEvent::Connected => {
                    self.state = DaemonState::NameRequested;
                    DaemonAction::RequestName(Self::name_request())
                },
                DaemonEvent::ConnectFailed => {
                    self.state = DaemonState::Terminated;
                    DaemonAction::Abort(DaemonError::BusUnavailable)
                },
                _ => DaemonAction::Ignore,
            },
            DaemonState::NameRequested => match event {
                DaemonEvent::NameReplied(body) => {
                    if self.lease.is_none() {
                        match Self::acquire(&body) {
                            Ok(lease) => {
                                self.lease = Some(lease);
                                DaemonAction::RegisterObject(lease)
                            },
                            Err(e) => {
                                self.state = DaemonState::Terminated;
                                DaemonAction::Abort(e)
                            },
                        }
                    } else {
                        DaemonAction::Ignore
                    }
                },
                DaemonEvent::NameRequestFailed => {
                    if self.lease.is_none() {
                        self.state = DaemonState::Terminated;
                        DaemonAction::Abort(DaemonError::NameRequestFailed)
                    } else {
                        DaemonAction::Ignore
                    }
                },
                DaemonEvent::Registered(handle) => {
                    if self.lease.is_some() {
                        match self.server.register_object(handle) {
                            Ok(()) => {
                                self.state = DaemonState::Serving;
                                DaemonAction::Serve
                            },
                            Err(_) => DaemonAction::Ignore,
                        }
                    } else {
                        DaemonAction::Ignore
                    }
                },
                DaemonEvent::RegistrationFailed => {
                    if self.lease.is_some() {
                        self.state = DaemonState::Terminated;
                        DaemonAction::Abort(DaemonError::RegistrationFailed)
                    } else {
                        DaemonAction::Ignore
                    }
                },
                _ => DaemonAction::Ignore,
            },
            DaemonState::Serving => match event {
                DaemonEvent::ExitDue => {
                    self.state = DaemonState::Terminated;
                    DaemonAction::Exit
                },
                _ => DaemonAction::Ignore,
            },
            DaemonState::Terminated => DaemonAction::Ignore,
        }
    }
}

/// Work that the daemon puts on the event loop after it has answered a
/// request, so that the answer is on its way before the work begins.
#[derive(Debug)]
pub enum Deferred {
    /// Nothing is left to do.
    Nothing,
    /// Leave the process.
    Exit,
    /// Hand the request to [`DaemonServer::handle_message`].
    Handle(IpcMessage),
}

/// What a [`Deferred`] stands for.
pub enum DeferredView {
    Nothing,
    Exit,
    Handle(MessageView),
}

impl View for Deferred {
    type V = DeferredView;

    open spec fn view(&self) -> DeferredView {
        match self {
            Deferred::Nothing => DeferredView::Nothing,
            Deferred::Exit => DeferredView::Exit,
            Deferred::Handle(message) => DeferredView::Handle(message@),
        }
    }
}

/// The answer to one request, and the work that follows it.
#[derive(Debug)]
pub struct Dispatch {
    /// What the caller is told, at once.
    pub response: IpcResponse,
    /// What is done afterwards.
    pub deferred: Deferred,
}

/// What the daemon answers to the request `m`: a ping is answered with a
/// pong, and the other two are acknowledged.
pub open spec fn dispatch_response(m: MessageView) -> ResponseView {
    match m {
        MessageView::Ping => ResponseView::Pong,
        MessageView::Shutdown => ResponseView::Accepted,
        MessageView::LoadImage { .. } => ResponseView::Accepted,
    }
}

/// What the daemon does after it has answered the request `m`: nothing after
/// a ping, leave after a shutdown, and handle every other request.
pub open spec fn dispatch_deferred(m: MessageView) -> DeferredView {
    match m {
        MessageView::Ping => DeferredView::Nothing,
        MessageView::Shutdown => DeferredView::Exit,
        MessageView::LoadImage { .. } => DeferredView::Handle(m),
    }
}

/// Work that a request asks for and that takes time.
#[derive(Debug)]
pub enum Task {
    /// The request asks for none.
    Nothing,
    /// Read and decode the image stored at `filename`.
    DecodeImage { filename: String },
}

/// What a [`Task`] stands for.
pub enum TaskView {
    Nothing,
    DecodeImage { filename: Seq<char> },
}

impl View for Task {
    type V = TaskView;

    open spec fn view(&self) -> TaskView {
        match self {
            Task::Nothing => TaskView::Nothing,
            Task::DecodeImage { filename } => TaskView::DecodeImage { filename: filename@ },
        }
    }
}

/// The work that the request `m` asks for.
pub open spec fn task_of(m: MessageView) -> TaskView {
    match m {
        MessageView::LoadImage { filename } => TaskView::DecodeImage { filename },
        _ => TaskView::Nothing,
    }
}

/// A command to the application. `I` is the type of a decoded image.
#[derive(Debug)]
pub enum AppCommand<I> {
    /// Put this image in place of the one on show.
    LoadNewImage(I),
    /// Show the window.
    ShowWindow,
    /// Hide the window.
    HideWindow,
}

/// What follows an attempt to decode an image.
#[derive(Debug)]
pub struct Loaded<I> {
    /// The commands to send to the application, in order.
    pub commands: Vec<AppCommand<I>>,
    /// The line to log, where the attempt failed.
    pub log: Option<String>,
}

/// The commands that follow an attempt to decode an image: the new image and
/// then the window shown where there is an image, the window hidden where
/// there is none.
pub open spec fn commands_after<I>(image: Option<I>) -> Seq<AppCommand<I>> {
    match image {
        Some(i) => seq![AppCommand::LoadNewImage(i), AppCommand::ShowWindow],
        None => seq![AppCommand::HideWindow],
    }
}

/// The line that records that the image at `filename` could not be decoded.
pub open spec fn load_failure_text(filename: Seq<char>) -> Seq<char> {
    "Failed to load image: Failed to load image from file: "@ + filename
}

impl<R> DaemonServer<R> {
    /// Answers one request. The answer depends on the request alone.
    pub fn dispatch(message: IpcMessage) -> (r: Dispatch)
        ensures
            r.response@ == dispatch_response(message@),
            r.deferred@ == dispatch_deferred(message@),
    {
        match message {
            IpcMessage::Ping => Dispatch { response: IpcResponse::Pong, deferred: Deferred::Nothing },
            IpcMessage::Shutdown => Dispatch {
                response: IpcResponse::Accepted,
                deferred: Deferred::Exit,
            },
            _ => Dispatch { response: IpcResponse::Accepted, deferred: Deferred::Handle(message) },
        }
    }

    /// The work that a request asks for once it has been answered.
    pub fn handle_message(message: IpcMessage) -> (r: Task)
        ensures
            r@ == task_of(message@),
    {
        match message {
            IpcMessage::LoadImage { filename } => Task::DecodeImage { filename },
            _ => Task::Nothing,
        }
    }

    /// What follows the attempt to decode the image at `filename`: `image` is
    /// the decoded image, or `None` where the file could not be read as one.
    pub fn image_decoded<I>(filename: &str, image: Option<I>) -> (r: Loaded<I>)
        ensures
            r.commands@ == commands_after(image),
            image is Some ==> r.log is None,
            image is None ==> r.log is Some && r.log->Some_0@ == load_failure_text(filename@),
    {
        let mut commands: Vec<AppCommand<I>> = Vec::new();
        match image {
            Some(i) => {
                commands.push(AppCommand::LoadNewImage(i));
                commands.push(AppCommand::ShowWindow);
                assert(commands@ =~= commands_after(image));
                Loaded { commands, log: None }
            },
            None => {
                commands.push(AppCommand::HideWindow);
                assert(commands@ =~= commands_after(image));
                let line = join("Failed to load image: Failed to load image from file: ", filename);
                Loaded { commands, log: Some(line) }
            },
        }
    }
}

/// A step keeps a well-formed daemon well-formed.
pub proof fn lemma_step_preserves_wf<R>(pre: DaemonModel<R>, event: DaemonEventView<R>)
    requires
        pre.wf(),
    ensures
        daemon_step(pre, event).0.wf(),
{
}

/// Whatever happens to a daemon from its start, it stays well-formed: it
/// serves only while it holds a lease and the handle of its object.
pub proof fn lemma_run_preserves_wf<R>(events: Seq<DaemonEventView<R>>)
    ensures
        daemon_run(DaemonModel::<R>::initial(), events).wf(),
    decreases events.len(),
{
    if events.len() > 0 {
        lemma_run_preserves_wf(events.drop_last());
        lemma_step_preserves_wf(
            daemon_run(DaemonModel::<R>::initial(), events.drop_last()),
            events.last(),
        );
    }
}

/// A daemon that the bus never grants the name never holds a lease and never
/// serves, whatever else happens to it.
pub proof fn lemma_no_grant_no_service<R>(events: Seq<DaemonEventView<R>>)
    requires
        forall|i: int| 0 <= i < events.len() ==> !grants_name(#[trigger] events[i]),
    ensures
        daemon_run(DaemonModel::<R>::initial(), events).lease is None,
        daemon_run(DaemonModel::<R>::initial(), events).state != DaemonState::Serving,
    decreases events.len(),
{
    if events.len() > 0 {
        let before = events.drop_last();
        assert forall|i: int| 0 <= i < before.len() implies !grants_name(#[trigger] before[i]) by {
            assert(before[i] == events[i]);
        }
        lemma_no_grant_no_service(before);
        lemma_run_preserves_wf(before);
        assert(!grants_name(events[events.len() - 1]));
    }
}

/// A daemon that asks for the name while another owner holds it gives up with
/// a conflict, and it does so on no other answer.
pub proof fn lemma_conflict_aborts<R>(pre: DaemonModel<R>, body: Seq<ArgView>)
    requires
        pre.state == DaemonState::NameRequested,
        pre.lease is None,
    ensures
        first_number(body) == Some(NAME_REPLY_IN_QUEUE) ==> daemon_step(
            pre,
            DaemonEventView::NameReplied(body),
        ) == (pre.terminated(), DaemonActionView::Abort(DaemonError::AlreadyRunning)),
        first_number(body) == Some(NAME_REPLY_EXISTS) ==> daemon_step(
            pre,
            DaemonEventView::NameReplied(body),
        ) == (pre.terminated(), DaemonActionView::Abort(DaemonError::NameExists)),
        (daemon_step(pre, DaemonEventView::NameReplied(body)).1 matches DaemonActionView::Abort(e)
            && e.is_conflict()) <==> (first_number(body) == Some(NAME_REPLY_IN_QUEUE)
            || first_number(body) == Some(NAME_REPLY_EXISTS)),
{
}

/// A daemon that has terminated stays as it is.
pub proof fn lemma_terminated_is_final<R>(pre: DaemonModel<R>, events: Seq<DaemonEventView<R>>)
    requires
        pre.state == DaemonState::Terminated,
    ensures
        daemon_run(pre, events) == pre,
    decreases events.len(),
{
    if events.len() > 0 {
        lemma_terminated_is_final(pre, events.drop_last());
    }
}

/// What a daemon has it keeps: no event takes away or replaces a lease once
/// granted or the handle of the object once registered.
pub proof fn lemma_lease_and_handle_are_kept<R>(pre: DaemonModel<R>, event: DaemonEventView<R>)
    ensures
        pre.lease is Some ==> daemon_step(pre, event).0.lease == pre.lease,
        pre.registration is Some ==> daemon_step(pre, event).0.registration == pre.registration,
{
}

/// No failure leaves the daemon half-way: a step that reports an error ends
/// the daemon, a daemon ends only by an error or by the exit it was asked
/// for, and a daemon that serves is otherwise left exactly as it was.
pub proof fn lemma_failures_end_the_daemon<R>(pre: DaemonModel<R>, event: DaemonEventView<R>)
    ensures
        daemon_step(pre, event).1 is Abort ==> daemon_step(pre, event).0 == pre.terminated()
            && pre.state != DaemonState::Serving && pre.state != DaemonState::Terminated,
        daemon_step(pre, event).1 is Exit ==> daemon_step(pre, event).0 == pre.terminated()
            && pre.state == DaemonState::Serving,
        daemon_step(pre, event).0.state == DaemonState::Terminated && pre.state
            != DaemonState::Terminated ==> daemon_step(pre, event).1 is Abort || daemon_step(
            pre,
            event,
        ).1 is Exit,
        daemon_step(pre, event).1 is Ignore ==> daemon_step(pre, event).0 == pre,
{
}

/// Different errors are described in different words.
pub proof fn lemma_error_texts_differ(a: DaemonError, b: DaemonError)
    requires
        a != b,
    ensures
        a.text() != b.text(),
{
    reveal_strlit("Failed to connect to session bus");
    reveal_strlit("Failed to request DBus name");
    reveal_strlit("Failed to parse name request result");
    reveal_strlit("Daemon already running on DBus");
    reveal_strlit("Name already exists on DBus");
    reveal_strlit("Unknown name request result: ");
    reveal_strlit("Failed to register DBus object");
    let x = a.text();
    let y = b.text();
    assert(x.len() > 0 && y.len() > 0);
    match (a, b) {
        (DaemonError::UnknownNameResult(m), DaemonError::UnknownNameResult(n)) => {
            let head = "Unknown name request result: "@;
            lemma_decimal_injective(m as nat, n as nat);
            if x == y {
                assert(decimal(m as nat) =~= x.skip(head.len() as int));
                assert(decimal(n as nat) =~= y.skip(head.len() as int));
            }
        },
        (DaemonError::UnknownNameResult(_), _) => {
            assert(x[0] == 'U');
            assert(y[0] != 'U');
        },
        (_, DaemonError::UnknownNameResult(_)) => {
            assert(y[0] == 'U');
            assert(x[0] != 'U');
        },
        _ => {
            assert(x.len() != y.len() || x[0] != y[0]);
        },
    }
}

/// A daemon that serves goes on serving, unchanged, until its exit comes due.
pub proof fn lemma_serving_until_exit<R>(pre: DaemonModel<R>, event: DaemonEventView<R>)
    requires
        pre.state == DaemonState::Serving,
    ensures
        event is ExitDue ==> daemon_step(pre, event) == (pre.terminated(), DaemonActionView::Exit),
        !(event is ExitDue) ==> daemon_step(pre, event) == (pre, DaemonActionView::Ignore),
{
}

/// Among the requests only a shutdown makes the daemon leave, and each
/// request has the one response that fits it.
pub proof fn lemma_dispatch_rules(m: MessageView)
    ensures
        dispatch_deferred(m) is Exit <==> m is Shutdown,
        dispatch_response(m) is Pong <==> m is Ping,
        !(dispatch_response(m) is Error),
        dispatch_deferred(m) matches DeferredView::Handle(h) ==> h == m && m is LoadImage,
{
}

/// An exchange with a daemon that serves: the call that a client places for
/// a request reads as that request, and the reply that carries the daemon's
/// response reads as that response.
pub proof fn lemma_exchange(m: MessageView)
    ensures
        decode_call(client_request(m).method, client_request(m).body) == Ok::<
            MessageView,
            ProtocolError,
        >(m),
        client_step(
            m,
            ClientEventView::Replied(seq![ArgView::Text(wire_text(dispatch_response(m)))]),
        ) == ClientActionView::Finish(Ok(dispatch_response(m))),
{
    lemma_message_round_trip(m);
    lemma_response_round_trip(dispatch_response(m));
}

/// A call that does not read as a request is refused with the words of the
/// fault. No request is made of it, so nothing is deferred: the daemon
/// neither leaves nor loads anything.
pub proof fn lemma_malformed_call_is_refused(method: Seq<char>, body: Seq<ArgView>)
    requires
        decode_call(method, body) is Err,
    ensures
        method != "Shutdown"@,
        method != "Ping"@,
        method == "LoadImage"@ ==> first_text(body) is None && decode_call(method, body) == Err::<
            MessageView,
            ProtocolError,
        >(ProtocolError::InvalidArgs),
        method != "LoadImage"@ ==> decode_call(method, body) == Err::<MessageView, ProtocolError>(
            ProtocolError::UnknownMethod,
        ),
        ({
            let refusal = ResponseView::Error(decode_call(method, body)->Err_0.text());
            decode_reply(seq![ArgView::Text(wire_text(refusal))]) == Ok::<ResponseView, IpcError>(
                refusal,
            )
        }),
{
    reveal_strlit("LoadImage");
    reveal_strlit("Shutdown");
    reveal_strlit("Ping");
    assert("Shutdown"@.len() != "LoadImage"@.len());
    assert("Ping"@.len() != "LoadImage"@.len());
    lemma_response_round_trip(ResponseView::Error(decode_call(method, body)->Err_0.text()));
}

} // verus!
