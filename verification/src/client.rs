//! The client: what a short-lived invocation sends to the daemon, where the
//! image it sends comes from, and what it tells the operator at the end.

use crate::ipc::{reply_view, IpcError, IpcMessage, IpcResponse, MessageView, ResponseView};
use crate::text::{decimal, decimal_string, join, lemma_decimal_injective, same_text};
use vstd::prelude::*;
use vstd::string::*;

verus! {

/// The file name that stands for the standard input.
pub const STANDARD_INPUT: &'static str = "-";

/// The exit code of an invocation that succeeded.
pub const EXIT_SUCCESS: i32 = 0;

/// The exit code of an invocation that failed.
pub const EXIT_FAILURE: i32 = 1;

/// What a client invocation does.
#[derive(Debug, Clone, Copy, PartialEq, Eq, Structural)]
pub enum Operation {
    /// Ask whether the daemon is there.
    Ping,
    /// Tell the daemon to leave.
    Shutdown,
    /// Hand the daemon an image.
    SendImage,
}

/// Where the image to send comes from.
#[derive(Debug, Clone, Copy, PartialEq, Eq, Structural)]
pub enum ImageSource {
    /// The bytes on the standard input, which are first written to a
    /// temporary file.
    StandardInput,
    /// A file, whose path is first resolved to an absolute one.
    File,
}

/// What went wrong before an image could be sent.
#[derive(Debug, Clone, Copy, PartialEq, Eq, Structural)]
pub enum StagingError {
    /// The standard input could not be read.
    ReadFailed,
    /// The temporary file could not be written.
    WriteFailed,
    /// The path of the file could not be resolved.
    ResolveFailed,
}

/// What the operator is told at the end of an invocation.
#[derive(Debug)]
pub struct Report {
    /// The exit code of the process.
    pub code: i32,
    /// The one line written to the error stream.
    pub line: String,
}

/// What a [`Report`] stands for.
pub struct ReportView {
    pub code: int,
    pub line: Seq<char>,
}

impl View for Report {
    type V = ReportView;

    open spec fn view(&self) -> ReportView {
        ReportView { code: self.code as int, line: self.line@ }
    }
}

impl Report {
    /// Whether the invocation succeeded.
    pub fn success(&self) -> (r: bool)
        ensures
            r == (self@.code == EXIT_SUCCESS),
    {
        self.code == EXIT_SUCCESS
    }
}

impl Operation {
    /// The line that reports success.
    pub open spec fn success_text(self) -> Seq<char> {
        match self {
            Operation::Ping => "Daemon is running"@,
            Operation::Shutdown => "Shutdown signal sent to daemon"@,
            Operation::SendImage => "Image sent to daemon successfully"@,
        }
    }

    /// The words with which a line that reports failure begins.
    pub open spec fn failure_prefix(self) -> Seq<char> {
        match self {
            Operation::Ping => "Error: "@,
            Operation::Shutdown => "Error: "@,
            Operation::SendImage => "Failed to send image to daemon: "@,
        }
    }
}

impl StagingError {
    /// The words that describe the error, for the file that was named.
    pub open spec fn text(self, filename: Seq<char>) -> Seq<char> {
        match self {
            StagingError::ReadFailed => "Failed to read image from stdin"@,
            StagingError::WriteFailed => "Failed to write temporary file"@,
            StagingError::ResolveFailed => "Failed to resolve image file path: "@ + filename,
        }
    }
}

/// Where the image named `filename` comes from.
pub open spec fn source_of(filename: Seq<char>) -> ImageSource {
    if filename == STANDARD_INPUT@ {
        ImageSource::StandardInput
    } else {
        ImageSource::File
    }
}

/// The name of the temporary file of the process `pid`.
pub open spec fn temp_name(pid: nat) -> Seq<char> {
    "satty-"@ + decimal(pid) + ".png"@
}

/// Why an exchange failed, in words: the transport's error where no response
/// came, the daemon's reason where it refused. `None` where it succeeded.
pub open spec fn failure_of(outcome: Result<ResponseView, IpcError>) -> Option<Seq<char>> {
    match outcome {
        Err(e) => Some(e.text()),
        Ok(ResponseView::Error(reason)) => Some(reason),
        Ok(_) => None,
    }
}

/// The report on `operation` after an exchange that ended with `outcome`.
pub open spec fn report_of(
    operation: Operation,
    outcome: Result<ResponseView, IpcError>,
) -> ReportView {
    match failure_of(outcome) {
        None => ReportView { code: EXIT_SUCCESS as int, line: operation.success_text() },
        Some(why) => ReportView {
            code: EXIT_FAILURE as int,
            line: operation.failure_prefix() + why,
        },
    }
}

/// What happened during a client operation.
#[derive(Debug)]
pub enum Event {
    /// Nothing has been done yet.
    Started,
    /// The image is in a file, at this absolute path.
    Staged { path: String },
    /// The image could not be made ready.
    StagingFailed(StagingError),
    /// The exchange with the daemon ended with this outcome.
    Answered(Result<IpcResponse, IpcError>),
}

/// What an [`Event`] stands for.
pub enum EventView {
    Started,
    Staged { path: Seq<char> },
    StagingFailed(StagingError),
    Answered(Result<ResponseView, IpcError>),
}

impl View for Event {
    type V = EventView;

    open spec fn view(&self) -> EventView {
        match self {
            Event::Started => EventView::Started,
            Event::Staged { path } => EventView::Staged { path: path@ },
            Event::StagingFailed(e) => EventView::StagingFailed(*e),
            Event::Answered(outcome) => EventView::Answered(reply_view(*outcome)),
        }
    }
}

/// What the caller of a client operation is to do next.
#[derive(Debug)]
pub enum Step {
    /// Read the standard input to its end and write what was read to a file
    /// of this name in the directory for temporary files.
    SpoolStandardInput { file_name: String },
    /// Resolve the name of this file to an absolute path.
    Resolve { filename: String },
    /// Send this request to the daemon and wait for the outcome.
    Send(IpcMessage),
    /// Tell the operator and leave.
    Done(Report),
}

/// What a [`Step`] stands for.
pub enum StepView {
    SpoolStandardInput { file_name: Seq<char> },
    Resolve { filename: Seq<char> },
    Send(MessageView),
    Done(ReportView),
}

impl View for Step {
    type V = StepView;

    open spec fn view(&self) -> StepView {
        match self {
            Step::SpoolStandardInput { file_name } => StepView::SpoolStandardInput {
                file_name: file_name@,
            },
            Step::Resolve { filename } => StepView::Resolve { filename: filename@ },
            Step::Send(message) => StepView::Send(message@),
            Step::Done(report) => StepView::Done(report@),
        }
    }
}

/// The report on an image that could not be made ready for sending.
pub open spec fn staging_report(error: StagingError, filename: Seq<char>) -> ReportView {
    ReportView { code: EXIT_FAILURE as int, line: "Error: "@ + error.text(filename) }
}

/// The next step of sending the image named `filename` from the process
/// `pid`. The image is first made ready: the standard input is written to
/// the temporary file of the process, the name of a file is resolved. Only
/// the path that comes back is sent, and the outcome of the exchange is
/// reported.
pub open spec fn send_image_step(filename: Seq<char>, pid: nat, event: EventView) -> StepView {
    match event {
        EventView::Started => match source_of(filename) {
            ImageSource::StandardInput => StepView::SpoolStandardInput {
                file_name: temp_name(pid),
            },
            ImageSource::File => StepView::Resolve { filename },
        },
        EventView::Staged { path } => StepView::Send(MessageView::LoadImage { filename: path }),
        EventView::StagingFailed(error) => StepView::Done(staging_report(error, filename)),
        EventView::Answered(outcome) => StepView::Done(report_of(Operation::SendImage, outcome)),
    }
}

/// The next step of an operation that sends `message` and needs no image:
/// the outcome of the exchange is reported once it is there, and until then
/// the request is to be sent. What is said of an image means nothing to it.
pub open spec fn plain_step(
    operation: Operation,
    message: MessageView,
    event: EventView,
) -> StepView {
    match event {
        EventView::Answered(outcome) => StepView::Done(report_of(operation, outcome)),
        _ => StepView::Send(message),
    }
}

/// The short-lived side of the protocol. Each operation is a sequence of
/// steps: it is called with [`Event::Started`] first, and then with what came
/// of the step before, until the step is [`Step::Done`].
pub struct Client;

impl Client {
    /// Where the image named `filename` comes from.
    pub fn image_source(filename: &str) -> (r: ImageSource)
        ensures
            r == source_of(filename@),
    {
        if same_text(filename, STANDARD_INPUT) {
            ImageSource::StandardInput
        } else {
            ImageSource::File
        }
    }

    /// The name of the temporary file into which the process `pid` writes
    /// what it read from the standard input.
    pub fn temp_file_name(pid: u32) -> (r: String)
        ensures
            r@ == temp_name(pid as nat),
    {
        let number = decimal_string(pid);
        let stem = join("satty-", number.as_str());
        join(stem.as_str(), ".png")
    }

    /// The report on `operation` after an exchange that ended with `outcome`.
    pub fn report(operation: Operation, outcome: &Result<IpcResponse, IpcError>) -> (r: Report)
        ensures
            r@ == report_of(operation, reply_view(*outcome)),
    {
        let why: Option<String> = match outcome {
            Err(e) => Some(e.message()),
            Ok(IpcResponse::Error(reason)) => Some(reason.clone()),
            Ok(_) => None,
        };
        match why {
            None => {
                let line = match operation {
                    Operation::Ping => String::from_str("Daemon is running"),
                    Operation::Shutdown => String::from_str("Shutdown signal sent to daemon"),
                    Operation::SendImage => String::from_str("Image sent to daemon successfully"),
                };
                Report { code: EXIT_SUCCESS, line }
            },
            Some(why) => {
                let prefix = match operation {
                    Operation::Ping => "Error: ",
                    Operation::Shutdown => "Error: ",
                    Operation::SendImage => "Failed to send image to daemon: ",
                };
                Report { code: EXIT_FAILURE, line: join(prefix, why.as_str()) }
            },
        }
    }

    /// The report on an image that could not be made ready for sending.
    pub fn staging_failed(error: StagingError, filename: &str) -> (r: Report)
        ensures
            r@ == staging_report(error, filename@),
    {
        let why = match error {
            StagingError::ReadFailed => String::from_str("Failed to read image from stdin"),
            StagingError::WriteFailed => String::from_str("Failed to write temporary file"),
            StagingError::ResolveFailed => join("Failed to resolve image file path: ", filename),
        };
        Report { code: EXIT_FAILURE, line: join("Error: ", why.as_str()) }
    }

    /// One step of handing the daemon the image named `filename`, from the
    /// process `pid`.
    pub fn send_image(filename: &str, pid: u32, event: Event) -> (r: Step)
        ensures
            r@ == send_image_step(filename@, pid as nat, event@),
    {
        match event {
            Event::Started => match Client::image_source(filename) {
                ImageSource::StandardInput => Step::SpoolStandardInput {
                    file_name: Client::temp_file_name(pid),
                },
                ImageSource::File => Step::Resolve { filename: String::from_str(filename) },
            },
            Event::Staged { path } => Step::Send(IpcMessage::LoadImage { filename: path }),
            Event::StagingFailed(error) => Step::Done(Client::staging_failed(error, filename)),
            Event::Answered(outcome) => Step::Done(Client::report(Operation::SendImage, &outcome)),
        }
    }

    /// One step of asking the daemon whether it is there.
    pub fn ping(event: Event) -> (r: Step)
        ensures
            r@ == plain_step(Operation::Ping, MessageView::Ping, event@),
    {
        Client::plain(Operation::Ping, IpcMessage::Ping, event)
    }

    /// One step of telling the daemon to leave.
    pub fn shutdown(event: Event) -> (r: Step)
        ensures
            r@ == plain_step(Operation::Shutdown, MessageView::Shutdown, event@),
    {
        Client::plain(Operation::Shutdown, IpcMessage::Shutdown, event)
    }

    fn plain(operation: Operation, message: IpcMessage, event: Event) -> (r: Step)
        ensures
            r@ == plain_step(operation, message@, event@),
    {
        match event {
            Event::Answered(outcome) => Step::Done(Client::report(operation, &outcome)),
            _ => Step::Send(message),
        }
    }
}

/// An invocation succeeds exactly when a response came and it is no refusal.
pub proof fn lemma_report_code(operation: Operation, outcome: Result<ResponseView, IpcError>)
    ensures
        report_of(operation, outcome).code == EXIT_SUCCESS <==> (outcome matches Ok(response)
            && !(response is Error)),
        report_of(operation, outcome).code == EXIT_SUCCESS || report_of(operation, outcome).code
            == EXIT_FAILURE,
{
}

/// An image is sent only once it is in a file, and what is sent is the path
/// of that file. The standard input goes to the temporary file of the
/// process and to no other.
pub proof fn lemma_image_is_staged_before_it_is_sent(
    filename: Seq<char>,
    pid: nat,
    event: EventView,
)
    ensures
        send_image_step(filename, pid, event) matches StepView::Send(message) ==> (
        event matches EventView::Staged { path } && message == (MessageView::LoadImage {
            filename: path,
        })),
        send_image_step(filename, pid, event) matches StepView::SpoolStandardInput { file_name }
            ==> event is Started && filename == STANDARD_INPUT@ && file_name == temp_name(pid),
        send_image_step(filename, pid, event) matches StepView::Resolve { filename: named }
            ==> event is Started && filename != STANDARD_INPUT@ && named == filename,
{
}

/// Different processes write to different temporary files.
pub proof fn lemma_temp_names_differ(a: nat, b: nat)
    requires
        a != b,
    ensures
        temp_name(a) != temp_name(b),
{
    reveal_strlit("satty-");
    reveal_strlit(".png");
    lemma_decimal_injective(a, b);
    let x = decimal(a);
    let y = decimal(b);
    if temp_name(a) == temp_name(b) {
        assert(x.len() == y.len()) by {
            assert(temp_name(a).len() == 6 + x.len() + 4);
            assert(temp_name(b).len() == 6 + y.len() + 4);
        }
        assert(x =~= y) by {
            assert forall|i: int| 0 <= i < x.len() implies x[i] == y[i] by {
                assert(temp_name(a)[6 + i] == x[i]);
                assert(temp_name(b)[6 + i] == y[i]);
            }
        }
    }
}

} // verus!
