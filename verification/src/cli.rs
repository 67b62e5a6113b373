//! The choice of what one invocation of the program does.

use vstd::prelude::*;
use vstd::string::*;

verus! {

/// What the command line asked for.
#[derive(Debug)]
pub struct CommandLine {
    /// `--ping-daemon`
    pub ping_daemon: bool,
    /// `--shutdown-daemon`
    pub shutdown_daemon: bool,
    /// `--send-to-daemon`
    pub send_to_daemon: bool,
    /// `--daemon`
    pub daemon: bool,
    /// `--filename`, where it was given.
    pub filename: Option<String>,
}

/// What one invocation does.
#[derive(Debug)]
pub enum Mode {
    /// Ask the daemon whether it is there.
    PingDaemon,
    /// Tell the daemon to leave.
    ShutdownDaemon,
    /// Hand the daemon the image named `filename`.
    SendToDaemon { filename: String },
    /// Become the daemon.
    Daemon,
    /// Open the given image in a window of this process.
    Annotate,
}

/// What a [`Mode`] stands for.
pub enum ModeView {
    PingDaemon,
    ShutdownDaemon,
    SendToDaemon { filename: Seq<char> },
    Daemon,
    Annotate,
}

impl View for Mode {
    type V = ModeView;

    open spec fn view(&self) -> ModeView {
        match self {
            Mode::PingDaemon => ModeView::PingDaemon,
            Mode::ShutdownDaemon => ModeView::ShutdownDaemon,
            Mode::SendToDaemon { filename } => ModeView::SendToDaemon { filename: filename@ },
            Mode::Daemon => ModeView::Daemon,
            Mode::Annotate => ModeView::Annotate,
        }
    }
}

/// Why the command line cannot be followed.
#[derive(Debug, Clone, Copy, PartialEq, Eq, Structural)]
pub enum CliError {
    /// An image was to be sent and none was named.
    MissingFilename,
}

impl CliError {
    /// The words that describe the error.
    pub open spec fn text(self) -> Seq<char> {
        "--filename is required when using --send-to-daemon"@
    }

    /// The words that describe the error.
    pub fn message(&self) -> (r: String)
        ensures
            r@ == self.text(),
    {
        String::from_str("--filename is required when using --send-to-daemon")
    }
}

/// The view of a file name that may be missing.
pub open spec fn filename_view(filename: Option<String>) -> Option<Seq<char>> {
    match filename {
        Some(f) => Some(f@),
        None => None,
    }
}

/// The view of a choice that may have failed.
pub open spec fn mode_view(r: Result<Mode, CliError>) -> Result<ModeView, CliError> {
    match r {
        Ok(mode) => Ok(mode@),
        Err(e) => Err(e),
    }
}

/// The mode that the flags select. The first of ping, shutdown, send and
/// daemon that is set decides; with none of them set the image is opened
/// here. Sending needs a file name.
pub open spec fn mode_of(
    ping_daemon: bool,
    shutdown_daemon: bool,
    send_to_daemon: bool,
    daemon: bool,
    filename: Option<Seq<char>>,
) -> Result<ModeView, CliError> {
    if ping_daemon {
        Ok(ModeView::PingDaemon)
    } else if shutdown_daemon {
        Ok(ModeView::ShutdownDaemon)
    } else if send_to_daemon {
        match filename {
            Some(f) => Ok(ModeView::SendToDaemon { filename: f }),
            None => Err(CliError::MissingFilename),
        }
    } else if daemon {
        Ok(ModeView::Daemon)
    } else {
        Ok(ModeView::Annotate)
    }
}

/// Chooses what this invocation does.
pub fn select_mode(command_line: CommandLine) -> (r: Result<Mode, CliError>)
    ensures
        mode_view(r) == mode_of(
            command_line.ping_daemon,
            command_line.shutdown_daemon,
            command_line.send_to_daemon,
            command_line.daemon,
            filename_view(command_line.filename),
        ),
{
    if command_line.ping_daemon {
        Ok(Mode::PingDaemon)
    } else if command_line.shutdown_daemon {
        Ok(Mode::ShutdownDaemon)
    } else if command_line.send_to_daemon {
        match command_line.filename {
            Some(filename) => Ok(Mode::SendToDaemon { filename }),
            None => Err(CliError::MissingFilename),
        }
    } else if command_line.daemon {
        Ok(Mode::Daemon)
    } else {
        Ok(Mode::Annotate)
    }
}

} // verus!
