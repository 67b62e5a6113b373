use satty_ipc::cli::{select_mode, CliError, CommandLine, Mode};

fn flags(ping: bool, shutdown: bool, send: bool, daemon: bool, filename: Option<&str>) -> CommandLine {
    CommandLine {
        ping_daemon: ping,
        shutdown_daemon: shutdown,
        send_to_daemon: send,
        daemon,
        filename: filename.map(|f| f.to_string()),
    }
}

#[test]
fn no_flag_opens_the_image_here() {
    assert!(matches!(select_mode(flags(false, false, false, false, None)), Ok(Mode::Annotate)));
    assert!(matches!(
        select_mode(flags(false, false, false, false, Some("a.png"))),
        Ok(Mode::Annotate)
    ));
}

#[test]
fn each_flag_selects_its_mode() {
    assert!(matches!(select_mode(flags(true, false, false, false, None)), Ok(Mode::PingDaemon)));
    assert!(matches!(
        select_mode(flags(false, true, false, false, None)),
        Ok(Mode::ShutdownDaemon)
    ));
    assert!(matches!(select_mode(flags(false, false, false, true, None)), Ok(Mode::Daemon)));
    match select_mode(flags(false, false, true, false, Some("-"))) {
        Ok(Mode::SendToDaemon { filename }) => assert_eq!(filename, "-"),
        other => panic!("unexpected mode {:?}", other),
    }
}

#[test]
fn sending_needs_a_file_name() {
    match select_mode(flags(false, false, true, false, None)) {
        Err(e) => {
            assert_eq!(e, CliError::MissingFilename);
            assert_eq!(e.message(), "--filename is required when using --send-to-daemon");
        }
        other => panic!("unexpected mode {:?}", other),
    }
    assert!(matches!(
        select_mode(flags(false, false, true, true, None)),
        Err(CliError::MissingFilename)
    ));
}

#[test]
fn earlier_flags_win() {
    assert!(matches!(select_mode(flags(true, true, true, true, None)), Ok(Mode::PingDaemon)));
    assert!(matches!(
        select_mode(flags(false, true, true, true, None)),
        Ok(Mode::ShutdownDaemon)
    ));
    match select_mode(flags(false, false, true, true, Some("/tmp/a.png"))) {
        Ok(Mode::SendToDaemon { filename }) => assert_eq!(filename, "/tmp/a.png"),
        other => panic!("unexpected mode {:?}", other),
    }
}
