use satty_ipc::daemon::{
    AppCommand, DaemonAction, DaemonError, DaemonEvent, DaemonServer, DaemonState, Deferred,
    Lease, Task, NAME_FLAG_ALLOW_REPLACEMENT, NAME_FLAG_DO_NOT_QUEUE, NAME_REQUEST_FLAGS,
};
use satty_ipc::ipc::{IpcMessage, IpcResponse};
use satty_ipc::wire::{Arg, Payload};

type Daemon = DaemonServer<u32>;

fn requested() -> Daemon {
    let mut daemon = Daemon::new();
    assert!(matches!(daemon.run(DaemonEvent::Started), DaemonAction::Connect));
    assert!(matches!(daemon.run(DaemonEvent::Connected), DaemonAction::RequestName(_)));
    daemon
}

fn leased(code: u32) -> Daemon {
    let mut daemon = requested();
    assert!(matches!(
        daemon.run(DaemonEvent::NameReplied(Payload::number(code))),
        DaemonAction::RegisterObject(_)
    ));
    daemon
}

fn serving() -> Daemon {
    let mut daemon = leased(1);
    assert!(matches!(daemon.run(DaemonEvent::Registered(77)), DaemonAction::Serve));
    daemon
}

fn all_events() -> Vec<DaemonEvent<u32>> {
    vec![
        DaemonEvent::Started,
        DaemonEvent::Connected,
        DaemonEvent::ConnectFailed,
        DaemonEvent::NameReplied(Payload::number(1)),
        DaemonEvent::NameReplied(Payload::number(3)),
        DaemonEvent::NameRequestFailed,
        DaemonEvent::Registered(5),
        DaemonEvent::RegistrationFailed,
        DaemonEvent::ExitDue,
    ]
}

#[test]
fn name_request_flags_are_both_bits() {
    assert_eq!(NAME_FLAG_ALLOW_REPLACEMENT, 1);
    assert_eq!(NAME_FLAG_DO_NOT_QUEUE, 4);
    assert_eq!(NAME_REQUEST_FLAGS, NAME_FLAG_ALLOW_REPLACEMENT | NAME_FLAG_DO_NOT_QUEUE);
    assert_eq!(NAME_REQUEST_FLAGS, 5);
}

#[test]
fn name_request_asks_the_bus_for_the_name() {
    let request = Daemon::name_request();
    assert_eq!(request.destination, "org.freedesktop.DBus");
    assert_eq!(request.object_path, "/org/freedesktop/DBus");
    assert_eq!(request.interface, "org.freedesktop.DBus");
    assert_eq!(request.method, "RequestName");
    assert_eq!(
        request.body,
        Payload { args: vec![Arg::Text("com.gabm.satty".to_string()), Arg::Number(5)] }
    );
    assert_eq!(request.reply_signature.as_deref(), Some("(u)"));
    assert_eq!(request.timeout_ms, -1);
}

#[test]
fn acquire_reads_the_four_answers() {
    assert_eq!(Daemon::acquire(&Payload::number(1)), Ok(Lease::PrimaryOwner));
    assert_eq!(Daemon::acquire(&Payload::number(2)), Err(DaemonError::AlreadyRunning));
    assert_eq!(Daemon::acquire(&Payload::number(3)), Err(DaemonError::NameExists));
    assert_eq!(Daemon::acquire(&Payload::number(4)), Ok(Lease::AlreadyOwner));
}

#[test]
fn acquire_rejects_every_other_answer() {
    assert_eq!(Daemon::acquire(&Payload::number(0)), Err(DaemonError::UnknownNameResult(0)));
    assert_eq!(Daemon::acquire(&Payload::number(5)), Err(DaemonError::UnknownNameResult(5)));
    assert_eq!(
        Daemon::acquire(&Payload::number(u32::MAX)),
        Err(DaemonError::UnknownNameResult(u32::MAX))
    );
    assert_eq!(Daemon::acquire(&Payload::empty()), Err(DaemonError::MalformedNameReply));
    assert_eq!(
        Daemon::acquire(&Payload::text("1".to_string())),
        Err(DaemonError::MalformedNameReply)
    );
    assert_eq!(
        Daemon::acquire(&Payload { args: vec![Arg::Other] }),
        Err(DaemonError::MalformedNameReply)
    );
}

#[test]
fn daemon_errors_have_their_words() {
    assert_eq!(DaemonError::BusUnavailable.message(), "Failed to connect to session bus");
    assert_eq!(DaemonError::NameRequestFailed.message(), "Failed to request DBus name");
    assert_eq!(DaemonError::MalformedNameReply.message(), "Failed to parse name request result");
    assert_eq!(DaemonError::AlreadyRunning.message(), "Daemon already running on DBus");
    assert_eq!(DaemonError::NameExists.message(), "Name already exists on DBus");
    assert_eq!(
        DaemonError::UnknownNameResult(17).message(),
        "Unknown name request result: 17"
    );
    assert_eq!(DaemonError::UnknownNameResult(0).message(), "Unknown name request result: 0");
    assert_eq!(DaemonError::RegistrationFailed.message(), "Failed to register DBus object");
}

#[test]
fn only_the_two_conflicts_are_conflicts() {
    assert!(DaemonError::AlreadyRunning.conflict());
    assert!(DaemonError::NameExists.conflict());
    assert!(!DaemonError::BusUnavailable.conflict());
    assert!(!DaemonError::NameRequestFailed.conflict());
    assert!(!DaemonError::MalformedNameReply.conflict());
    assert!(!DaemonError::UnknownNameResult(2).conflict());
    assert!(!DaemonError::RegistrationFailed.conflict());
}

#[test]
fn leases_announce_themselves() {
    assert_eq!(Lease::PrimaryOwner.announcement(), "Daemon listening on DBus: com.gabm.satty");
    assert_eq!(Lease::AlreadyOwner.announcement(), "Daemon became primary owner on DBus");
}

#[test]
fn a_new_daemon_owns_nothing() {
    let daemon = Daemon::new();
    assert_eq!(daemon.state(), DaemonState::Unregistered);
    assert_eq!(daemon.lease(), None);
    assert!(!daemon.is_serving());
}

#[test]
fn startup_reaches_serving_as_primary_owner() {
    let mut daemon = Daemon::new();
    assert!(matches!(daemon.run(DaemonEvent::Started), DaemonAction::Connect));
    assert_eq!(daemon.state(), DaemonState::Unregistered);
    match daemon.run(DaemonEvent::Connected) {
        DaemonAction::RequestName(request) => assert_eq!(request.method, "RequestName"),
        other => panic!("unexpected action {:?}", other),
    }
    assert_eq!(daemon.state(), DaemonState::NameRequested);
    assert_eq!(daemon.lease(), None);
    match daemon.run(DaemonEvent::NameReplied(Payload::number(1))) {
        DaemonAction::RegisterObject(lease) => assert_eq!(lease, Lease::PrimaryOwner),
        other => panic!("unexpected action {:?}", other),
    }
    assert_eq!(daemon.state(), DaemonState::NameRequested);
    assert_eq!(daemon.lease(), Some(Lease::PrimaryOwner));
    assert!(!daemon.is_serving());
    assert!(matches!(daemon.run(DaemonEvent::Registered(9)), DaemonAction::Serve));
    assert_eq!(daemon.state(), DaemonState::Serving);
    assert!(daemon.is_serving());
    assert_eq!(daemon.lease(), Some(Lease::PrimaryOwner));
}

#[test]
fn startup_reaches_serving_as_already_owner() {
    let mut daemon = requested();
    match daemon.run(DaemonEvent::NameReplied(Payload::number(4))) {
        DaemonAction::RegisterObject(lease) => assert_eq!(lease, Lease::AlreadyOwner),
        other => panic!("unexpected action {:?}", other),
    }
    assert!(matches!(daemon.run(DaemonEvent::Registered(1)), DaemonAction::Serve));
    assert!(daemon.is_serving());
    assert_eq!(daemon.lease(), Some(Lease::AlreadyOwner));
}

#[test]
fn connect_failure_aborts() {
    let mut daemon = Daemon::new();
    daemon.run(DaemonEvent::Started);
    match daemon.run(DaemonEvent::ConnectFailed) {
        DaemonAction::Abort(e) => assert_eq!(e, DaemonError::BusUnavailable),
        other => panic!("unexpected action {:?}", other),
    }
    assert_eq!(daemon.state(), DaemonState::Terminated);
}

#[test]
fn name_conflicts_abort() {
    for (code, error) in [(2, DaemonError::AlreadyRunning), (3, DaemonError::NameExists)] {
        let mut daemon = requested();
        match daemon.run(DaemonEvent::NameReplied(Payload::number(code))) {
            DaemonAction::Abort(e) => {
                assert_eq!(e, error);
                assert!(e.conflict());
            }
            other => panic!("unexpected action {:?}", other),
        }
        assert_eq!(daemon.state(), DaemonState::Terminated);
        assert_eq!(daemon.lease(), None);
        assert!(matches!(daemon.run(DaemonEvent::Registered(3)), DaemonAction::Ignore));
        assert!(!daemon.is_serving());
    }
}

#[test]
fn other_name_failures_abort() {
    let cases: Vec<(DaemonEvent<u32>, DaemonError)> = vec![
        (DaemonEvent::NameRequestFailed, DaemonError::NameRequestFailed),
        (DaemonEvent::NameReplied(Payload::empty()), DaemonError::MalformedNameReply),
        (DaemonEvent::NameReplied(Payload::number(9)), DaemonError::UnknownNameResult(9)),
    ];
    for (event, error) in cases {
        let mut daemon = requested();
        match daemon.run(event) {
            DaemonAction::Abort(e) => assert_eq!(e, error),
            other => panic!("unexpected action {:?}", other),
        }
        assert_eq!(daemon.state(), DaemonState::Terminated);
    }
}

#[test]
fn registration_failure_aborts() {
    let mut daemon = leased(1);
    match daemon.run(DaemonEvent::RegistrationFailed) {
        DaemonAction::Abort(e) => assert_eq!(e, DaemonError::RegistrationFailed),
        other => panic!("unexpected action {:?}", other),
    }
    assert_eq!(daemon.state(), DaemonState::Terminated);
    assert_eq!(daemon.lease(), Some(Lease::PrimaryOwner));
}

#[test]
fn registration_needs_a_lease() {
    let mut daemon = requested();
    assert!(matches!(daemon.run(DaemonEvent::Registered(4)), DaemonAction::Ignore));
    assert_eq!(daemon.state(), DaemonState::NameRequested);
    assert!(matches!(daemon.run(DaemonEvent::RegistrationFailed), DaemonAction::Ignore));
    assert_eq!(daemon.state(), DaemonState::NameRequested);
}

#[test]
fn a_second_answer_to_the_name_request_is_ignored() {
    let mut daemon = leased(1);
    assert!(matches!(
        daemon.run(DaemonEvent::NameReplied(Payload::number(3))),
        DaemonAction::Ignore
    ));
    assert!(matches!(daemon.run(DaemonEvent::NameRequestFailed), DaemonAction::Ignore));
    assert_eq!(daemon.state(), DaemonState::NameRequested);
    assert_eq!(daemon.lease(), Some(Lease::PrimaryOwner));
}

#[test]
fn events_out_of_place_are_ignored_before_the_name_request() {
    for event in all_events() {
        let in_place = matches!(
            event,
            DaemonEvent::Started | DaemonEvent::Connected | DaemonEvent::ConnectFailed
        );
        if in_place {
            continue;
        }
        let mut daemon = Daemon::new();
        assert!(matches!(daemon.run(event), DaemonAction::Ignore));
        assert_eq!(daemon.state(), DaemonState::Unregistered);
        assert_eq!(daemon.lease(), None);
    }
}

#[test]
fn serving_ends_only_when_the_exit_is_due() {
    for event in all_events() {
        if matches!(event, DaemonEvent::ExitDue) {
            continue;
        }
        let mut daemon = serving();
        assert!(matches!(daemon.run(event), DaemonAction::Ignore));
        assert!(daemon.is_serving());
    }
    let mut daemon = serving();
    assert!(matches!(daemon.run(DaemonEvent::ExitDue), DaemonAction::Exit));
    assert_eq!(daemon.state(), DaemonState::Terminated);
}

#[test]
fn terminated_is_final() {
    for event in all_events() {
        let mut daemon = requested();
        daemon.run(DaemonEvent::NameRequestFailed);
        assert_eq!(daemon.state(), DaemonState::Terminated);
        assert!(matches!(daemon.run(event), DaemonAction::Ignore));
        assert_eq!(daemon.state(), DaemonState::Terminated);
    }
}

#[test]
fn without_a_grant_no_sequence_of_events_serves() {
    let pool: Vec<fn() -> DaemonEvent<u32>> = vec![
        || DaemonEvent::Started,
        || DaemonEvent::Connected,
        || DaemonEvent::NameReplied(Payload::number(2)),
        || DaemonEvent::NameReplied(Payload::number(3)),
        || DaemonEvent::NameReplied(Payload::number(0)),
        || DaemonEvent::Registered(1),
        || DaemonEvent::ExitDue,
    ];
    let n = pool.len();
    for a in 0..n {
        for b in 0..n {
            for c in 0..n {
                for d in 0..n {
                    let mut daemon = Daemon::new();
                    for i in [a, b, c, d] {
                        daemon.run(pool[i]());
                        assert!(!daemon.is_serving());
                        assert_eq!(daemon.lease(), None);
                    }
                }
            }
        }
    }
}

#[test]
fn ping_is_answered_with_pong() {
    let d = Daemon::dispatch(IpcMessage::Ping);
    assert_eq!(d.response, IpcResponse::Pong);
    assert!(matches!(d.deferred, Deferred::Nothing));
}

#[test]
fn shutdown_is_acknowledged_before_the_exit() {
    let d = Daemon::dispatch(IpcMessage::Shutdown);
    assert_eq!(d.response, IpcResponse::Accepted);
    assert!(matches!(d.deferred, Deferred::Exit));
}

#[test]
fn load_image_is_acknowledged_and_deferred() {
    let d = Daemon::dispatch(IpcMessage::LoadImage { filename: "/tmp/a.png".to_string() });
    assert_eq!(d.response, IpcResponse::Accepted);
    match d.deferred {
        Deferred::Handle(m) => {
            assert_eq!(m, IpcMessage::LoadImage { filename: "/tmp/a.png".to_string() })
        }
        other => panic!("unexpected deferred work {:?}", other),
    }
}

#[test]
fn handle_message_asks_for_the_image() {
    match Daemon::handle_message(IpcMessage::LoadImage { filename: "/tmp/a.png".to_string() }) {
        Task::DecodeImage { filename } => assert_eq!(filename, "/tmp/a.png"),
        other => panic!("unexpected task {:?}", other),
    }
    assert!(matches!(Daemon::handle_message(IpcMessage::Ping), Task::Nothing));
    assert!(matches!(Daemon::handle_message(IpcMessage::Shutdown), Task::Nothing));
}

#[test]
fn a_decoded_image_is_loaded_and_shown() {
    let loaded = Daemon::image_decoded("/tmp/a.png", Some(41u8));
    assert_eq!(loaded.commands.len(), 2);
    assert!(matches!(loaded.commands[0], AppCommand::LoadNewImage(41)));
    assert!(matches!(loaded.commands[1], AppCommand::ShowWindow));
    assert_eq!(loaded.log, None);
}

#[test]
fn a_failed_decode_hides_the_window() {
    let loaded = Daemon::image_decoded::<u8>("/tmp/missing.png", None);
    assert_eq!(loaded.commands.len(), 1);
    assert!(matches!(loaded.commands[0], AppCommand::HideWindow));
    assert_eq!(
        loaded.log.as_deref(),
        Some("Failed to load image: Failed to load image from file: /tmp/missing.png")
    );
}
