use kleinhirn::configuration::Program;
use kleinhirn::fork_exec::{
    ack_frame, AckError, AckFrame, Command, ForkExec, SpawnError, WorkerDied, NAME_ENV,
    VERSION_ENV, WORKER_CONTROL_CHANNEL_ENV, WORKER_ID_ENV,
};
use kleinhirn::process_control::Message;
use kleinhirn::worker_ack::{Received, WorkerControlFD, WorkerControlMessage};

fn program(ack_workers: bool) -> Program {
    Program {
        cmdline: vec!["/bin/sleep".to_string(), "10".to_string(), "--quiet".to_string()],
        env: vec![
            ("RACK_ENV".to_string(), "production".to_string()),
            ("KLEINHIRN_NAME".to_string(), "shadowed".to_string()),
        ],
        cwd: Some("/srv/app".to_string()),
        ack_workers,
    }
}

fn pair(name: &str, value: &str) -> (String, String) {
    (name.to_string(), value.to_string())
}

#[test]
fn environment_names() {
    assert_eq!(WORKER_ID_ENV, "KLEINHIRN_WORKER_ID");
    assert_eq!(WORKER_CONTROL_CHANNEL_ENV, "KLEINHIRN_STATUS_FD");
    assert_eq!(NAME_ENV, "KLEINHIRN_NAME");
    assert_eq!(VERSION_ENV, "KLEINHIRN_VERSION");
}

#[test]
fn command_without_control_channel() {
    let controller = ForkExec::for_program(&program(false));
    assert!(!controller.ack_workers());
    assert!(controller.can_spawn());
    let command = controller.command(&"w-1".to_string(), None).unwrap();
    assert_eq!(
        command,
        Command {
            program: "/bin/sleep".to_string(),
            args: vec!["10".to_string(), "--quiet".to_string()],
            env: vec![
                pair("RACK_ENV", "production"),
                pair("KLEINHIRN_NAME", "shadowed"),
                pair("KLEINHIRN_WORKER_ID", "w-1"),
                pair("KLEINHIRN_NAME", "/bin/sleep 10 --quiet"),
            ],
            cwd: Some("/srv/app".to_string()),
        }
    );
}

#[test]
fn command_with_control_channel() {
    let controller = ForkExec::for_program(&program(true));
    assert!(controller.ack_workers());
    let held = WorkerControlFD::new(12);
    let command = controller.command(&"w-2".to_string(), Some(&held)).unwrap();
    assert_eq!(
        command.env,
        vec![
            pair("RACK_ENV", "production"),
            pair("KLEINHIRN_NAME", "shadowed"),
            pair("KLEINHIRN_WORKER_ID", "w-2"),
            pair("KLEINHIRN_NAME", "/bin/sleep 10 --quiet"),
            pair("KLEINHIRN_STATUS_FD", "12"),
        ]
    );
}

#[test]
fn command_of_a_single_word() {
    let controller = ForkExec::for_program(&Program {
        cmdline: vec!["/bin/true".to_string()],
        ..Default::default()
    });
    let command = controller.command(&"id".to_string(), None).unwrap();
    assert_eq!(command.program, "/bin/true");
    assert!(command.args.is_empty());
    assert_eq!(command.cwd, None);
    assert_eq!(
        command.env,
        vec![pair("KLEINHIRN_WORKER_ID", "id"), pair("KLEINHIRN_NAME", "/bin/true")]
    );
    assert!(!ForkExec::for_program(&Program::default()).can_spawn());
}

#[test]
fn empty_command_line_is_a_spawn_error() {
    let mut controller = ForkExec::for_program(&Program {
        cmdline: Vec::new(),
        env: vec![pair("A", "b")],
        cwd: Some("/tmp".to_string()),
        ack_workers: true,
    });
    assert!(!controller.can_spawn());
    assert_eq!(controller.spawn_process(None), Err(SpawnError::EmptyCommandLine));
    let held = WorkerControlFD::new(5);
    assert_eq!(controller.spawn_process(Some(&held)), Err(SpawnError::EmptyCommandLine));
    assert_eq!(
        controller.command(&"id".to_string(), None),
        Err(SpawnError::EmptyCommandLine)
    );
    // nothing is told to the supervisor of a worker that could not be started
    assert_eq!(controller.next_message(), None);
    assert_eq!(SpawnError::EmptyCommandLine.message(), "no commandline given");
}

#[test]
fn spawn_process_picks_fresh_ids() {
    let controller = ForkExec::for_program(&program(false));
    let (first, command) = controller.spawn_process(None).unwrap();
    let (second, _) = controller.spawn_process(None).unwrap();
    assert_eq!(first.chars().count(), 36);
    assert_eq!(second.chars().count(), 36);
    assert_ne!(first, second);
    assert_eq!(Ok(command), controller.command(&first, None));
    for id in [first, second] {
        for (place, c) in id.chars().enumerate() {
            if [8, 13, 18, 23].contains(&place) {
                assert_eq!(c, '-');
            } else {
                assert!(c.is_ascii_digit() || ('a'..='f').contains(&c), "{:?} in {}", c, id);
            }
        }
    }
}

#[test]
fn launch_without_acks_reports_ready_at_once() {
    let mut controller = ForkExec::for_program(&program(false));
    assert_eq!(controller.next_message(), None);
    controller.launched(&"a".to_string(), 100);
    controller.launched(&"b".to_string(), 101);
    assert_eq!(
        controller.next_message(),
        Some(Message::Launched { id: "a".to_string(), pid: 100 })
    );
    assert_eq!(controller.next_message(), Some(Message::Ack { id: "a".to_string() }));
    assert_eq!(
        controller.next_message(),
        Some(Message::Launched { id: "b".to_string(), pid: 101 })
    );
    assert_eq!(controller.next_message(), Some(Message::Ack { id: "b".to_string() }));
    assert_eq!(controller.next_message(), None);
    assert_eq!(controller.next_message(), None);
}

#[test]
fn launch_with_acks_waits_for_the_worker() {
    let mut controller = ForkExec::for_program(&program(true));
    controller.launched(&"a".to_string(), 100);
    let said = AckFrame::Message(WorkerControlMessage::Ack { id: "a".to_string() });
    assert_eq!(controller.receive_control_channel_ack(&"a".to_string(), said), Ok(()));
    assert_eq!(
        controller.next_message(),
        Some(Message::Launched { id: "a".to_string(), pid: 100 })
    );
    assert_eq!(controller.next_message(), Some(Message::Ack { id: "a".to_string() }));
    assert_eq!(controller.next_message(), None);
}

#[test]
fn bad_acks_are_errors_and_tell_nothing() {
    let mut controller = ForkExec::for_program(&program(true));
    assert_eq!(
        controller.receive_control_channel_ack(&"a".to_string(), AckFrame::Closed),
        Err(AckError::Died(WorkerDied))
    );
    assert_eq!(
        controller.receive_control_channel_ack(&"a".to_string(), AckFrame::Undecodable),
        Err(AckError::Undecodable)
    );
    let other = AckFrame::Message(WorkerControlMessage::Ack { id: "b".to_string() });
    assert_eq!(
        controller.receive_control_channel_ack(&"a".to_string(), other),
        Err(AckError::Mismatch { expected: "a".to_string(), acked: "b".to_string() })
    );
    assert_eq!(controller.next_message(), None);
    assert_eq!(
        WorkerDied.message(),
        "worker process has died or closed the control channel"
    );
}

#[test]
fn ack_frames_are_told_apart() {
    let said = WorkerControlMessage::Ack { id: "a".to_string() };
    assert_eq!(ack_frame(&Received::PeerClosed, None), AckFrame::Closed);
    assert_eq!(ack_frame(&Received::PeerClosed, Some(said.clone())), AckFrame::Closed);
    let line = Received::Line("{\"action\":\"ack\",\"id\":\"a\"}\n".to_string());
    assert_eq!(ack_frame(&line, Some(said.clone())), AckFrame::Message(said));
    assert_eq!(ack_frame(&Received::Line("nonsense\n".to_string()), None), AckFrame::Undecodable);
}
