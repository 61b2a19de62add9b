use kleinhirn::fork_exec::Command;
use kleinhirn::preloader::machine::{Failed, Loading, PreloaderState, Ready, Starting};
use kleinhirn::preloader::{
    next_preloader_message, translate_message, ChannelError, ControlError, LogLevel, LogRecord,
    Preloader, PreloaderDied, PreloaderFailed, PreloaderLaunchFailure, PreloaderMessage,
    PreloaderRead, PreloaderRequest, PreloaderSpecificMessage, Translated,
};
use kleinhirn::process_control::Message;
use kleinhirn::supervisor::ControlFailure;
use kleinhirn::worker_ack::{Received, WorkerControlFD, WorkerControlMessage};

fn loading(file: &str) -> PreloaderMessage {
    PreloaderMessage::Preloader(PreloaderSpecificMessage::Loading { file: file.to_string() })
}

fn ready() -> PreloaderMessage {
    PreloaderMessage::Preloader(PreloaderSpecificMessage::Ready)
}

fn error() -> PreloaderMessage {
    PreloaderMessage::Preloader(PreloaderSpecificMessage::Error {
        message: "bad".to_string(),
        error: None,
    })
}

fn failed(id: &str) -> PreloaderMessage {
    PreloaderMessage::Preloader(PreloaderSpecificMessage::Failed {
        id: id.to_string(),
        message: "out of memory".to_string(),
    })
}

fn launched(id: &str, pid: u32) -> PreloaderMessage {
    PreloaderMessage::Preloader(PreloaderSpecificMessage::Launched { id: id.to_string(), pid })
}

fn ack(id: &str) -> PreloaderMessage {
    PreloaderMessage::WorkerControl(WorkerControlMessage::Ack { id: id.to_string() })
}

fn log() -> PreloaderMessage {
    PreloaderMessage::Preloader(PreloaderSpecificMessage::Log {
        level: LogLevel::Info,
        msg: "hello".to_string(),
        kv: vec![("k".to_string(), "v".to_string())],
    })
}

fn every_message() -> Vec<PreloaderMessage> {
    vec![loading("a.rb"), ready(), error(), failed("w"), launched("w", 1), ack("w"), log()]
}

#[test]
fn starting_takes_only_a_loading_file() {
    assert_eq!(Starting {}.on_preloader_message(loading("a.rb")), PreloaderState::Loading(Loading {}));
    assert_eq!(Starting {}.on_preloader_message(log()), PreloaderState::Starting(Starting {}));
    for msg in [ready(), error(), failed("w"), launched("w", 1), ack("w")] {
        assert_eq!(Starting {}.on_preloader_message(msg), PreloaderState::Failed(Failed {}));
    }
}

#[test]
fn loading_goes_on_until_ready_or_error() {
    assert_eq!(Loading {}.on_preloader_message(loading("b.rb")), PreloaderState::Loading(Loading {}));
    assert_eq!(Loading {}.on_preloader_message(ready()), PreloaderState::Ready(Ready {}));
    assert_eq!(Loading {}.on_preloader_message(error()), PreloaderState::Failed(Failed {}));
    assert_eq!(Loading {}.on_preloader_message(failed("w")), PreloaderState::Failed(Failed {}));
    for msg in [log(), launched("w", 1), ack("w")] {
        assert_eq!(Loading {}.on_preloader_message(msg), PreloaderState::Loading(Loading {}));
    }
}

#[test]
fn settled_states_stay() {
    for msg in every_message() {
        assert_eq!(PreloaderState::ready().on_preloader_message(msg.clone()), PreloaderState::ready());
        assert_eq!(PreloaderState::failed().on_preloader_message(msg), PreloaderState::failed());
    }
    assert!(PreloaderState::starting().is_pending());
    assert!(PreloaderState::loading().is_pending());
    assert!(!PreloaderState::ready().is_pending());
    assert!(!PreloaderState::failed().is_pending());
    assert!(PreloaderState::ready().is_ready());
    assert!(!PreloaderState::loading().is_ready());
    assert_eq!(PreloaderState::loading().clone_state(), PreloaderState::loading());
}

#[test]
fn initialize_runs_to_ready() {
    let mut controller = Preloader::started(4711);
    assert_eq!(controller.pid(), 4711);
    assert_eq!(controller.initialize(log()), None);
    assert_eq!(controller.initialize(loading("a.rb")), None);
    assert_eq!(controller.initialize(loading("b.rb")), None);
    assert_eq!(controller.initialize(log()), None);
    assert_eq!(controller.initialize(ready()), Some(Ok(())));
    assert_eq!(controller.initialize(error()), Some(Ok(())));
}

#[test]
fn initialize_fails_on_a_bad_start() {
    let mut controller = Preloader::started(1);
    assert_eq!(controller.initialize(ready()), Some(Err(PreloaderFailed)));
    assert_eq!(controller.initialize(loading("a.rb")), Some(Err(PreloaderFailed)));
    let mut controller = Preloader::started(1);
    assert_eq!(controller.initialize(loading("a.rb")), None);
    assert_eq!(controller.initialize(error()), Some(Err(PreloaderFailed)));
}

#[test]
fn log_lines_are_set_aside() {
    assert_eq!(
        translate_message(log()),
        Translated::Log(LogRecord {
            level: LogLevel::Info,
            msg: "hello".to_string(),
            kv: vec![("k".to_string(), "v".to_string())],
        })
    );
    for msg in [loading("a"), ready(), error(), failed("w"), launched("w", 1), ack("w")] {
        assert_eq!(translate_message(msg.clone()), Translated::Message(msg));
    }
}

#[test]
fn reads_are_told_apart() {
    let line = Received::Line("{}\n".to_string());
    assert_eq!(
        next_preloader_message(&Received::PeerClosed, None),
        PreloaderRead::Failed(ChannelError::Died(PreloaderDied))
    );
    assert_eq!(
        next_preloader_message(&Received::PeerClosed, Some(ready())),
        PreloaderRead::Failed(ChannelError::Died(PreloaderDied))
    );
    assert_eq!(
        next_preloader_message(&line, None),
        PreloaderRead::Failed(ChannelError::Undecodable)
    );
    assert_eq!(next_preloader_message(&line, Some(ready())), PreloaderRead::Message(ready()));
    assert!(matches!(next_preloader_message(&line, Some(log())), PreloaderRead::Log(_)));
}

#[test]
fn messages_become_events() {
    let controller = Preloader::started(1);
    assert_eq!(
        controller.next_message(launched("w", 31)),
        Ok(Message::Launched { id: "w".to_string(), pid: 31 })
    );
    assert_eq!(controller.next_message(ack("w")), Ok(Message::Ack { id: "w".to_string() }));
    assert_eq!(
        controller.next_message(failed("w")),
        Ok(Message::LaunchError {
            id: "w".to_string(),
            pid: None,
            error: "preloader failed to launch a child worker: out of memory".to_string(),
        })
    );
    for msg in [loading("a"), ready(), error(), log()] {
        assert_eq!(controller.next_message(msg.clone()), Err(ControlError::Unexpected(msg)));
    }
}

#[test]
fn only_a_dead_preloader_is_miserable() {
    assert_eq!(
        ControlError::Channel(ChannelError::Died(PreloaderDied)).failure(),
        ControlFailure::PreloaderDied
    );
    assert_eq!(ControlError::Channel(ChannelError::Undecodable).failure(), ControlFailure::Other);
    assert_eq!(ControlError::Unexpected(ready()).failure(), ControlFailure::Other);
    assert_eq!(PreloaderDied.message(), "preloader process has died");
    assert_eq!(
        PreloaderLaunchFailure { message: "no".to_string() }.message(),
        "preloader failed to launch a child worker: no"
    );
}

#[test]
fn spawn_requests_carry_fresh_ids() {
    let controller = Preloader::started(1);
    let (first, request) = controller.spawn_process();
    let (second, _) = controller.spawn_process();
    assert_eq!(request, PreloaderRequest::Spawn { id: first.clone() });
    assert_eq!(first.len(), 36);
    assert_ne!(first, second);
    for (place, c) in first.chars().enumerate() {
        if [8, 13, 18, 23].contains(&place) {
            assert_eq!(c, '-');
        } else {
            assert!(c.is_ascii_digit() || ('a'..='f').contains(&c));
        }
    }
}

#[test]
fn ruby_preloader_command_line() {
    let held = WorkerControlFD::new(9);
    let command = Preloader::for_ruby(
        &"/app/Gemfile".to_string(),
        &"/app/config/boot.rb".to_string(),
        &"Worker.run".to_string(),
        &held,
    );
    let args: Vec<String> = [
        "exec",
        "--gemfile",
        "/app/Gemfile",
        "--keep-file-descriptors",
        "--",
        "kleinhirn_loader",
        "--status-fd",
        "9",
        "-e",
        "Worker.run",
        "-r",
        "/app/config/boot.rb",
    ]
    .iter()
    .map(|a| a.to_string())
    .collect();
    assert_eq!(
        command,
        Command { program: "bundle".to_string(), args, env: Vec::new(), cwd: None }
    );
}
