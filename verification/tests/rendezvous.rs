//! Tests of the rendezvous: the connect retry machine, the listener, and
//! the paths both sides agree on.

use teleop::attach::attacher::dummy::DummyAttacher;
use teleop::attach::attacher::unix::{attach_file_path, UnixAttacher, UnixWakeEvent};
use teleop::attach::attacher::{Attacher, AttacherSignal};
use teleop::attach::unix_socket::{
    no_response_message, socket_file_name, socket_file_path, ConnectAction, Connector, ListenAction,
    Listener, MAX_SEND_ATTEMPTS,
};
use teleop::internal::{attach_file_name, u32_decimal};

#[test]
fn decimal_rendering_is_exact() {
    assert_eq!(u32_decimal(0), "0");
    assert_eq!(u32_decimal(7), "7");
    assert_eq!(u32_decimal(10), "10");
    assert_eq!(u32_decimal(123), "123");
    assert_eq!(u32_decimal(4294967295), "4294967295");
}

#[test]
fn paths_are_deterministic_in_the_pid() {
    assert_eq!(attach_file_name(1337), ".teleop_attach_1337");
    assert_eq!(attach_file_path(1337), "/proc/1337/cwd/.teleop_attach_1337");
    assert_eq!(socket_file_name(1337), ".teleop_pid_1337");
    assert_eq!(socket_file_path("/tmp", 1337), "/tmp/.teleop_pid_1337");
}

#[test]
fn resolving_own_working_directory_succeeds() {
    // The sysinfo-backed resolution maps this very process to its working
    // directory and appends the witness-file name.
    let pid = sysinfo::get_current_pid().unwrap().as_u32();
    let path = teleop::internal::attach_file_path(pid).unwrap();
    assert!(path.ends_with(&format!("/.teleop_attach_{}", pid)));
    assert!(path.len() > format!("/.teleop_attach_{}", pid).len());
}

#[test]
fn error_kinds_have_messages() {
    assert_eq!(
        teleop::AttachError::ResolveTargetCwd.message(),
        "Cannot find process working directory"
    );
    assert_eq!(teleop::AttachError::Io.message(), "I/O error");
    assert_eq!(
        teleop::AttachError::NoResponse.message(),
        "target process doesn't respond"
    );
}

#[test]
fn resolving_a_dead_pid_fails() {
    // No PID of this value exists: resolution reports the
    // cannot-resolve-working-directory error.
    let err = teleop::internal::attach_file_path(4000000).unwrap_err();
    assert_eq!(err, teleop::AttachError::ResolveTargetCwd);
    assert_eq!(err.message(), "Cannot find process working directory");
}

#[test]
fn test_unix_socket_attachment() {
    // The two sides of a successful attach, at the level of their decision
    // cores: the client provokes, the target observes the wake-up, binds,
    // and accepts; the client connects and its witness file is removed.
    let pid = 4242;
    let socket_path = socket_file_path("/tmp", pid);

    let mut listener = Listener::new(UnixAttacher::signaled(pid), socket_path.clone());
    assert!(matches!(listener.poll_step(false), ListenAction::Wait));

    let mut connector = Connector::new(UnixAttacher::signal(pid).unwrap());

    // The socket does not exist yet: the client sends (witness + SIGQUIT)
    // and waits.
    let action = connector.step(false, false).unwrap();
    let plan = match action {
        ConnectAction::SendAndWait(plan) => plan,
        _ => panic!("expected a send"),
    };
    let witness_path = plan.create_witness.clone().unwrap();
    assert_eq!(plan.raise_quit, Some(pid));

    // The target sees the signal with the witness file present and binds
    // the rendezvous socket.
    listener.on_event(&UnixWakeEvent { quit: true, witness_exists: true });
    match listener.poll_step(false) {
        ListenAction::Bind(path) => assert_eq!(path, socket_path),
        _ => panic!("expected a bind"),
    }

    // The socket now exists: the client connects; dropping its handle
    // names the witness file for removal.
    let action = connector.step(true, true).unwrap();
    assert!(matches!(action, ConnectAction::Connect));
    assert_eq!(connector.finish(), Some(witness_path));

    // The target serves until cancelled.
    assert!(matches!(listener.poll_step(false), ListenAction::Accept));
    assert!(matches!(listener.poll_step(true), ListenAction::Stop));
}

#[test]
fn windows_unix_socket_test_unix_socket_attachment() {
    // The same attach flow over the attacher abstraction with the dummy
    // variant: no witness file and no signal, the wait resolved from the
    // start.
    let pid = 777;
    let socket_path = socket_file_path("/tmp", pid);

    let mut listener = Listener::new(DummyAttacher::signaled(pid), socket_path.clone());
    match listener.poll_step(false) {
        ListenAction::Bind(path) => assert_eq!(path, socket_path),
        _ => panic!("expected a bind"),
    }

    let mut connector = Connector::new(DummyAttacher::signal(pid).unwrap());
    let action = connector.step(true, false).unwrap();
    assert!(matches!(action, ConnectAction::Connect));
    assert!(connector.finish().is_none());
    assert!(matches!(listener.poll_step(false), ListenAction::Accept));
}

#[test]
fn test_unix_socket_attachment_failure() {
    // A connect against a PID with no listener: the socket never appears,
    // the budget of sends runs out, and the attempt fails with the
    // no-response message.
    let pid = 4242;
    let socket_path = socket_file_path("/tmp", pid);

    let mut connector = Connector::new(DummyAttacher::signal(pid).unwrap());
    let mut sends: u32 = 0;
    let err = loop {
        match connector.step(false, false).unwrap() {
            ConnectAction::SendAndWait(_) => sends += 1,
            ConnectAction::Fail => break no_response_message(&socket_path, pid),
            ConnectAction::Connect => panic!("the socket cannot exist"),
        }
    };
    assert_eq!(sends, MAX_SEND_ATTEMPTS);
    assert!(
        err.starts_with("Unable to open socket file"),
        "Expected error `{err}` to start with `Unable to open socket file`."
    );
    assert_eq!(
        err,
        format!(
            "Unable to open socket file {}: target process {} doesn't respond",
            socket_path, pid
        )
    );
}

#[test]
fn retry_budget_is_one_hundred_sends() {
    // However often it is probed, a connector never sends more than the
    // budget; within the budget each failed probe sends exactly once.
    let mut connector = Connector::new(DummyAttacher::signal(1).unwrap());
    let mut sends: u32 = 0;
    for _ in 0..250 {
        match connector.step(false, false).unwrap() {
            ConnectAction::SendAndWait(_) => sends += 1,
            ConnectAction::Fail => {}
            ConnectAction::Connect => panic!("the socket cannot exist"),
        }
    }
    assert_eq!(sends, MAX_SEND_ATTEMPTS);
}

#[test]
fn connector_connects_at_once_when_the_socket_exists() {
    // When the target is already serving, no send is made at all.
    let mut connector = Connector::new(UnixAttacher::signal(9).unwrap());
    let action = connector.step(true, false).unwrap();
    assert!(matches!(action, ConnectAction::Connect));
    assert!(connector.finish().is_none());
}
