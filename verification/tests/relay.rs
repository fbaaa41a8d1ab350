use socketee::relay::{start, step, Command, Diagnostic, DstError, Event, RelayError, State};
use socketee::Config;

fn config() -> Config {
    Config {
        srcpath: String::from("/tmp/src.sock"),
        dstpath: String::from("/tmp/dst.sock"),
    }
}

#[test]
fn config_rejects_too_few_args() {
    let args = vec![String::from("relay"), String::from("/tmp/src.sock")];
    let r = Config::new(&args);
    assert_eq!(r.unwrap_err(), "not enough arguments!");
}

#[test]
fn config_takes_source_then_destination() {
    let args = vec![
        String::from("relay"),
        String::from("/tmp/src.sock"),
        String::from("/tmp/dst.sock"),
    ];
    let c = Config::new(&args).unwrap();
    assert_eq!(c.srcpath, "/tmp/src.sock");
    assert_eq!(c.dstpath, "/tmp/dst.sock");
}

#[test]
fn start_binds_the_source_path() {
    let (state, cmd) = start();
    assert_eq!(state, State::Binding);
    assert_eq!(cmd, Command::Bind);
}

#[test]
fn bound_endpoint_made_world_read_write() {
    let c = config();
    let (state, logs, cmd) = step(&c, State::Binding, Event::BindOk);
    assert_eq!(state, State::SettingPermissions);
    assert!(logs.is_empty());
    assert_eq!(cmd, Command::SetPermissions(0o666));
    let (state, logs, cmd) = step(&c, state, Event::PermissionsOk);
    assert_eq!(state, State::Listening);
    assert!(logs.is_empty());
    assert_eq!(cmd, Command::Recv);
}

#[test]
fn stale_socket_deleted_and_rebound() {
    let c = config();
    let (state, logs, cmd) = step(&c, State::Binding, Event::BindConflict);
    assert_eq!(state, State::Deleting);
    assert_eq!(
        logs,
        vec![Diagnostic::SocketExistsDeleting(String::from("/tmp/src.sock"))]
    );
    assert_eq!(cmd, Command::Delete);
    let (state, logs, cmd) = step(&c, state, Event::DeleteOk);
    assert_eq!(state, State::Binding);
    assert!(logs.is_empty());
    assert_eq!(cmd, Command::Bind);
    let (state, _, cmd) = step(&c, state, Event::BindOk);
    assert_eq!(state, State::SettingPermissions);
    assert_eq!(cmd, Command::SetPermissions(0o666));
}

#[test]
fn bind_error_is_fatal() {
    let c = config();
    let (state, logs, cmd) = step(&c, State::Binding, Event::BindErr(String::from("denied")));
    let expected = RelayError::BindFailed(String::from("/tmp/src.sock"), String::from("denied"));
    assert_eq!(state, State::Failed(expected.clone()));
    assert!(logs.is_empty());
    assert_eq!(cmd, Command::Stop(expected));
}

#[test]
fn delete_error_is_fatal() {
    let c = config();
    let (state, _, cmd) = step(&c, State::Deleting, Event::DeleteErr(String::from("busy")));
    let expected = RelayError::DeleteFailed(String::from("/tmp/src.sock"), String::from("busy"));
    assert_eq!(state, State::Failed(expected.clone()));
    assert_eq!(cmd, Command::Stop(expected));
}

#[test]
fn permission_error_is_fatal() {
    let c = config();
    let (state, _, cmd) = step(
        &c,
        State::SettingPermissions,
        Event::PermissionsErr(String::from("read-only")),
    );
    let expected =
        RelayError::PermissionSetFailed(String::from("/tmp/src.sock"), String::from("read-only"));
    assert_eq!(state, State::Failed(expected.clone()));
    assert_eq!(cmd, Command::Stop(expected));
}

#[test]
fn hello_relayed_byte_for_byte() {
    let c = config();
    let hello = b"hello".to_vec();
    let (state, logs, cmd) = step(&c, State::Listening, Event::RecvOk(hello.clone()));
    assert_eq!(state, State::Connecting(hello.clone()));
    assert_eq!(logs, vec![Diagnostic::MessageText(hello.clone())]);
    assert_eq!(cmd, Command::Connect);
    let (state, logs, cmd) = step(&c, state, Event::ConnectOk);
    assert_eq!(state, State::Sending(5));
    assert!(logs.is_empty());
    assert_eq!(cmd, Command::SendMessage(hello));
    let (state, logs, cmd) = step(&c, state, Event::SendOk(5));
    assert_eq!(state, State::Closing);
    assert!(logs.is_empty());
    assert_eq!(cmd, Command::Close);
    let (state, logs, cmd) = step(&c, state, Event::CloseOk);
    assert_eq!(state, State::Listening);
    assert!(logs.is_empty());
    assert_eq!(cmd, Command::Recv);
}

#[test]
fn connect_failure_drops_message_and_continues() {
    let c = config();
    let (state, _, _) = step(&c, State::Listening, Event::RecvOk(b"lost".to_vec()));
    let (state, logs, cmd) = step(&c, state, Event::ConnectErr(String::from("refused")));
    assert_eq!(state, State::Listening);
    assert_eq!(
        logs,
        vec![Diagnostic::ForwardFailed(
            String::from("/tmp/dst.sock"),
            DstError::ConnectFailed(String::from("/tmp/dst.sock"), String::from("refused")),
        )]
    );
    assert_eq!(cmd, Command::Recv);
    // The next message is served as if nothing had happened.
    let (_, _, cmd) = step(&c, state, Event::RecvOk(b"next".to_vec()));
    assert_eq!(cmd, Command::Connect);
}

#[test]
fn socket_create_failure_drops_message_and_continues() {
    let c = config();
    let (state, logs, cmd) = step(
        &c,
        State::Connecting(b"lost".to_vec()),
        Event::SocketCreateErr(String::from("no descriptors")),
    );
    assert_eq!(state, State::Listening);
    assert_eq!(
        logs,
        vec![Diagnostic::ForwardFailed(
            String::from("/tmp/dst.sock"),
            DstError::SocketCreateFailed(String::from("no descriptors")),
        )]
    );
    assert_eq!(cmd, Command::Recv);
}

#[test]
fn short_write_warned_not_fatal() {
    let c = config();
    let (state, logs, cmd) = step(&c, State::Sending(5), Event::SendOk(3));
    assert_eq!(state, State::Closing);
    assert_eq!(logs, vec![Diagnostic::ShortWrite(5, 3)]);
    assert_eq!(cmd, Command::Close);
}

#[test]
fn send_error_treated_as_zero_written() {
    let c = config();
    let (state, logs, cmd) = step(&c, State::Sending(5), Event::SendErr(String::from("broken")));
    assert_eq!(state, State::Closing);
    assert_eq!(
        logs,
        vec![
            Diagnostic::SendFailed(String::from("/tmp/dst.sock"), String::from("broken")),
            Diagnostic::ShortWrite(5, 0),
        ]
    );
    assert_eq!(cmd, Command::Close);
}

#[test]
fn send_error_on_empty_message_is_no_short_write() {
    let c = config();
    let (_, logs, cmd) = step(&c, State::Sending(0), Event::SendErr(String::from("broken")));
    assert_eq!(
        logs,
        vec![Diagnostic::SendFailed(
            String::from("/tmp/dst.sock"),
            String::from("broken"),
        )]
    );
    assert_eq!(cmd, Command::Close);
}

#[test]
fn recv_error_relays_empty_message() {
    let c = config();
    let (state, logs, cmd) = step(&c, State::Listening, Event::RecvErr(String::from("interrupted")));
    assert_eq!(state, State::Connecting(Vec::new()));
    assert_eq!(
        logs,
        vec![
            Diagnostic::RecvFailed(String::from("/tmp/src.sock"), String::from("interrupted")),
            Diagnostic::MessageText(Vec::new()),
        ]
    );
    assert_eq!(cmd, Command::Connect);
    let (state, _, cmd) = step(&c, state, Event::ConnectOk);
    assert_eq!(state, State::Sending(0));
    assert_eq!(cmd, Command::SendMessage(Vec::new()));
}

#[test]
fn close_error_logged_only() {
    let c = config();
    let (state, logs, cmd) = step(&c, State::Closing, Event::CloseErr(String::from("gone")));
    assert_eq!(state, State::Listening);
    assert_eq!(
        logs,
        vec![Diagnostic::CloseFailed(
            String::from("/tmp/dst.sock"),
            String::from("gone"),
        )]
    );
    assert_eq!(cmd, Command::Recv);
}

#[test]
fn two_messages_independent_connections_in_order() {
    let c = config();
    let m1 = b"first".to_vec();
    let m2 = b"second".to_vec();
    let mut commands: Vec<Command> = Vec::new();
    let mut state = State::Listening;
    let events = vec![
        Event::RecvOk(m1.clone()),
        Event::ConnectOk,
        Event::SendOk(5),
        Event::CloseOk,
        Event::RecvOk(m2.clone()),
        Event::ConnectOk,
        Event::SendOk(6),
        Event::CloseOk,
    ];
    for event in events {
        let (next_state, _, cmd) = step(&c, state, event);
        state = next_state;
        commands.push(cmd);
    }
    assert_eq!(
        commands,
        vec![
            Command::Connect,
            Command::SendMessage(m1),
            Command::Close,
            Command::Recv,
            Command::Connect,
            Command::SendMessage(m2),
            Command::Close,
            Command::Recv,
        ]
    );
    assert_eq!(state, State::Listening);
}
