//! The relay state machine.
//!
//! The machine owns every decision the relay makes; it performs no I/O
//! itself. A driver loop performs the current [`Command`], translates the
//! outcome into an [`Event`], and calls [`step`] to learn the next state,
//! the diagnostics to report, and the next command. [`start`] gives the
//! initial state and command.

use vstd::prelude::*;

use crate::Config;

verus! {

/// Capacity of the message buffer: a received datagram is at most this long.
pub const MSG_CAPACITY: usize = 1024;

/// Permission bits set on the source path once bound: world read/write.
pub const WORLD_RW_MODE: u32 = 0o666;

/// A fatal setup error: the source endpoint could not be established.
/// Each variant carries the source path and the underlying cause.
pub ghost enum RelayErrorView {
    /// Binding the source path failed for a reason other than a conflict.
    BindFailed(Seq<char>, Seq<char>),
    /// A conflicting file at the source path could not be deleted.
    DeleteFailed(Seq<char>, Seq<char>),
    /// The source path could not be made world read/write.
    PermissionSetFailed(Seq<char>, Seq<char>),
}

/// Why a destination connection could not be opened for one message.
pub ghost enum DstErrorView {
    /// The local socket handle could not be allocated; carries the cause.
    SocketCreateFailed(Seq<char>),
    /// Connecting to the destination path failed; carries the path and cause.
    ConnectFailed(Seq<char>, Seq<char>),
}

/// A diagnostic line to report; none of these is fatal.
pub ghost enum DiagnosticView {
    /// A stale socket file occupies the source path and is being deleted.
    SocketExistsDeleting(Seq<char>),
    /// Receiving on the source endpoint failed: source path and cause.
    RecvFailed(Seq<char>, Seq<char>),
    /// The bytes of the received message, echoed for observability.
    MessageText(Seq<u8>),
    /// Opening the destination connection failed; the message is dropped.
    ForwardFailed(Seq<char>, DstErrorView),
    /// Sending on the destination connection failed: path and cause.
    SendFailed(Seq<char>, Seq<char>),
    /// Fewer bytes were written than requested: expected, then written.
    ShortWrite(int, int),
    /// Shutting the destination connection down failed: path and cause.
    CloseFailed(Seq<char>, Seq<char>),
}

/// Where the relay stands: which outcome it is waiting for.
pub ghost enum StateView {
    /// Waiting for the source path to be bound.
    Binding,
    /// Waiting for the conflicting file at the source path to be deleted.
    Deleting,
    /// Waiting for the source path's permissions to be widened.
    SettingPermissions,
    /// Waiting for the next datagram on the source endpoint.
    Listening,
    /// Holding a received message, waiting for a destination connection.
    Connecting(Seq<u8>),
    /// Waiting for the send's outcome; carries the byte count handed to it.
    Sending(int),
    /// Waiting for the destination connection to be shut down.
    Closing,
    /// A fatal setup error occurred; the relay is over.
    Failed(RelayErrorView),
}

/// The outcome of the last command, reported by the driver.
pub ghost enum EventView {
    /// The source path was bound.
    BindOk,
    /// Binding failed because the path is already occupied.
    BindConflict,
    /// Binding failed for any other reason; carries the cause.
    BindErr(Seq<char>),
    /// The conflicting file was deleted.
    DeleteOk,
    /// Deleting the conflicting file failed; carries the cause.
    DeleteErr(Seq<char>),
    /// The source path's permissions were widened.
    PermissionsOk,
    /// Widening the permissions failed; carries the cause.
    PermissionsErr(Seq<char>),
    /// A datagram arrived; carries its bytes.
    RecvOk(Seq<u8>),
    /// Receiving failed; carries the cause.
    RecvErr(Seq<char>),
    /// The local destination socket could not be created; carries the cause.
    SocketCreateErr(Seq<char>),
    /// The destination connection is open.
    ConnectOk,
    /// Connecting to the destination failed; carries the cause.
    ConnectErr(Seq<char>),
    /// The send completed; carries the number of bytes written.
    SendOk(int),
    /// The send failed; carries the cause.
    SendErr(Seq<char>),
    /// The destination connection was shut down.
    CloseOk,
    /// Shutting the connection down failed; carries the cause.
    CloseErr(Seq<char>),
}

/// The next piece of outside work the driver must perform.
pub ghost enum CommandView {
    /// Bind a datagram socket at the source path.
    Bind,
    /// Delete the file at the source path.
    Delete,
    /// Set the source path's permission bits to the given mode.
    SetPermissions(int),
    /// Block for the next datagram on the source endpoint.
    Recv,
    /// Create an unbound datagram socket and connect it to the destination.
    Connect,
    /// Send the given bytes on the destination connection.
    SendMessage(Seq<u8>),
    /// Shut the destination connection down, both directions.
    Close,
    /// Report the fatal error and stop the process.
    Stop(RelayErrorView),
}

/// One transition's outcome: the next state, the diagnostics to report
/// (in order), and the next command.
pub ghost struct Transition {
    /// The state after the transition.
    pub state: StateView,
    /// The diagnostic lines the transition produces, in order.
    pub logs: Seq<DiagnosticView>,
    /// The command the driver must perform next.
    pub cmd: CommandView,
}

/// Which events can answer which states: each state waits for the outcomes
/// of exactly one command, and a received message fits the buffer.
pub open spec fn accepts(state: StateView, event: EventView) -> bool {
    match state {
        StateView::Binding => event is BindOk || event is BindConflict || event is BindErr,
        StateView::Deleting => event is DeleteOk || event is DeleteErr,
        StateView::SettingPermissions => event is PermissionsOk || event is PermissionsErr,
        StateView::Listening => (event matches EventView::RecvOk(m) && m.len() <= MSG_CAPACITY)
            || event is RecvErr,
        StateView::Connecting(_) => event is ConnectOk || event is ConnectErr
            || event is SocketCreateErr,
        StateView::Sending(_) => event is SendOk || event is SendErr,
        StateView::Closing => event is CloseOk || event is CloseErr,
        StateView::Failed(_) => false,
    }
}

/// The transition function: the whole behaviour of the relay.
///
/// Setup: a bind conflict deletes the stale file and retries, any other
/// setup failure is fatal, and a successful bind widens the path's
/// permissions to world read/write before listening. Per message: the
/// received bytes are echoed, a receive error is treated as an empty
/// message, a connect failure drops the message, a send failure is treated
/// as zero bytes written, a written count differing from the received
/// count is reported as a short write, and the connection is closed after
/// every send. No per-message failure leaves the relaying states.
pub open spec fn next(
    src: Seq<char>,
    dst: Seq<char>,
    state: StateView,
    event: EventView,
) -> Transition
    recommends
        accepts(state, event),
{
    match (state, event) {
        (StateView::Binding, EventView::BindOk) => Transition {
            state: StateView::SettingPermissions,
            logs: seq![],
            cmd: CommandView::SetPermissions(WORLD_RW_MODE as int),
        },
        (StateView::Binding, EventView::BindConflict) => Transition {
            state: StateView::Deleting,
            logs: seq![DiagnosticView::SocketExistsDeleting(src)],
            cmd: CommandView::Delete,
        },
        (StateView::Binding, EventView::BindErr(cause)) => Transition {
            state: StateView::Failed(RelayErrorView::BindFailed(src, cause)),
            logs: seq![],
            cmd: CommandView::Stop(RelayErrorView::BindFailed(src, cause)),
        },
        (StateView::Deleting, EventView::DeleteOk) => Transition {
            state: StateView::Binding,
            logs: seq![],
            cmd: CommandView::Bind,
        },
        (StateView::Deleting, EventView::DeleteErr(cause)) => Transition {
            state: StateView::Failed(RelayErrorView::DeleteFailed(src, cause)),
            logs: seq![],
            cmd: CommandView::Stop(RelayErrorView::DeleteFailed(src, cause)),
        },
        (StateView::SettingPermissions, EventView::PermissionsOk) => Transition {
            state: StateView::Listening,
            logs: seq![],
            cmd: CommandView::Recv,
        },
        (StateView::SettingPermissions, EventView::PermissionsErr(cause)) => Transition {
            state: StateView::Failed(RelayErrorView::PermissionSetFailed(src, cause)),
            logs: seq![],
            cmd: CommandView::Stop(RelayErrorView::PermissionSetFailed(src, cause)),
        },
        (StateView::Listening, EventView::RecvOk(m)) => Transition {
            state: StateView::Connecting(m),
            logs: seq![DiagnosticView::MessageText(m)],
            cmd: CommandView::Connect,
        },
        (StateView::Listening, EventView::RecvErr(cause)) => Transition {
            state: StateView::Connecting(seq![]),
            logs: seq![
                DiagnosticView::RecvFailed(src, cause),
                DiagnosticView::MessageText(seq![]),
            ],
            cmd: CommandView::Connect,
        },
        (StateView::Connecting(m), EventView::ConnectOk) => Transition {
            state: StateView::Sending(m.len() as int),
            logs: seq![],
            cmd: CommandView::SendMessage(m),
        },
        (StateView::Connecting(_), EventView::ConnectErr(cause)) => Transition {
            state: StateView::Listening,
            logs: seq![
                DiagnosticView::ForwardFailed(dst, DstErrorView::ConnectFailed(dst, cause)),
            ],
            cmd: CommandView::Recv,
        },
        (StateView::Connecting(_), EventView::SocketCreateErr(cause)) => Transition {
            state: StateView::Listening,
            logs: seq![
                DiagnosticView::ForwardFailed(dst, DstErrorView::SocketCreateFailed(cause)),
            ],
            cmd: CommandView::Recv,
        },
        (StateView::Sending(expected), EventView::SendOk(written)) => Transition {
            state: StateView::Closing,
            logs: if written == expected {
                seq![]
            } else {
                seq![DiagnosticView::ShortWrite(expected, written)]
            },
            cmd: CommandView::Close,
        },
        (StateView::Sending(expected), EventView::SendErr(cause)) => Transition {
            state: StateView::Closing,
            logs: if expected == 0 {
                seq![DiagnosticView::SendFailed(dst, cause)]
            } else {
                seq![
                    DiagnosticView::SendFailed(dst, cause),
                    DiagnosticView::ShortWrite(expected, 0),
                ]
            },
            cmd: CommandView::Close,
        },
        (StateView::Closing, EventView::CloseOk) => Transition {
            state: StateView::Listening,
            logs: seq![],
            cmd: CommandView::Recv,
        },
        (StateView::Closing, EventView::CloseErr(cause)) => Transition {
            state: StateView::Listening,
            logs: seq![DiagnosticView::CloseFailed(dst, cause)],
            cmd: CommandView::Recv,
        },
        _ => arbitrary(),
    }
}

/// The states in which the relay is serving messages: every event they
/// accept leads back to one of them, never to a fatal stop.
pub open spec fn relaying(state: StateView) -> bool {
    ||| state is Listening
    ||| state is Connecting
    ||| state is Sending
    ||| state is Closing
}

/// A fatal setup error, as [`RelayErrorView`] describes it.
#[derive(Debug, Clone, PartialEq, Eq)]
pub enum RelayError {
    /// Binding the source path failed for a reason other than a conflict.
    BindFailed(String, String),
    /// A conflicting file at the source path could not be deleted.
    DeleteFailed(String, String),
    /// The source path could not be made world read/write.
    PermissionSetFailed(String, String),
}

impl View for RelayError {
    type V = RelayErrorView;

    open spec fn view(&self) -> RelayErrorView {
        match self {
            RelayError::BindFailed(path, cause) => RelayErrorView::BindFailed(path@, cause@),
            RelayError::DeleteFailed(path, cause) => RelayErrorView::DeleteFailed(path@, cause@),
            RelayError::PermissionSetFailed(path, cause) => RelayErrorView::PermissionSetFailed(
                path@,
                cause@,
            ),
        }
    }
}

/// Why a destination connection could not be opened, as
/// [`DstErrorView`] describes it.
#[derive(Debug, PartialEq, Eq)]
pub enum DstError {
    /// The local socket handle could not be allocated; carries the cause.
    SocketCreateFailed(String),
    /// Connecting to the destination path failed; carries the path and cause.
    ConnectFailed(String, String),
}

impl View for DstError {
    type V = DstErrorView;

    open spec fn view(&self) -> DstErrorView {
        match self {
            DstError::SocketCreateFailed(cause) => DstErrorView::SocketCreateFailed(cause@),
            DstError::ConnectFailed(path, cause) => DstErrorView::ConnectFailed(path@, cause@),
        }
    }
}

/// A diagnostic line to report, as [`DiagnosticView`] describes it.
#[derive(Debug, PartialEq, Eq)]
pub enum Diagnostic {
    /// A stale socket file occupies the source path and is being deleted.
    SocketExistsDeleting(String),
    /// Receiving on the source endpoint failed: source path and cause.
    RecvFailed(String, String),
    /// The bytes of the received message, echoed for observability.
    MessageText(Vec<u8>),
    /// Opening the destination connection failed; the message is dropped.
    ForwardFailed(String, DstError),
    /// Sending on the destination connection failed: path and cause.
    SendFailed(String, String),
    /// Fewer bytes were written than requested: expected, then written.
    ShortWrite(usize, usize),
    /// Shutting the destination connection down failed: path and cause.
    CloseFailed(String, String),
}

impl View for Diagnostic {
    type V = DiagnosticView;

    open spec fn view(&self) -> DiagnosticView {
        match self {
            Diagnostic::SocketExistsDeleting(path) => DiagnosticView::SocketExistsDeleting(path@),
            Diagnostic::RecvFailed(path, cause) => DiagnosticView::RecvFailed(path@, cause@),
            Diagnostic::MessageText(bytes) => DiagnosticView::MessageText(bytes@),
            Diagnostic::ForwardFailed(path, err) => DiagnosticView::ForwardFailed(path@, err@),
            Diagnostic::SendFailed(path, cause) => DiagnosticView::SendFailed(path@, cause@),
            Diagnostic::ShortWrite(expected, written) => DiagnosticView::ShortWrite(
                *expected as int,
                *written as int,
            ),
            Diagnostic::CloseFailed(path, cause) => DiagnosticView::CloseFailed(path@, cause@),
        }
    }
}

/// Where the relay stands, as [`StateView`] describes it.
#[derive(Debug, PartialEq, Eq)]
pub enum State {
    /// Waiting for the source path to be bound.
    Binding,
    /// Waiting for the conflicting file at the source path to be deleted.
    Deleting,
    /// Waiting for the source path's permissions to be widened.
    SettingPermissions,
    /// Holding no message, waiting for the next datagram.
    Listening,
    /// Holding a received message, waiting for a destination connection.
    Connecting(Vec<u8>),
    /// Waiting for the send's outcome; carries the byte count handed to it.
    Sending(usize),
    /// Waiting for the destination connection to be shut down.
    Closing,
    /// A fatal setup error occurred; the relay is over.
    Failed(RelayError),
}

impl View for State {
    type V = StateView;

    open spec fn view(&self) -> StateView {
        match self {
            State::Binding => StateView::Binding,
            State::Deleting => StateView::Deleting,
            State::SettingPermissions => StateView::SettingPermissions,
            State::Listening => StateView::Listening,
            State::Connecting(m) => StateView::Connecting(m@),
            State::Sending(expected) => StateView::Sending(*expected as int),
            State::Closing => StateView::Closing,
            State::Failed(err) => StateView::Failed(err@),
        }
    }
}

/// The outcome of the last command, as [`EventView`] describes it.
#[derive(Debug, PartialEq, Eq)]
pub enum Event {
    /// The source path was bound.
    BindOk,
    /// Binding failed because the path is already occupied.
    BindConflict,
    /// Binding failed for any other reason; carries the cause.
    BindErr(String),
    /// The conflicting file was deleted.
    DeleteOk,
    /// Deleting the conflicting file failed; carries the cause.
    DeleteErr(String),
    /// The source path's permissions were widened.
    PermissionsOk,
    /// Widening the permissions failed; carries the cause.
    PermissionsErr(String),
    /// A datagram arrived; carries its bytes.
    RecvOk(Vec<u8>),
    /// Receiving failed; carries the cause.
    RecvErr(String),
    /// The local destination socket could not be created; carries the cause.
    SocketCreateErr(String),
    /// The destination connection is open.
    ConnectOk,
    /// Connecting to the destination failed; carries the cause.
    ConnectErr(String),
    /// The send completed; carries the number of bytes written.
    SendOk(usize),
    /// The send failed; carries the cause.
    SendErr(String),
    /// The destination connection was shut down.
    CloseOk,
    /// Shutting the connection down failed; carries the cause.
    CloseErr(String),
}

impl View for Event {
    type V = EventView;

    open spec fn view(&self) -> EventView {
        match self {
            Event::BindOk => EventView::BindOk,
            Event::BindConflict => EventView::BindConflict,
            Event::BindErr(cause) => EventView::BindErr(cause@),
            Event::DeleteOk => EventView::DeleteOk,
            Event::DeleteErr(cause) => EventView::DeleteErr(cause@),
            Event::PermissionsOk => EventView::PermissionsOk,
            Event::PermissionsErr(cause) => EventView::PermissionsErr(cause@),
            Event::RecvOk(m) => EventView::RecvOk(m@),
            Event::RecvErr(cause) => EventView::RecvErr(cause@),
            Event::SocketCreateErr(cause) => EventView::SocketCreateErr(cause@),
            Event::ConnectOk => EventView::ConnectOk,
            Event::ConnectErr(cause) => EventView::ConnectErr(cause@),
            Event::SendOk(written) => EventView::SendOk(*written as int),
            Event::SendErr(cause) => EventView::SendErr(cause@),
            Event::CloseOk => EventView::CloseOk,
            Event::CloseErr(cause) => EventView::CloseErr(cause@),
        }
    }
}

/// The next piece of outside work the driver must perform, as
/// [`CommandView`] describes it.
#[derive(Debug, PartialEq, Eq)]
pub enum Command {
    /// Bind a datagram socket at the source path.
    Bind,
    /// Delete the file at the source path.
    Delete,
    /// Set the source path's permission bits to the given mode.
    SetPermissions(u32),
    /// Block for the next datagram on the source endpoint.
    Recv,
    /// Create an unbound datagram socket and connect it to the destination.
    Connect,
    /// Send the given bytes on the destination connection.
    SendMessage(Vec<u8>),
    /// Shut the destination connection down, both directions.
    Close,
    /// Report the fatal error and stop the process.
    Stop(RelayError),
}

impl View for Command {
    type V = CommandView;

    open spec fn view(&self) -> CommandView {
        match self {
            Command::Bind => CommandView::Bind,
            Command::Delete => CommandView::Delete,
            Command::SetPermissions(mode) => CommandView::SetPermissions(*mode as int),
            Command::Recv => CommandView::Recv,
            Command::Connect => CommandView::Connect,
            Command::SendMessage(m) => CommandView::SendMessage(m@),
            Command::Close => CommandView::Close,
            Command::Stop(err) => CommandView::Stop(err@),
        }
    }
}

/// The views of a list of diagnostics, in order.
pub open spec fn views_of(logs: Seq<Diagnostic>) -> Seq<DiagnosticView> {
    logs.map_values(|d: Diagnostic| d@)
}

/// The relay's initial state and first command: bind the source path.
pub fn start() -> (r: (State, Command))
    ensures
        r.0@ == StateView::Binding,
        r.1@ == CommandView::Bind,
{
    (State::Binding, Command::Bind)
}

/// Performs one transition of the relay, exactly as [`next`] describes it:
/// given the outcome of the last command, returns the next state, the
/// diagnostics to report (in order), and the next command.
pub fn step(config: &Config, state: State, event: Event) -> (r: (State, Vec<Diagnostic>, Command))
    requires
        accepts(state@, event@),
    ensures
        r.0@ == next(config.srcpath@, config.dstpath@, state@, event@).state,
        views_of(r.1@) == next(config.srcpath@, config.dstpath@, state@, event@).logs,
        r.2@ == next(config.srcpath@, config.dstpath@, state@, event@).cmd,
{
    let ghost goal = next(config.srcpath@, config.dstpath@, state@, event@);
    match (state, event) {
        (State::Binding, Event::BindOk) => {
            let logs: Vec<Diagnostic> = Vec::new();
            proof {
                assert(views_of(logs@) =~= goal.logs);
            }
            (State::SettingPermissions, logs, Command::SetPermissions(WORLD_RW_MODE))
        },
        (State::Binding, Event::BindConflict) => {
            let mut logs: Vec<Diagnostic> = Vec::new();
            logs.push(Diagnostic::SocketExistsDeleting(config.srcpath.clone()));
            proof {
                assert(views_of(logs@) =~= goal.logs);
            }
            (State::Deleting, logs, Command::Delete)
        },
        (State::Binding, Event::BindErr(cause)) => {
            let logs: Vec<Diagnostic> = Vec::new();
            let kept = RelayError::BindFailed(config.srcpath.clone(), cause.clone());
            let reported = RelayError::BindFailed(config.srcpath.clone(), cause);
            proof {
                assert(views_of(logs@) =~= goal.logs);
            }
            (State::Failed(kept), logs, Command::Stop(reported))
        },
        (State::Deleting, Event::DeleteOk) => {
            let logs: Vec<Diagnostic> = Vec::new();
            proof {
                assert(views_of(logs@) =~= goal.logs);
            }
            (State::Binding, logs, Command::Bind)
        },
        (State::Deleting, Event::DeleteErr(cause)) => {
            let logs: Vec<Diagnostic> = Vec::new();
            let kept = RelayError::DeleteFailed(config.srcpath.clone(), cause.clone());
            let reported = RelayError::DeleteFailed(config.srcpath.clone(), cause);
            proof {
                assert(views_of(logs@) =~= goal.logs);
            }
            (State::Failed(kept), logs, Command::Stop(reported))
        },
        (State::SettingPermissions, Event::PermissionsOk) => {
            let logs: Vec<Diagnostic> = Vec::new();
            proof {
                assert(views_of(logs@) =~= goal.logs);
            }
            (State::Listening, logs, Command::Recv)
        },
        (State::SettingPermissions, Event::PermissionsErr(cause)) => {
            let logs: Vec<Diagnostic> = Vec::new();
            let kept = RelayError::PermissionSetFailed(config.srcpath.clone(), cause.clone());
            let reported = RelayError::PermissionSetFailed(config.srcpath.clone(), cause);
            proof {
                assert(views_of(logs@) =~= goal.logs);
            }
            (State::Failed(kept), logs, Command::Stop(reported))
        },
        (State::Listening, Event::RecvOk(m)) => {
            let echoed = m.clone();
            proof {
                assert forall|i: int| 0 <= i < m@.len() implies echoed@[i] == m@[i] by {
                    assert(cloned::<u8>(m[i], echoed[i]));
                }
                assert(echoed@ =~= m@);
            }
            let mut logs: Vec<Diagnostic> = Vec::new();
            logs.push(Diagnostic::MessageText(echoed));
            proof {
                assert(views_of(logs@) =~= goal.logs);
            }
            (State::Connecting(m), logs, Command::Connect)
        },
        (State::Listening, Event::RecvErr(cause)) => {
            let mut logs: Vec<Diagnostic> = Vec::new();
            logs.push(Diagnostic::RecvFailed(config.srcpath.clone(), cause));
            logs.push(Diagnostic::MessageText(Vec::new()));
            proof {
                assert(views_of(logs@) =~= goal.logs);
            }
            (State::Connecting(Vec::new()), logs, Command::Connect)
        },
        (State::Connecting(m), Event::ConnectOk) => {
            let logs: Vec<Diagnostic> = Vec::new();
            proof {
                assert(views_of(logs@) =~= goal.logs);
            }
            (State::Sending(m.len()), logs, Command::SendMessage(m))
        },
        (State::Connecting(_), Event::ConnectErr(cause)) => {
            let mut logs: Vec<Diagnostic> = Vec::new();
            logs.push(Diagnostic::ForwardFailed(
                config.dstpath.clone(),
                DstError::ConnectFailed(config.dstpath.clone(), cause),
            ));
            proof {
                assert(views_of(logs@) =~= goal.logs);
            }
            (State::Listening, logs, Command::Recv)
        },
        (State::Connecting(_), Event::SocketCreateErr(cause)) => {
            let mut logs: Vec<Diagnostic> = Vec::new();
            logs.push(Diagnostic::ForwardFailed(
                config.dstpath.clone(),
                DstError::SocketCreateFailed(cause),
            ));
            proof {
                assert(views_of(logs@) =~= goal.logs);
            }
            (State::Listening, logs, Command::Recv)
        },
        (State::Sending(expected), Event::SendOk(written)) => {
            let mut logs: Vec<Diagnostic> = Vec::new();
            if written != expected {
                logs.push(Diagnostic::ShortWrite(expected, written));
            }
            proof {
                assert(views_of(logs@) =~= goal.logs);
            }
            (State::Closing, logs, Command::Close)
        },
        (State::Sending(expected), Event::SendErr(cause)) => {
            let mut logs: Vec<Diagnostic> = Vec::new();
            logs.push(Diagnostic::SendFailed(config.dstpath.clone(), cause));
            if expected != 0 {
                logs.push(Diagnostic::ShortWrite(expected, 0));
            }
            proof {
                assert(views_of(logs@) =~= goal.logs);
            }
            (State::Closing, logs, Command::Close)
        },
        (State::Closing, Event::CloseOk) => {
            let logs: Vec<Diagnostic> = Vec::new();
            proof {
                assert(views_of(logs@) =~= goal.logs);
            }
            (State::Listening, logs, Command::Recv)
        },
        (State::Closing, Event::CloseErr(cause)) => {
            let mut logs: Vec<Diagnostic> = Vec::new();
            logs.push(Diagnostic::CloseFailed(config.dstpath.clone(), cause));
            proof {
                assert(views_of(logs@) =~= goal.logs);
            }
            (State::Listening, logs, Command::Recv)
        },
        (state, _) => {
            proof {
                assert(false);
            }
            (state, Vec::new(), Command::Recv)
        },
    }
}

} // verus!

