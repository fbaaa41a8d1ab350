//! Laws of the relay state machine: the guarantees a driver may rely on.
//!
//! Each law is stated over the transition function [`crate::relay::next`],
//! which [`crate::relay::step`] implements exactly.

use vstd::prelude::*;

use crate::relay::CommandView;
use crate::relay::DiagnosticView;
use crate::relay::DstErrorView;
use crate::relay::RelayErrorView;
use crate::relay::EventView;
use crate::relay::StateView;
use crate::relay::MSG_CAPACITY;
use crate::relay::accepts;
use crate::relay::next;
use crate::relay::relaying;

verus! {

/// A received message is handed to the destination send byte for byte:
/// receiving `m` leads the machine to hold exactly `m`, and once the
/// destination connection opens, the send command carries exactly `m` —
/// same content, same length.
pub proof fn lemma_forward_byte_for_byte(src: Seq<char>, dst: Seq<char>, m: Seq<u8>)
    requires
        m.len() <= MSG_CAPACITY,
    ensures
        ({
            let received = next(src, dst, StateView::Listening, EventView::RecvOk(m));
            let connected = next(src, dst, received.state, EventView::ConnectOk);
            &&& received.state == StateView::Connecting(m)
            &&& connected.cmd == CommandView::SendMessage(m)
            &&& connected.state == StateView::Sending(m.len() as int)
        }),
{
}

/// A stale socket file at the source path is recovered without manual
/// intervention: a bind conflict deletes the file and retries the bind,
/// and the retried bind proceeds to set permissions — no step of the
/// recovery is fatal.
pub proof fn lemma_stale_socket_recovered(src: Seq<char>, dst: Seq<char>)
    ensures
        ({
            let conflict = next(src, dst, StateView::Binding, EventView::BindConflict);
            let deleted = next(src, dst, conflict.state, EventView::DeleteOk);
            let bound = next(src, dst, deleted.state, EventView::BindOk);
            &&& conflict.state == StateView::Deleting
            &&& conflict.cmd == CommandView::Delete
            &&& deleted.state == StateView::Binding
            &&& deleted.cmd == CommandView::Bind
            &&& bound.state == StateView::SettingPermissions
            &&& !(conflict.cmd is Stop) && !(deleted.cmd is Stop) && !(bound.cmd is Stop)
        }),
{
}

/// Every permission command the machine ever issues widens the source
/// path to world read/write (mode `0o666`), and a successful bind is
/// always followed by exactly that command.
pub proof fn lemma_bound_endpoint_world_rw(
    src: Seq<char>,
    dst: Seq<char>,
    state: StateView,
    event: EventView,
)
    requires
        accepts(state, event),
    ensures
        next(src, dst, state, event).cmd matches CommandView::SetPermissions(mode)
            ==> mode == 0o666,
        state is Binding && event is BindOk
            ==> next(src, dst, state, event).cmd == CommandView::SetPermissions(0o666int),
{
}

/// An unreachable destination is not fatal: a connect failure drops the
/// message, reports it, and returns the machine to listening for the
/// next message. The same holds when the local socket handle cannot be
/// created.
pub proof fn lemma_connect_failure_skips_message(
    src: Seq<char>,
    dst: Seq<char>,
    m: Seq<u8>,
    cause: Seq<char>,
)
    ensures
        ({
            let refused = next(src, dst, StateView::Connecting(m), EventView::ConnectErr(cause));
            &&& refused.state == StateView::Listening
            &&& refused.cmd == CommandView::Recv
            &&& refused.logs == seq![
                DiagnosticView::ForwardFailed(dst, DstErrorView::ConnectFailed(dst, cause)),
            ]
        }),
        ({
            let refused = next(
                src,
                dst,
                StateView::Connecting(m),
                EventView::SocketCreateErr(cause),
            );
            &&& refused.state == StateView::Listening
            &&& refused.cmd == CommandView::Recv
            &&& refused.logs == seq![
                DiagnosticView::ForwardFailed(dst, DstErrorView::SocketCreateFailed(cause)),
            ]
        }),
{
}

/// A short write is reported but not fatal: when fewer (or other than)
/// the expected bytes are written, the machine logs exactly one
/// short-write warning, closes the connection, and goes on.
pub proof fn lemma_short_write_logged_not_fatal(
    src: Seq<char>,
    dst: Seq<char>,
    expected: int,
    written: int,
)
    requires
        written != expected,
    ensures
        ({
            let short = next(src, dst, StateView::Sending(expected), EventView::SendOk(written));
            &&& short.logs == seq![DiagnosticView::ShortWrite(expected, written)]
            &&& short.state == StateView::Closing
            &&& short.cmd == CommandView::Close
            &&& !(short.cmd is Stop)
        }),
{
}

/// Two messages received in sequence are forwarded in that order, each
/// over a destination connection of its own: the command trace is
/// connect, send the first message, close, then receive, connect again,
/// send the second message, close — no connection is reused.
pub proof fn lemma_messages_forwarded_in_order(
    src: Seq<char>,
    dst: Seq<char>,
    m1: Seq<u8>,
    m2: Seq<u8>,
)
    requires
        m1.len() <= MSG_CAPACITY,
        m2.len() <= MSG_CAPACITY,
    ensures
        ({
            let r1 = next(src, dst, StateView::Listening, EventView::RecvOk(m1));
            let s1 = next(src, dst, r1.state, EventView::ConnectOk);
            let c1 = next(src, dst, s1.state, EventView::SendOk(m1.len() as int));
            let l1 = next(src, dst, c1.state, EventView::CloseOk);
            let r2 = next(src, dst, l1.state, EventView::RecvOk(m2));
            let s2 = next(src, dst, r2.state, EventView::ConnectOk);
            let c2 = next(src, dst, s2.state, EventView::SendOk(m2.len() as int));
            let l2 = next(src, dst, c2.state, EventView::CloseOk);
            &&& r1.cmd == CommandView::Connect
            &&& s1.cmd == CommandView::SendMessage(m1)
            &&& c1.cmd == CommandView::Close
            &&& l1.cmd == CommandView::Recv
            &&& r2.cmd == CommandView::Connect
            &&& s2.cmd == CommandView::SendMessage(m2)
            &&& c2.cmd == CommandView::Close
            &&& l2.cmd == CommandView::Recv
            &&& l2.state == StateView::Listening
        }),
{
}

/// Every setup failure other than a bind conflict is fatal, and the stop
/// command carries the error that names the failing operation, the source
/// path and the cause.
pub proof fn lemma_setup_failures_fatal(src: Seq<char>, dst: Seq<char>, cause: Seq<char>)
    ensures
        next(src, dst, StateView::Binding, EventView::BindErr(cause)).cmd
            == CommandView::Stop(RelayErrorView::BindFailed(src, cause)),
        next(src, dst, StateView::Deleting, EventView::DeleteErr(cause)).cmd
            == CommandView::Stop(RelayErrorView::DeleteFailed(src, cause)),
        next(src, dst, StateView::SettingPermissions, EventView::PermissionsErr(cause)).cmd
            == CommandView::Stop(RelayErrorView::PermissionSetFailed(src, cause)),
{
}

/// Once the relay is serving messages, no failure stops it: from any
/// relaying state, every accepted event leads back to a relaying state
/// and never to a stop command.
pub proof fn lemma_per_message_errors_not_fatal(
    src: Seq<char>,
    dst: Seq<char>,
    state: StateView,
    event: EventView,
)
    requires
        relaying(state),
        accepts(state, event),
    ensures
        relaying(next(src, dst, state, event).state),
        !(next(src, dst, state, event).cmd is Stop),
{
}

} // verus!
