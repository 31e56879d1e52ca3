//! Connection lifecycle state machine.
//!
//! A client's transport is always in exactly one of four modes. All
//! components of the client read the mode; transitions are monotonic
//! toward `Closed` except for the `Reconnecting -> Active` cycle, and
//! once `Closed` no further transition is possible.

use vstd::prelude::*;

verus! {

/// The discrete lifecycle state of the client's underlying transport.
#[derive(Clone, Copy, Debug, PartialEq, Eq, Structural)]
pub enum ConnectionMode {
    /// Connected and usable for sends.
    Active,
    /// Connection lost; the reconnect loop is attempting to restore it.
    Reconnecting,
    /// Graceful shutdown requested; tasks are winding down.
    Disconnecting,
    /// Terminal state: the client is permanently dead.
    Closed,
}

impl ConnectionMode {
    /// True when the mode is `Active`.
    pub fn is_active(&self) -> (r: bool)
        ensures
            r == (*self == ConnectionMode::Active),
    {
        matches!(self, ConnectionMode::Active)
    }

    /// True when the mode is `Reconnecting`.
    pub fn is_reconnecting(&self) -> (r: bool)
        ensures
            r == (*self == ConnectionMode::Reconnecting),
    {
        matches!(self, ConnectionMode::Reconnecting)
    }

    /// True when the mode is `Disconnecting`.
    pub fn is_disconnecting(&self) -> (r: bool)
        ensures
            r == (*self == ConnectionMode::Disconnecting),
    {
        matches!(self, ConnectionMode::Disconnecting)
    }

    /// True when the mode is `Closed`.
    pub fn is_closed(&self) -> (r: bool)
        ensures
            r == (*self == ConnectionMode::Closed),
    {
        matches!(self, ConnectionMode::Closed)
    }
}

/// Whether a reconnect request is accepted in the given mode.
///
/// A request while already `Reconnecting`, while `Disconnecting`, or
/// once `Closed` is an operator mistake and is rejected as a no-op.
pub open spec fn reconnect_accepted(m: ConnectionMode) -> bool {
    m == ConnectionMode::Active
}

/// Whether a close request is accepted in the given mode.
///
/// A request while already `Disconnecting` or `Closed` is a no-op, so
/// `close` is idempotent by design.
pub open spec fn close_accepted(m: ConnectionMode) -> bool {
    m == ConnectionMode::Active || m == ConnectionMode::Reconnecting
}

/// Handle an out-of-band reconnect request: move to `Reconnecting` when
/// the request is accepted, leave the mode untouched otherwise.
///
/// Returns the mode after the request and whether it was accepted; a
/// rejected request is a warning-level no-op, never an error.
pub fn request_reconnect(m: ConnectionMode) -> (r: (ConnectionMode, bool))
    ensures
        r == request_reconnect_spec(m),
        r.1 == reconnect_accepted(m),
        r.1 ==> r.0 == ConnectionMode::Reconnecting,
        !r.1 ==> r.0 == m,
{
    match m {
        ConnectionMode::Active => (ConnectionMode::Reconnecting, true),
        _ => (m, false),
    }
}

/// Handle a close request: move to `Disconnecting` when the request is
/// accepted, leave the mode untouched otherwise.
///
/// Returns the mode after the request and whether it was accepted; a
/// duplicate request is a warning-level no-op, never an error.
pub fn request_close(m: ConnectionMode) -> (r: (ConnectionMode, bool))
    ensures
        r == request_close_spec(m),
        r.1 == close_accepted(m),
        r.1 ==> r.0 == ConnectionMode::Disconnecting,
        !r.1 ==> r.0 == m,
{
    match m {
        ConnectionMode::Active | ConnectionMode::Reconnecting => {
            (ConnectionMode::Disconnecting, true)
        }
        _ => (m, false),
    }
}

/// A close request is idempotent: issuing it a second time from the mode
/// the first request produced changes nothing, and neither request is an
/// error.
pub proof fn lemma_close_idempotent(m: ConnectionMode)
    ensures
        request_close_spec(request_close_spec(m).0).0 == request_close_spec(m).0,
{
}

/// The mode after a close request, as a spec-level function.
pub open spec fn request_close_spec(m: ConnectionMode) -> (ConnectionMode, bool) {
    if close_accepted(m) {
        (ConnectionMode::Disconnecting, true)
    } else {
        (m, false)
    }
}

/// The mode after a reconnect request, as a spec-level function.
pub open spec fn request_reconnect_spec(m: ConnectionMode) -> (ConnectionMode, bool) {
    if reconnect_accepted(m) {
        (ConnectionMode::Reconnecting, true)
    } else {
        (m, false)
    }
}

/// A reconnect request while already `Reconnecting` is rejected and
/// leaves the mode (and thus any in-progress reconnect attempt) alone.
pub proof fn lemma_reconnect_rejected_while_reconnecting()
    ensures
        request_reconnect_spec(ConnectionMode::Reconnecting)
            == (ConnectionMode::Reconnecting, false),
{
}

/// Once `Closed`, every lifecycle request is a no-op: the terminal state
/// admits no further transition.
pub proof fn lemma_closed_is_terminal()
    ensures
        request_reconnect_spec(ConnectionMode::Closed) == (ConnectionMode::Closed, false),
        request_close_spec(ConnectionMode::Closed) == (ConnectionMode::Closed, false),
{
}

} // verus!
