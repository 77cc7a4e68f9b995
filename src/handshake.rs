use vstd::prelude::*;
use vstd::string::StringExecFns;

use crate::errors::GpibControllerError;
use crate::gpib_controller::address_query;
use crate::gpib_controller::address_reply_outcome;
use crate::gpib_controller::auto_command;
use crate::gpib_controller::mode_command;
use crate::gpib_controller::GpibController;

verus! {

/// Where the handshake of a new connection stands: each stage waits for the
/// outcome of the last action it asked for.
#[derive(Debug, Clone, Copy, PartialEq, Eq)]
pub enum Handshake {
    /// The connection is being opened.
    Opening,
    /// The address query is being written.
    QuerySent,
    /// The reply to the address query is being read.
    AwaitingAddress,
    /// Read-after-write is being enabled; the adapter reported `address`.
    AutoSent { address: u8 },
    /// Controller mode is being set; the adapter reported `address`.
    ModeSent { address: u8 },
}

/// What the connection reports back to the handshake.
pub enum LinkEvent {
    /// The connection is open and its timeouts are set.
    Opened,
    /// A write completed with this many bytes.
    Written(usize),
    /// A read returned these bytes.
    Received(Vec<u8>),
    /// The last network operation failed, for this reason.
    Failed(String),
}

/// What the handshake asks of the connection next.
pub enum LinkAction {
    /// Write this text.
    Write(String),
    /// Read one response.
    Read,
    /// The handshake is complete: this is the session.
    Connected(GpibController),
    /// The handshake failed with this error.
    Abort(GpibControllerError),
}

impl LinkAction {
    /// Whether this action writes exactly `text`.
    pub open spec fn writes(self, text: Seq<char>) -> bool {
        match self {
            LinkAction::Write(c) => c@ == text,
            _ => false,
        }
    }
}

impl Handshake {
    /// Whether `event` is an outcome this stage can receive.
    pub open spec fn accepts(self, event: LinkEvent) -> bool {
        match event {
            LinkEvent::Failed(_) => true,
            LinkEvent::Opened => self == Handshake::Opening,
            LinkEvent::Received(_) => self == Handshake::AwaitingAddress,
            LinkEvent::Written(_) => self is QuerySent || self is AutoSent || self is ModeSent,
        }
    }

    /// Moves the handshake on by one event: the next stage, and what to do.
    /// In order it writes the address query, reads the reply, writes the
    /// read-after-write command and the controller-mode command, and then
    /// yields a session that has the reported address selected. Any failure
    /// ends it.
    pub fn step(self, event: LinkEvent) -> (r: (Handshake, LinkAction))
        requires
            self.accepts(event),
        ensures
            match event {
                LinkEvent::Failed(m) => r.1 == LinkAction::Abort(
                    GpibControllerError::TransportError(m),
                ),
                LinkEvent::Opened => r.0 == Handshake::QuerySent && r.1.writes(address_query()),
                LinkEvent::Received(b) => match address_reply_outcome(b@) {
                    Ok(a) => r.0 == (Handshake::AutoSent { address: a }) && r.1.writes(auto_command()),
                    Err(e) => r.1 == LinkAction::Abort(e),
                },
                LinkEvent::Written(_) => match self {
                    Handshake::QuerySent => r.0 == Handshake::AwaitingAddress && r.1
                        == LinkAction::Read,
                    Handshake::AutoSent { address } => r.0 == (Handshake::ModeSent { address })
                        && r.1.writes(mode_command()),
                    Handshake::ModeSent { address } => r.1 matches LinkAction::Connected(s)
                        && s.selected() == address,
                    _ => false,
                },
            },
    {
        match event {
            LinkEvent::Failed(m) => (self, LinkAction::Abort(GpibControllerError::TransportError(m))),
            LinkEvent::Opened => (
                Handshake::QuerySent,
                LinkAction::Write(String::from_str("++addr\n")),
            ),
            LinkEvent::Received(b) => match GpibController::try_new_from(b.as_slice()) {
                Ok(s) => (
                    Handshake::AutoSent { address: s.current_address() },
                    LinkAction::Write(String::from_str("++auto 1\n")),
                ),
                Err(e) => (self, LinkAction::Abort(e)),
            },
            LinkEvent::Written(_) => match self {
                Handshake::QuerySent => (Handshake::AwaitingAddress, LinkAction::Read),
                Handshake::AutoSent { address } => (
                    Handshake::ModeSent { address },
                    LinkAction::Write(String::from_str("++mode 1\n")),
                ),
                Handshake::ModeSent { address } => (
                    self,
                    LinkAction::Connected(GpibController::with_address(address)),
                ),
                Handshake::Opening | Handshake::AwaitingAddress => {
                    proof {
                        assert(!self.accepts(event));
                    }
                    (self, LinkAction::Read)
                },
            },
        }
    }
}

} // verus!
