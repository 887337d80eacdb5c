//! The decisions of the control loop of one session. The loop that waits on
//! the peer and on the output pump runs outside; it hands each message and
//! each output item to a `SessionBridge` and carries out what comes back.

use vstd::prelude::*;
use crate::command::{AbortSignal, CommandInputItem, CommandOutputItem, InputCommand};
use crate::protocol::{
    b64_encoded, command_of_text, decode_binary_message, decode_text_message, encode_exit,
    encode_output_text,
};

verus! {

/// A message or a connection-level notice from the peer.
#[derive(Debug)]
pub enum PeerMessage {
    Text(String),
    Binary(Vec<u8>),
    Ping(Vec<u8>),
    Pong,
    /// The peer sent a close frame.
    Close,
    /// The connection failed, with the message.
    Failed(String),
    /// The connection ended without a close frame.
    Ended,
}

/// What the control loop is to do next.
#[derive(Debug)]
pub enum BridgeAction {
    /// Hand an input command to the input pump.
    Forward(CommandInputItem),
    /// Send a binary frame to the peer.
    SendBinary(Vec<u8>),
    /// Send a text frame to the peer.
    SendText(String),
    /// Answer a ping.
    SendPong(Vec<u8>),
    /// Report something that ends nothing.
    Warn(String),
    /// The abort signal has fired: kill the process; the connection is over.
    Abort,
}

/// The value of a `BridgeAction`.
pub enum BridgeOp {
    Forward(InputCommand),
    SendBinary(Seq<u8>),
    SendText(Seq<char>),
    SendPong(Seq<u8>),
    Warn(Seq<char>),
    Abort,
}

impl View for BridgeAction {
    type V = BridgeOp;

    open spec fn view(&self) -> BridgeOp {
        match self {
            BridgeAction::Forward(c) => BridgeOp::Forward(c@),
            BridgeAction::SendBinary(b) => BridgeOp::SendBinary(b@),
            BridgeAction::SendText(s) => BridgeOp::SendText(s@),
            BridgeAction::SendPong(b) => BridgeOp::SendPong(b@),
            BridgeAction::Warn(s) => BridgeOp::Warn(s@),
            BridgeAction::Abort => BridgeOp::Abort,
        }
    }
}

pub open spec fn opt_op(o: Option<BridgeAction>) -> Option<BridgeOp> {
    match o {
        Some(a) => Some(a@),
        None => None,
    }
}

/// Where a session stands.
#[derive(Clone, Copy, Debug, PartialEq, Eq, Structural)]
pub enum BridgeState {
    /// Relaying both ways.
    Running,
    /// The process has ended: its summary is on its way to the peer.
    Draining,
    /// Over.
    Closed,
}

/// Whether a peer message ends the connection.
pub open spec fn ends_connection(m: PeerMessage) -> bool {
    m is Close || m is Failed || m is Ended
}

/// What a running bridge does on a message from the peer: a text frame
/// becomes its input command, or a warning where it holds none; a binary
/// frame becomes raw input; a ping is answered; a close or a failure of the
/// connection fires the abort.
pub open spec fn peer_op(m: PeerMessage) -> Option<BridgeOp> {
    match m {
        PeerMessage::Text(t) => match command_of_text(t@) {
            Some(c) => Some(BridgeOp::Forward(c)),
            None => Some(BridgeOp::Warn(t@)),
        },
        PeerMessage::Binary(b) => Some(BridgeOp::Forward(InputCommand::Raw(b@))),
        PeerMessage::Ping(b) => Some(BridgeOp::SendPong(b@)),
        PeerMessage::Pong => None,
        _ => Some(BridgeOp::Abort),
    }
}

/// What a running bridge does on an output item: output goes to the peer
/// as a binary frame, or as a `0;` base64 text frame; a warning is only
/// reported; the exit summary goes to the peer as a `1;` text frame.
pub open spec fn output_op(use_binary: bool, i: CommandOutputItem) -> BridgeOp {
    match i {
        CommandOutputItem::Output(b) => if use_binary {
            BridgeOp::SendBinary(b@)
        } else {
            BridgeOp::SendText("0;"@ + b64_encoded(b@))
        },
        CommandOutputItem::Error(m) => BridgeOp::Warn(m@),
        CommandOutputItem::Exit(m) => BridgeOp::SendText("1;"@ + m@),
    }
}

/// The control loop's decisions for one session.
pub struct SessionBridge {
    state: BridgeState,
    use_binary: bool,
    abort: AbortSignal,
}

impl SessionBridge {
    pub closed spec fn state_spec(&self) -> BridgeState {
        self.state
    }

    pub closed spec fn use_binary_spec(&self) -> bool {
        self.use_binary
    }

    pub closed spec fn aborted_spec(&self) -> bool {
        self.abort.is_fired_spec()
    }

    /// A running session; terminal output goes to the peer in binary frames
    /// where `use_binary` holds, else in base64 text frames.
    pub fn new(use_binary: bool) -> (r: SessionBridge)
        ensures
            r.state_spec() == BridgeState::Running,
            r.use_binary_spec() == use_binary,
            !r.aborted_spec(),
    {
        SessionBridge { state: BridgeState::Running, use_binary, abort: AbortSignal::new() }
    }

    pub fn state(&self) -> (r: BridgeState)
        ensures
            r == self.state_spec(),
    {
        self.state
    }

    /// Whether the abort signal has fired.
    pub fn aborted(&self) -> (r: bool)
        ensures
            r == self.aborted_spec(),
    {
        self.abort.is_fired()
    }

    /// Handles a message from the peer. Once the session has left
    /// `Running`, messages are dropped. A close or a failure of the
    /// connection fires the abort and closes the session.
    pub fn on_peer(&mut self, m: PeerMessage) -> (r: Option<BridgeAction>)
        ensures
            final(self).use_binary_spec() == old(self).use_binary_spec(),
            old(self).state_spec() != BridgeState::Running ==> r is None && *final(self) == *old(
                self,
            ),
            old(self).state_spec() == BridgeState::Running ==> {
                &&& opt_op(r) == peer_op(m)
                &&& final(self).state_spec() == (if ends_connection(m) {
                    BridgeState::Closed
                } else {
                    BridgeState::Running
                })
                &&& final(self).aborted_spec() == (old(self).aborted_spec() || ends_connection(m))
            },
    {
        if self.state != BridgeState::Running {
            return None;
        }
        match m {
            PeerMessage::Text(t) => match decode_text_message(t.as_str()) {
                Some(c) => Some(BridgeAction::Forward(c)),
                None => Some(BridgeAction::Warn(t)),
            },
            PeerMessage::Binary(b) => Some(BridgeAction::Forward(decode_binary_message(b))),
            PeerMessage::Ping(b) => Some(BridgeAction::SendPong(b)),
            PeerMessage::Pong => None,
            _ => {
                self.abort.fire();
                self.state = BridgeState::Closed;
                Some(BridgeAction::Abort)
            },
        }
    }

    /// Handles an item from the output pump. Once the session has left
    /// `Running`, items are dropped. The exit summary moves the session to
    /// `Draining`; the abort does not fire, since the process has ended.
    pub fn on_output(&mut self, i: CommandOutputItem) -> (r: Option<BridgeAction>)
        requires
            !old(self).use_binary_spec() && i is Output ==> i->Output_0@.len() <= usize::MAX / 2,
        ensures
            final(self).use_binary_spec() == old(self).use_binary_spec(),
            final(self).aborted_spec() == old(self).aborted_spec(),
            old(self).state_spec() != BridgeState::Running ==> r is None && *final(self) == *old(
                self,
            ),
            old(self).state_spec() == BridgeState::Running ==> {
                &&& opt_op(r) == Some(output_op(old(self).use_binary_spec(), i))
                &&& final(self).state_spec() == (if i is Exit {
                    BridgeState::Draining
                } else {
                    BridgeState::Running
                })
            },
    {
        if self.state != BridgeState::Running {
            return None;
        }
        match i {
            CommandOutputItem::Output(b) => if self.use_binary {
                Some(BridgeAction::SendBinary(b))
            } else {
                Some(BridgeAction::SendText(encode_output_text(b.as_slice())))
            },
            CommandOutputItem::Error(m) => Some(BridgeAction::Warn(m)),
            CommandOutputItem::Exit(m) => {
                self.state = BridgeState::Draining;
                Some(BridgeAction::SendText(encode_exit(m.as_str())))
            },
        }
    }

    /// The exit summary has been sent: the session is over.
    pub fn on_final_sent(&mut self)
        ensures
            final(self).use_binary_spec() == old(self).use_binary_spec(),
            final(self).aborted_spec() == old(self).aborted_spec(),
            old(self).state_spec() == BridgeState::Draining ==> final(self).state_spec()
                == BridgeState::Closed,
            old(self).state_spec() != BridgeState::Draining ==> final(self).state_spec() == old(
                self,
            ).state_spec(),
    {
        if self.state == BridgeState::Draining {
            self.state = BridgeState::Closed;
        }
    }
}

} // verus!
