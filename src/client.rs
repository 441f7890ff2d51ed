//! The session with the display card. The socket itself lives with the
//! caller: it opens, writes and reads, and reports each outcome here; this
//! type decides the connection state, the bytes to send and what a reply
//! means.
use vstd::prelude::*;
use crate::commands::{command_bytes, Command};
use crate::error::ScoreboardError;
use crate::packet::{
    bytes_view, frame_bytes, frame_payload, is_frame, EthernetPacket, CARD_TYPE, PACKET_TYPE_OUTBOUND,
};

verus! {

/// Seconds allowed for opening the connection.
pub const CONNECT_TIMEOUT_SECS: u64 = 10;

/// Seconds allowed for a reply to arrive.
pub const RESPONSE_TIMEOUT_SECS: u64 = 5;

/// Size of the buffer a reply is read into.
pub const RESPONSE_BUFFER_LEN: usize = 1024;

/// Where the session stands.
#[derive(Debug, Clone, Copy, PartialEq, Eq, Structural)]
pub enum LinkState {
    Disconnected,
    Connecting,
    Connected,
}

/// What came of waiting for a reply.
#[derive(Debug, Clone)]
pub enum ReadOutcome {
    /// Nothing arrived in time.
    TimedOut,
    /// The read failed.
    Failed,
    /// These bytes arrived; none means the card closed the connection.
    Received(Vec<u8>),
}

/// The payload of a reply: present only when bytes arrived that decode as a
/// frame. Timeouts, failed reads, a closed connection and malformed bytes
/// all mean no reply.
pub open spec fn reply_payload(outcome: ReadOutcome) -> Option<Seq<u8>> {
    match outcome {
        ReadOutcome::Received(buf) => if is_frame(buf@) {
            Some(frame_payload(buf@))
        } else {
            None
        },
        _ => None,
    }
}

/// The session with one display card.
#[derive(Debug, Clone)]
pub struct ScoreboardClient {
    address: String,
    card_id: u8,
    state: LinkState,
}

impl ScoreboardClient {
    pub closed spec fn address_view(&self) -> Seq<char> {
        self.address@
    }

    pub closed spec fn card_id_view(&self) -> u8 {
        self.card_id
    }

    pub closed spec fn link_state(&self) -> LinkState {
        self.state
    }

    /// A disconnected session with the card `card_id` at `address`.
    pub fn new(address: String, card_id: u8) -> (r: Self)
        ensures
            r.address_view() == address@,
            r.card_id_view() == card_id,
            r.link_state() == LinkState::Disconnected,
    {
        ScoreboardClient { address, card_id, state: LinkState::Disconnected }
    }

    pub fn address(&self) -> (r: &String)
        ensures
            r@ == self.address_view(),
    {
        &self.address
    }

    pub fn card_id(&self) -> (r: u8)
        ensures
            r == self.card_id_view(),
    {
        self.card_id
    }

    pub fn state(&self) -> (r: LinkState)
        ensures
            r == self.link_state(),
    {
        self.state
    }

    pub fn is_connected(&self) -> (r: bool)
        ensures
            r == (self.link_state() == LinkState::Connected),
    {
        match self.state {
            LinkState::Connected => true,
            _ => false,
        }
    }

    /// Marks that a connection is being opened.
    pub fn begin_connect(&mut self)
        ensures
            final(self).link_state() == LinkState::Connecting,
            final(self).address_view() == old(self).address_view(),
            final(self).card_id_view() == old(self).card_id_view(),
    {
        self.state = LinkState::Connecting;
    }

    /// Records whether opening the connection succeeded in time; a timeout or
    /// a refusal is a `Connect` error and leaves the session disconnected.
    pub fn connect_finished(&mut self, opened: bool) -> (r: Result<(), ScoreboardError>)
        ensures
            final(self).link_state() == if opened {
                LinkState::Connected
            } else {
                LinkState::Disconnected
            },
            r == if opened {
                Ok::<(), ScoreboardError>(())
            } else {
                Err(ScoreboardError::Connect)
            },
            final(self).address_view() == old(self).address_view(),
            final(self).card_id_view() == old(self).card_id_view(),
    {
        if opened {
            self.state = LinkState::Connected;
            Ok(())
        } else {
            self.state = LinkState::Disconnected;
            Err(ScoreboardError::Connect)
        }
    }

    /// Records that the connection was shut down or lost.
    pub fn disconnected(&mut self)
        ensures
            final(self).link_state() == LinkState::Disconnected,
            final(self).address_view() == old(self).address_view(),
            final(self).card_id_view() == old(self).card_id_view(),
    {
        self.state = LinkState::Disconnected;
    }

    /// The frame that carries `command` to this session's card.
    pub fn frame(&self, command: &Command) -> (r: bytes::Bytes)
        ensures
            bytes_view(r) == frame_bytes(
                (((4 + command_bytes(*command).len()) % 0x1_0000_0000) as u32) as u16,
                0,
                PACKET_TYPE_OUTBOUND,
                CARD_TYPE,
                self.card_id_view(),
                command_bytes(*command),
            ),
            ({
                let b = bytes_view(r);
                &&& is_frame(b)
                &&& b[10] == self.card_id_view()
                &&& frame_payload(b) == command_bytes(*command)
            }),
    {
        let packet = EthernetPacket::new(self.card_id, command.encode());
        proof {
            crate::packet::lemma_frame_round_trip(packet);
        }
        packet.encode()
    }

    /// Whether the frame was written in full; a failed write is an `Io` error.
    pub fn write_finished(&self, written: bool) -> (r: Result<(), ScoreboardError>)
        ensures
            r == if written {
                Ok::<(), ScoreboardError>(())
            } else {
                Err(ScoreboardError::Io)
            },
    {
        if written {
            Ok(())
        } else {
            Err(ScoreboardError::Io)
        }
    }

    /// What a reply means to the sender of a command: its payload, or no
    /// reply at all. Never an error.
    pub fn reply(outcome: ReadOutcome) -> (r: Option<Vec<u8>>)
        ensures
            match reply_payload(outcome) {
                Some(p) => r matches Some(v) && v@ == p,
                None => r is None,
            },
    {
        match outcome {
            ReadOutcome::Received(buf) => match EthernetPacket::decode(buf.as_slice()) {
                Ok(packet) => Some(packet.command_data),
                Err(_) => None,
            },
            _ => None,
        }
    }

    /// The command that probes whether the card still answers.
    pub fn keep_alive_command() -> (r: Command)
        ensures
            r == Command::QueryVersion,
    {
        Command::QueryVersion
    }

    /// Records the outcome of a keep-alive probe: any failure leaves the
    /// session disconnected. Returns whether the card is alive.
    pub fn keep_alive_finished(&mut self, result: Result<Option<Vec<u8>>, ScoreboardError>) -> (r:
        bool)
        ensures
            r == result is Ok,
            final(self).link_state() == if result is Ok {
                old(self).link_state()
            } else {
                LinkState::Disconnected
            },
            final(self).address_view() == old(self).address_view(),
            final(self).card_id_view() == old(self).card_id_view(),
    {
        match result {
            Ok(_) => true,
            Err(_) => {
                self.state = LinkState::Disconnected;
                false
            },
        }
    }
}

} // verus!
