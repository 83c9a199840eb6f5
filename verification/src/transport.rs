//! The transport: where the two sockets of a player are bound and connected,
//! and what is made of one receive.
//!
//! A player owns two sockets, one that only sends and one that only
//! receives. Each is connected to a single socket of the other player, so a
//! socket never has to tell senders apart. The sockets themselves belong to
//! the caller; this module decides their addresses and judges what came in.
//!
//! | player | socket  | local port | remote port |
//! |--------|---------|------------|-------------|
//! | first  | send    | 34254      | 34256       |
//! | first  | receive | 34255      | 34257       |
//! | second | send    | 34257      | 34255       |
//! | second | receive | 34256      | 34254       |

use vstd::prelude::*;
use crate::networking::Mode;
use crate::packet::PACKET_SIZE;

verus! {

/// The loopback address 127.0.0.1, which both players have until an
/// operator gives them the addresses of their machines.
pub const LOOPBACK: u32 = 0x7F00_0001;

/// One end of a socket: an IPv4 address, as a 32-bit number with the first
/// octet in the highest byte, and a UDP port.
#[derive(Clone, Copy, Debug, PartialEq, Eq, Structural)]
pub struct Endpoint {
    pub address: u32,
    pub port: u16,
}

/// One connected socket: where it is bound and whom it is connected to.
#[derive(Clone, Copy, Debug, PartialEq, Eq, Structural)]
pub struct Route {
    pub local: Endpoint,
    pub remote: Endpoint,
}

/// The two sockets of one player.
#[derive(Clone, Copy, Debug, PartialEq, Eq, Structural)]
pub struct ConnectionPlan {
    pub send: Route,
    pub receive: Route,
}

/// Why a receive gave no datagram.
#[derive(Clone, Copy, Debug, PartialEq, Eq, Structural)]
pub enum TransportError {
    /// The socket reported a failure.
    NoData,
    /// Something arrived, but not the eighty bytes of a datagram.
    SizeMismatch,
}

/// The other player of the session.
pub open spec fn opponent_of(mode: Mode) -> Mode {
    match mode {
        Mode::MultiplayerPlayer1 => Mode::MultiplayerPlayer2,
        Mode::MultiplayerPlayer2 => Mode::MultiplayerPlayer1,
    }
}

/// The address of a player's machine.
pub open spec fn address_of(mode: Mode) -> u32 {
    LOOPBACK
}

/// The port to which a player binds its sending socket.
pub open spec fn send_port_of(mode: Mode) -> u16 {
    match mode {
        Mode::MultiplayerPlayer1 => 34254,
        Mode::MultiplayerPlayer2 => 34257,
    }
}

/// The port to which a player binds its receiving socket.
pub open spec fn receive_port_of(mode: Mode) -> u16 {
    match mode {
        Mode::MultiplayerPlayer1 => 34255,
        Mode::MultiplayerPlayer2 => 34256,
    }
}

/// The sockets of a player: it sends from its send port to the receive port
/// of the other player, and receives on its receive port from the send port
/// of the other player.
pub open spec fn plan_of(mode: Mode) -> ConnectionPlan {
    let other = opponent_of(mode);
    ConnectionPlan {
        send: Route {
            local: Endpoint { address: address_of(mode), port: send_port_of(mode) },
            remote: Endpoint { address: address_of(other), port: receive_port_of(other) },
        },
        receive: Route {
            local: Endpoint { address: address_of(mode), port: receive_port_of(mode) },
            remote: Endpoint { address: address_of(other), port: send_port_of(other) },
        },
    }
}

/// What one receive into a buffer of eighty bytes amounts to: the datagram,
/// if the socket reported exactly eighty bytes.
pub open spec fn received_of(outcome: Option<usize>, buf: [u8; PACKET_SIZE]) -> Result<
    [u8; PACKET_SIZE],
    TransportError,
> {
    match outcome {
        None => Err(TransportError::NoData),
        Some(amount) => if amount == PACKET_SIZE {
            Ok(buf)
        } else {
            Err(TransportError::SizeMismatch)
        },
    }
}

/// The sockets of the two players meet: each socket is connected to the
/// very endpoint that its counterpart on the other side is bound to, and
/// that counterpart is connected back to it.
pub proof fn lemma_routes_meet(mode: Mode)
    ensures
        plan_of(mode).send.remote == plan_of(opponent_of(mode)).receive.local,
        plan_of(mode).send.local == plan_of(opponent_of(mode)).receive.remote,
        plan_of(mode).receive.remote == plan_of(opponent_of(mode)).send.local,
        plan_of(mode).receive.local == plan_of(opponent_of(mode)).send.remote,
{
}

/// No two of the four sockets of a session are bound to the same endpoint,
/// so both players can run on one machine.
pub proof fn lemma_local_endpoints_differ(mode: Mode)
    ensures
        plan_of(mode).send.local != plan_of(mode).receive.local,
        plan_of(mode).send.local != plan_of(opponent_of(mode)).send.local,
        plan_of(mode).send.local != plan_of(opponent_of(mode)).receive.local,
        plan_of(mode).receive.local != plan_of(opponent_of(mode)).receive.local,
{
}

/// The other player of the session.
pub fn opponent(mode: Mode) -> (other: Mode)
    ensures
        other == opponent_of(mode),
{
    match mode {
        Mode::MultiplayerPlayer1 => Mode::MultiplayerPlayer2,
        Mode::MultiplayerPlayer2 => Mode::MultiplayerPlayer1,
    }
}

/// The end of a player's sending socket on its own machine.
pub fn send_endpoint(mode: Mode) -> (endpoint: Endpoint)
    ensures
        endpoint == (Endpoint { address: address_of(mode), port: send_port_of(mode) }),
{
    match mode {
        Mode::MultiplayerPlayer1 => Endpoint { address: LOOPBACK, port: 34254 },
        Mode::MultiplayerPlayer2 => Endpoint { address: LOOPBACK, port: 34257 },
    }
}

/// The end of a player's receiving socket on its own machine.
pub fn receive_endpoint(mode: Mode) -> (endpoint: Endpoint)
    ensures
        endpoint == (Endpoint { address: address_of(mode), port: receive_port_of(mode) }),
{
    match mode {
        Mode::MultiplayerPlayer1 => Endpoint { address: LOOPBACK, port: 34255 },
        Mode::MultiplayerPlayer2 => Endpoint { address: LOOPBACK, port: 34256 },
    }
}

/// Says where a player binds its two sockets and whom it connects them to.
pub fn connection_plan(mode: Mode) -> (plan: ConnectionPlan)
    ensures
        plan == plan_of(mode),
{
    let other = opponent(mode);
    ConnectionPlan {
        send: Route { local: send_endpoint(mode), remote: receive_endpoint(other) },
        receive: Route { local: receive_endpoint(mode), remote: send_endpoint(other) },
    }
}

/// Judges one receive. `outcome` is the number of bytes that the socket
/// reported, or `None` if it reported a failure; `buf` is the buffer that
/// was handed to it. The buffer is a datagram if and only if exactly eighty
/// bytes came in; then it is returned as it is.
pub fn recv_packet_buffer(outcome: Option<usize>, buf: [u8; PACKET_SIZE]) -> (r: Result<
    [u8; PACKET_SIZE],
    TransportError,
>)
    ensures
        r == received_of(outcome, buf),
        r is Ok <==> outcome == Some(PACKET_SIZE),
        outcome is None <==> r == Err::<[u8; PACKET_SIZE], TransportError>(TransportError::NoData),
{
    match outcome {
        None => Err(TransportError::NoData),
        Some(amount) => {
            if amount == PACKET_SIZE {
                Ok(buf)
            } else {
                Err(TransportError::SizeMismatch)
            }
        },
    }
}

} // verus!
