use vstd::prelude::*;

use crate::codec::{decode_start, spec_dec_start};
use crate::messages::{Start, StartV, wf_start};
use crate::player::PlayerTypes;
use crate::player::remote_recv::RemoteRecvPlayer;
use crate::player::remote_send::RemoteSendPlayer;

verus! {

// The connection-establishment flow on the client: a typed address becomes
// a connected socket, the initial handshake goes out, and the client waits,
// polling, for the server's echoed handshake; that echo fixes this client's
// color and yields the two player roles for the game view. The surrounding
// program does the socket work and feeds this machine what it read.

/// Where the client stands between typing an address and playing.
#[derive(Clone, Copy, Debug, PartialEq, Eq, Structural)]
pub enum ConnPhase {
    EnteringAddress,
    AwaitingStart,
    InGame,
}

/// The client-side connection lifecycle.
pub struct ClientConn {
    pub phase: ConnPhase,
    /// The color the server's echo assigned, once one arrived.
    pub assigned_white: Option<bool>,
}

/// The handshake a client submits on connect: it always requests white —
/// the server may still assign black — carries the player's name, and
/// leaves `fen`, `time` and `inc` empty.
pub fn initial_start(name: Vec<u8>) -> (r: Start)
    requires
        name@.len() <= 0xFFFF,
    ensures
        r@ == (StartV { is_white: true, name: Some(name@), fen: None, time: None, inc: None }),
        wf_start(r@),
{
    Start { is_white: true, name: Some(name), fen: None, time: None, inc: None }
}

/// Fresh roles stand in the order the game view expects: the white seat
/// first, the sending role on the seat this client was assigned.
pub open spec fn roles_ordered(r: (PlayerTypes, PlayerTypes), assigned_white: bool) -> bool {
    if assigned_white {
        &&& r.0 == PlayerTypes::RemoteSend(RemoteSendPlayer::init_spec())
        &&& r.1 == PlayerTypes::RemoteRecv(RemoteRecvPlayer::init_spec())
    } else {
        &&& r.0 == PlayerTypes::RemoteRecv(RemoteRecvPlayer::init_spec())
        &&& r.1 == PlayerTypes::RemoteSend(RemoteSendPlayer::init_spec())
    }
}

/// The two player roles ordered by color, white first: the side this client
/// was assigned captures input and submits to the server; the other side
/// mirrors what the server relays. Both roles start fresh.
pub fn roles_for(assigned_white: bool) -> (r: (PlayerTypes, PlayerTypes))
    ensures
        roles_ordered(r, assigned_white),
{
    let send_player = PlayerTypes::RemoteSend(RemoteSendPlayer::init());
    let recv_player = PlayerTypes::RemoteRecv(RemoteRecvPlayer::init());
    if assigned_white {
        (send_player, recv_player)
    } else {
        (recv_player, send_player)
    }
}

impl ClientConn {
    /// A fresh lifecycle, at address entry.
    pub fn new() -> (r: ClientConn)
        ensures
            r.phase is EnteringAddress,
            r.assigned_white is None,
    {
        ClientConn { phase: ConnPhase::EnteringAddress, assigned_white: None }
    }

    /// The connect action succeeded and the initial handshake was written;
    /// the client now polls for the echo. On a failed connect the caller
    /// reports the error and the lifecycle stays where it was.
    pub fn connected(&mut self)
        requires
            old(self).phase is EnteringAddress,
        ensures
            final(self).phase is AwaitingStart,
            final(self).assigned_white == old(self).assigned_white,
    {
        self.phase = ConnPhase::AwaitingStart;
    }

    /// A user-triggered cancel: back to address entry, the socket abandoned
    /// by the caller.
    pub fn cancel(&mut self)
        ensures
            final(self).phase is EnteringAddress,
            final(self).assigned_white is None,
    {
        self.phase = ConnPhase::EnteringAddress;
        self.assigned_white = None;
    }

    /// One polling tick while awaiting the echoed handshake, fed the buffer
    /// a non-blocking read filled, if any. Until an echo decodes, nothing
    /// changes and the client keeps waiting. When one decodes, its color is
    /// recorded, the lifecycle enters the game, and the two roles come back
    /// ordered by color, white first.
    pub fn on_start_echo(&mut self, frame: Option<&[u8]>) -> (r: Option<(PlayerTypes, PlayerTypes)>)
        requires
            old(self).phase is AwaitingStart,
        ensures
            match frame {
                None => r is None && *final(self) == *old(self),
                Some(buf) => match spec_dec_start(buf@) {
                    None => r is None && *final(self) == *old(self),
                    Some(s) => {
                        &&& final(self).phase is InGame
                        &&& final(self).assigned_white == Some(s.is_white)
                        &&& (r matches Some(pair) && roles_ordered(pair, s.is_white))
                    },
                },
            },
    {
        let buf = match frame {
            Some(b) => b,
            None => {
                return None;
            },
        };
        match decode_start(buf) {
            Some(start) => {
                self.phase = ConnPhase::InGame;
                self.assigned_white = Some(start.is_white);
                Some(roles_for(start.is_white))
            },
            None => None,
        }
    }
}

} // verus!
