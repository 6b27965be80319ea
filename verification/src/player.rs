use vstd::prelude::*;

pub mod local;
pub mod remote_recv;
pub mod remote_send;

use crate::messages::Move;
use local::LocalPlayer;
use remote_recv::RemoteRecvPlayer;
use remote_send::RemoteSendPlayer;

verus! {

// A client player role turns what one frame offers — pointer input, or bytes
// a non-blocking read produced — into a pending (from, to) pair of board
// square indices, index = rank * 8 + file. Three roles share one capability
// surface: a local player fed by the pointer, a sending role that wraps a
// local player and hands its pair to the server, and a receiving role that
// mirrors moves the server relays.

/// What one client frame hands a role: the pointer position, whether the
/// primary button went down this frame, and the buffer one non-blocking read
/// of the role's connection filled, if the read returned any bytes.
pub struct FrameInput {
    pub mouse_x: i32,
    pub mouse_y: i32,
    pub clicked: bool,
    pub frame: Option<Vec<u8>>,
}

/// The capability surface shared by the three roles. Each role pins its
/// transitions down with the spec functions it implements.
pub trait Player: Sized {
    /// The role's state keeps its square indices on the board.
    spec fn wf(&self) -> bool;

    /// The pending from-square, if one is selected.
    spec fn selected_slot_spec(&self) -> Option<i32>;

    /// The pending to-square, if one is chosen.
    spec fn move_slot_spec(&self) -> Option<i32>;

    /// The pointer position the role last saw.
    spec fn mouse_spec(&self) -> (i32, i32);

    /// Whether this role handles an in-progress promotion choice.
    spec fn promotion_spec(&self) -> bool;

    /// Exactly how one ongoing-frame poll changes the role.
    spec fn ongoing_ens(pre: Self, post: Self, input: FrameInput) -> bool;

    /// Exactly how committing a pending move changes the role, and whether
    /// the move is committed to the view this frame.
    spec fn move_piece_ens(pre: Self, post: Self, committed: bool) -> bool;

    /// Exactly how dropping the selection changes the role.
    spec fn clear_ens(pre: Self, post: Self) -> bool;

    /// Called once per frame while the game is ongoing; captures or receives
    /// intent.
    fn on_ongoing(&mut self, input: FrameInput)
        requires
            old(self).wf(),
        ensures
            final(self).wf(),
            Self::ongoing_ens(*old(self), *final(self), input),
    ;

    /// Called while a promotion choice is open; returns whether this role
    /// resolves it.
    fn on_promotion(&mut self) -> (r: bool)
        ensures
            *final(self) == *old(self),
            r == old(self).promotion_spec(),
    ;

    /// Called when the game has ended.
    fn on_end(&mut self)
        ensures
            *final(self) == *old(self),
    ;

    /// Called once a from/to pair is available; returns whether the move is
    /// committed to the view this frame.
    fn on_move_piece(&mut self) -> (r: bool)
        requires
            old(self).wf(),
        ensures
            final(self).wf(),
            Self::move_piece_ens(*old(self), *final(self), r),
    ;

    /// The pending to-square.
    fn get_move(&self) -> (r: Option<i32>)
        ensures
            r == self.move_slot_spec(),
    ;

    /// The pending from-square.
    fn get_selected_slot(&self) -> (r: Option<i32>)
        ensures
            r == self.selected_slot_spec(),
    ;

    /// The pointer position the role last saw.
    fn get_mouse(&self) -> (r: (i32, i32))
        ensures
            r == self.mouse_spec(),
    ;

    /// Drops the selection.
    fn clear_selected(&mut self)
        requires
            old(self).wf(),
        ensures
            final(self).wf(),
            Self::clear_ens(*old(self), *final(self)),
    ;
}

/// The tagged union over the three roles; a game holds one per color.
pub enum PlayerTypes {
    Local(LocalPlayer),
    RemoteSend(RemoteSendPlayer),
    RemoteRecv(RemoteRecvPlayer),
}

impl PlayerTypes {
    /// The move packet a sending role should hand to the server this frame:
    /// present exactly when a sending role has a full (from, to) pair. The
    /// other roles never call the server.
    pub fn move_request(&self) -> (r: Option<Move>)
        requires
            self.wf(),
        ensures
            match self {
                PlayerTypes::RemoteSend(p) => r == p.request_spec(),
                _ => r is None,
            },
            r matches Some(m) ==> crate::messages::wf_move(m),
    {
        match self {
            PlayerTypes::RemoteSend(p) => p.move_request(),
            _ => None,
        }
    }
}

impl Player for PlayerTypes {
    open spec fn wf(&self) -> bool {
        match self {
            PlayerTypes::Local(p) => p.wf(),
            PlayerTypes::RemoteSend(p) => p.wf(),
            PlayerTypes::RemoteRecv(p) => p.wf(),
        }
    }

    open spec fn selected_slot_spec(&self) -> Option<i32> {
        match self {
            PlayerTypes::Local(p) => p.selected_slot_spec(),
            PlayerTypes::RemoteSend(p) => p.selected_slot_spec(),
            PlayerTypes::RemoteRecv(p) => p.selected_slot_spec(),
        }
    }

    open spec fn move_slot_spec(&self) -> Option<i32> {
        match self {
            PlayerTypes::Local(p) => p.move_slot_spec(),
            PlayerTypes::RemoteSend(p) => p.move_slot_spec(),
            PlayerTypes::RemoteRecv(p) => p.move_slot_spec(),
        }
    }

    open spec fn mouse_spec(&self) -> (i32, i32) {
        match self {
            PlayerTypes::Local(p) => p.mouse_spec(),
            PlayerTypes::RemoteSend(p) => p.mouse_spec(),
            PlayerTypes::RemoteRecv(p) => p.mouse_spec(),
        }
    }

    open spec fn promotion_spec(&self) -> bool {
        match self {
            PlayerTypes::Local(p) => p.promotion_spec(),
            PlayerTypes::RemoteSend(p) => p.promotion_spec(),
            PlayerTypes::RemoteRecv(p) => p.promotion_spec(),
        }
    }

    open spec fn ongoing_ens(pre: Self, post: Self, input: FrameInput) -> bool {
        match (pre, post) {
            (PlayerTypes::Local(a), PlayerTypes::Local(b)) => LocalPlayer::ongoing_ens(
                a,
                b,
                input,
            ),
            (PlayerTypes::RemoteSend(a), PlayerTypes::RemoteSend(b)) => {
                RemoteSendPlayer::ongoing_ens(a, b, input)
            },
            (PlayerTypes::RemoteRecv(a), PlayerTypes::RemoteRecv(b)) => {
                RemoteRecvPlayer::ongoing_ens(a, b, input)
            },
            _ => false,
        }
    }

    open spec fn move_piece_ens(pre: Self, post: Self, committed: bool) -> bool {
        match (pre, post) {
            (PlayerTypes::Local(a), PlayerTypes::Local(b)) => LocalPlayer::move_piece_ens(
                a,
                b,
                committed,
            ),
            (PlayerTypes::RemoteSend(a), PlayerTypes::RemoteSend(b)) => {
                RemoteSendPlayer::move_piece_ens(a, b, committed)
            },
            (PlayerTypes::RemoteRecv(a), PlayerTypes::RemoteRecv(b)) => {
                RemoteRecvPlayer::move_piece_ens(a, b, committed)
            },
            _ => false,
        }
    }

    open spec fn clear_ens(pre: Self, post: Self) -> bool {
        match (pre, post) {
            (PlayerTypes::Local(a), PlayerTypes::Local(b)) => LocalPlayer::clear_ens(a, b),
            (PlayerTypes::RemoteSend(a), PlayerTypes::RemoteSend(b)) => {
                RemoteSendPlayer::clear_ens(a, b)
            },
            (PlayerTypes::RemoteRecv(a), PlayerTypes::RemoteRecv(b)) => {
                RemoteRecvPlayer::clear_ens(a, b)
            },
            _ => false,
        }
    }

    fn on_ongoing(&mut self, input: FrameInput) {
        match self {
            PlayerTypes::Local(p) => p.on_ongoing(input),
            PlayerTypes::RemoteSend(p) => p.on_ongoing(input),
            PlayerTypes::RemoteRecv(p) => p.on_ongoing(input),
        }
    }

    fn on_promotion(&mut self) -> (r: bool) {
        match self {
            PlayerTypes::Local(p) => p.on_promotion(),
            PlayerTypes::RemoteSend(p) => p.on_promotion(),
            PlayerTypes::RemoteRecv(p) => p.on_promotion(),
        }
    }

    fn on_end(&mut self) {
        match self {
            PlayerTypes::Local(p) => p.on_end(),
            PlayerTypes::RemoteSend(p) => p.on_end(),
            PlayerTypes::RemoteRecv(p) => p.on_end(),
        }
    }

    fn on_move_piece(&mut self) -> (r: bool) {
        match self {
            PlayerTypes::Local(p) => p.on_move_piece(),
            PlayerTypes::RemoteSend(p) => p.on_move_piece(),
            PlayerTypes::RemoteRecv(p) => p.on_move_piece(),
        }
    }

    fn get_move(&self) -> (r: Option<i32>) {
        match self {
            PlayerTypes::Local(p) => p.get_move(),
            PlayerTypes::RemoteSend(p) => p.get_move(),
            PlayerTypes::RemoteRecv(p) => p.get_move(),
        }
    }

    fn get_selected_slot(&self) -> (r: Option<i32>) {
        match self {
            PlayerTypes::Local(p) => p.get_selected_slot(),
            PlayerTypes::RemoteSend(p) => p.get_selected_slot(),
            PlayerTypes::RemoteRecv(p) => p.get_selected_slot(),
        }
    }

    fn get_mouse(&self) -> (r: (i32, i32)) {
        match self {
            PlayerTypes::Local(p) => p.get_mouse(),
            PlayerTypes::RemoteSend(p) => p.get_mouse(),
            PlayerTypes::RemoteRecv(p) => p.get_mouse(),
        }
    }

    fn clear_selected(&mut self) {
        match self {
            PlayerTypes::Local(p) => p.clear_selected(),
            PlayerTypes::RemoteSend(p) => p.clear_selected(),
            PlayerTypes::RemoteRecv(p) => p.clear_selected(),
        }
    }
}

} // verus!
