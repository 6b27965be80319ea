use vstd::prelude::*;

use crate::messages::{Move, wf_move};
use crate::player::{FrameInput, Player};
use crate::player::local::LocalPlayer;

verus! {

// The sending role wraps a local player for input capture. Once the wrapped
// player holds a full (from, to) pair, `move_request` names the move packet
// the caller must send to the server; the caller performs the send, waits —
// blocking — until an acknowledgement arrives, and only then calls
// `on_move_piece`, which clears the wrapped player and commits.

/// A player whose moves are captured locally and submitted to the server.
pub struct RemoteSendPlayer {
    pub local: LocalPlayer,
}

impl RemoteSendPlayer {
    /// A fresh sending role: a fresh local player inside.
    pub open spec fn init_spec() -> RemoteSendPlayer {
        RemoteSendPlayer {
            local: LocalPlayer { selected: None, move_to: None, mouse: (0i32, 0i32) },
        }
    }

    /// A fresh sending role around a fresh local player.
    pub fn init() -> (r: RemoteSendPlayer)
        ensures
            r.wf(),
            r == Self::init_spec(),
    {
        RemoteSendPlayer { local: LocalPlayer::init() }
    }

    /// The move packet pending submission: present exactly when the wrapped
    /// player holds both squares, carrying them as (file, rank) pairs, with
    /// no promotion and neither flag raised.
    pub open spec fn request_spec(&self) -> Option<Move> {
        match (self.local.selected, self.local.move_to) {
            (Some(from), Some(to)) => Some(
                Move {
                    from: ((from % 8) as u8, (from / 8) as u8),
                    to: ((to % 8) as u8, (to / 8) as u8),
                    promotion: None,
                    offer_draw: false,
                    forfeit: false,
                },
            ),
            _ => None,
        }
    }

    /// The move packet to hand to the server this frame, if any.
    pub fn move_request(&self) -> (r: Option<Move>)
        requires
            self.wf(),
        ensures
            r == self.request_spec(),
            r matches Some(m) ==> wf_move(m),
    {
        match (self.local.selected, self.local.move_to) {
            (Some(from), Some(to)) => Some(
                Move {
                    from: ((from % 8) as u8, (from / 8) as u8),
                    to: ((to % 8) as u8, (to / 8) as u8),
                    promotion: None,
                    offer_draw: false,
                    forfeit: false,
                },
            ),
            _ => None,
        }
    }
}

impl Player for RemoteSendPlayer {
    open spec fn wf(&self) -> bool {
        self.local.wf()
    }

    open spec fn selected_slot_spec(&self) -> Option<i32> {
        self.local.selected
    }

    open spec fn move_slot_spec(&self) -> Option<i32> {
        self.local.move_to
    }

    open spec fn mouse_spec(&self) -> (i32, i32) {
        self.local.mouse
    }

    open spec fn promotion_spec(&self) -> bool {
        false
    }

    /// Input capture is the wrapped local player's.
    open spec fn ongoing_ens(pre: Self, post: Self, input: FrameInput) -> bool {
        LocalPlayer::ongoing_ens(pre.local, post.local, input)
    }

    /// Called after the server's acknowledgement arrived: with a full pair
    /// pending the wrapped player is cleared and the move commits; with no
    /// pair nothing happens and nothing commits.
    open spec fn move_piece_ens(pre: Self, post: Self, committed: bool) -> bool {
        &&& committed == (pre.local.selected is Some && pre.local.move_to is Some)
        &&& if committed {
            LocalPlayer::move_piece_ens(pre.local, post.local, true)
        } else {
            post == pre
        }
    }

    /// Dropping the selection is the wrapped local player's.
    open spec fn clear_ens(pre: Self, post: Self) -> bool {
        LocalPlayer::clear_ens(pre.local, post.local)
    }

    fn on_ongoing(&mut self, input: FrameInput) {
        self.local.on_ongoing(input);
    }

    fn on_promotion(&mut self) -> (r: bool) {
        false
    }

    fn on_end(&mut self) {
    }

    fn on_move_piece(&mut self) -> (r: bool) {
        let has_pair = self.local.selected.is_some() && self.local.move_to.is_some();
        if has_pair {
            self.local.on_move_piece();
            true
        } else {
            false
        }
    }

    fn get_move(&self) -> (r: Option<i32>) {
        self.local.get_move()
    }

    fn get_selected_slot(&self) -> (r: Option<i32>) {
        self.local.get_selected_slot()
    }

    fn get_mouse(&self) -> (r: (i32, i32)) {
        self.local.get_mouse()
    }

    fn clear_selected(&mut self) {
        self.local.clear_selected();
    }
}

} // verus!
