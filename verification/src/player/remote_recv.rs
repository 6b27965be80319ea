use vstd::prelude::*;

use crate::codec::{decode_move, spec_dec_move};
use crate::player::{FrameInput, Player};

verus! {

// The receiving role polls its connection for a move the server relayed and
// surfaces it as if a local player had selected those squares. It never
// calls the server: by the time a move arrives here it is already
// validated.

/// A player mirroring the remote opponent's moves.
pub struct RemoteRecvPlayer {
    pub from: Option<i32>,
    pub to: Option<i32>,
    pub attempted_move: bool,
}

/// The square pair a relayed move surfaces, as board square indices.
pub open spec fn spec_inbound_squares(m: crate::messages::Move) -> (i32, i32) {
    ((m.from.1 * 8 + m.from.0) as i32, (m.to.1 * 8 + m.to.0) as i32)
}

impl RemoteRecvPlayer {
    /// A fresh receiving role: no squares surfaced yet.
    pub open spec fn init_spec() -> RemoteRecvPlayer {
        RemoteRecvPlayer { from: None, to: None, attempted_move: false }
    }

    /// A fresh receiving role.
    pub fn init() -> (r: RemoteRecvPlayer)
        ensures
            r.wf(),
            r == Self::init_spec(),
    {
        RemoteRecvPlayer { from: None, to: None, attempted_move: false }
    }
}

/// Polling with nothing to read is idempotent: after one such poll, any
/// number of further polls with nothing to read leaves the role exactly as
/// it stands, and it surfaces no squares it did not already hold.
pub proof fn lemma_idle_poll_idempotent(
    pre: RemoteRecvPlayer,
    mid: RemoteRecvPlayer,
    post: RemoteRecvPlayer,
    input: FrameInput,
)
    requires
        input.frame is None,
        RemoteRecvPlayer::ongoing_ens(pre, mid, input),
        RemoteRecvPlayer::ongoing_ens(mid, post, input),
    ensures
        post == mid,
        mid.from == pre.from,
        mid.to == pre.to,
{
}

impl Player for RemoteRecvPlayer {
    open spec fn wf(&self) -> bool {
        &&& self.from matches Some(s) ==> 0 <= s < 64
        &&& self.to matches Some(t) ==> 0 <= t < 64
    }

    open spec fn selected_slot_spec(&self) -> Option<i32> {
        self.from
    }

    open spec fn move_slot_spec(&self) -> Option<i32> {
        self.to
    }

    /// This role has no pointer.
    open spec fn mouse_spec(&self) -> (i32, i32) {
        (-1i32, -1i32)
    }

    open spec fn promotion_spec(&self) -> bool {
        false
    }

    /// Polling with no readable bytes, or with bytes that decode to no move,
    /// changes nothing but the bookkeeping flag; a decoded move lands in the
    /// square fields.
    open spec fn ongoing_ens(pre: Self, post: Self, input: FrameInput) -> bool {
        match input.frame {
            None => post == (RemoteRecvPlayer { attempted_move: false, ..pre }),
            Some(buf) => match spec_dec_move(buf@) {
                None => post == (RemoteRecvPlayer { attempted_move: false, ..pre }),
                Some(m) => post == (RemoteRecvPlayer {
                    from: Some(spec_inbound_squares(m).0),
                    to: Some(spec_inbound_squares(m).1),
                    attempted_move: true,
                }),
            },
        }
    }

    /// Committing clears both squares; this role never calls the server.
    open spec fn move_piece_ens(pre: Self, post: Self, committed: bool) -> bool {
        &&& committed
        &&& post == (RemoteRecvPlayer {
            from: None,
            to: None,
            attempted_move: pre.attempted_move,
        })
    }

    /// Dropping the selection clears only the from-square.
    open spec fn clear_ens(pre: Self, post: Self) -> bool {
        post == (RemoteRecvPlayer { from: None, ..pre })
    }

    fn on_ongoing(&mut self, input: FrameInput) {
        self.attempted_move = false;
        let buf = match input.frame {
            Some(b) => b,
            None => {
                return ;
            },
        };
        match decode_move(buf.as_slice()) {
            Some(m) => {
                self.from = Some(m.from.1 as i32 * 8 + m.from.0 as i32);
                self.to = Some(m.to.1 as i32 * 8 + m.to.0 as i32);
                self.attempted_move = true;
            },
            None => {
            },
        }
    }

    fn on_promotion(&mut self) -> (r: bool) {
        false
    }

    fn on_end(&mut self) {
    }

    fn on_move_piece(&mut self) -> (r: bool) {
        self.clear_selected();
        self.to = None;
        true
    }

    fn get_move(&self) -> (r: Option<i32>) {
        self.to
    }

    fn get_selected_slot(&self) -> (r: Option<i32>) {
        self.from
    }

    fn get_mouse(&self) -> (r: (i32, i32)) {
        (-1, -1)
    }

    fn clear_selected(&mut self) {
        self.from = None;
    }
}

} // verus!
