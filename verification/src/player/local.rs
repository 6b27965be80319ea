use vstd::prelude::*;

use crate::player::{FrameInput, Player};
use crate::screen::{screen_to_board_coord, spec_screen_to_board_coord};

verus! {

// The local player samples the pointer. The first in-bounds click selects a
// square; a second click on a different square chooses the target; a second
// click on the same square confirms and clears, committing optimistically —
// in remote play only the server is authoritative.

/// A player driven by pointer input on this machine.
pub struct LocalPlayer {
    pub selected: Option<i32>,
    pub move_to: Option<i32>,
    pub mouse: (i32, i32),
}

/// The square index under a pixel position, or none when the pixel is off
/// the board.
pub open spec fn spec_clicked_square(mx: int, my: int) -> Option<i32> {
    let (x, y) = spec_screen_to_board_coord(mx, my);
    if 0 <= x < 8 && 0 <= y < 8 {
        Some((y * 8 + x) as i32)
    } else {
        None
    }
}

impl LocalPlayer {
    /// A fresh local player: nothing selected, pointer at the origin.
    pub fn init() -> (r: LocalPlayer)
        ensures
            r.wf(),
            r.selected is None,
            r.move_to is None,
            r.mouse == (0i32, 0i32),
    {
        LocalPlayer { selected: None, move_to: None, mouse: (0, 0) }
    }
}

impl Player for LocalPlayer {
    open spec fn wf(&self) -> bool {
        &&& self.selected matches Some(s) ==> 0 <= s < 64
        &&& self.move_to matches Some(t) ==> 0 <= t < 64
    }

    open spec fn selected_slot_spec(&self) -> Option<i32> {
        self.selected
    }

    open spec fn move_slot_spec(&self) -> Option<i32> {
        self.move_to
    }

    open spec fn mouse_spec(&self) -> (i32, i32) {
        self.mouse
    }

    open spec fn promotion_spec(&self) -> bool {
        true
    }

    /// The pointer is remembered every frame. On a press over the board: the
    /// first click selects, a click elsewhere targets, a click on the
    /// selected square confirms and clears.
    open spec fn ongoing_ens(pre: Self, post: Self, input: FrameInput) -> bool {
        if !input.clicked {
            post == (LocalPlayer {
                mouse: (input.mouse_x, input.mouse_y),
                ..pre
            })
        } else {
            match spec_clicked_square(input.mouse_x as int, input.mouse_y as int) {
                None => post == (LocalPlayer { mouse: (input.mouse_x, input.mouse_y), ..pre }),
                Some(idx) => match pre.selected {
                    None => post == (LocalPlayer {
                        selected: Some(idx),
                        mouse: (input.mouse_x, input.mouse_y),
                        ..pre
                    }),
                    Some(sel) => if sel != idx {
                        post == (LocalPlayer {
                            move_to: Some(idx),
                            mouse: (input.mouse_x, input.mouse_y),
                            ..pre
                        })
                    } else {
                        post == (LocalPlayer {
                            selected: None,
                            move_to: None,
                            mouse: (input.mouse_x, input.mouse_y),
                        })
                    },
                },
            }
        }
    }

    /// Committing always succeeds locally and clears both squares.
    open spec fn move_piece_ens(pre: Self, post: Self, committed: bool) -> bool {
        &&& committed
        &&& post == (LocalPlayer { selected: None, move_to: None, mouse: pre.mouse })
    }

    /// Dropping the selection clears only the from-square.
    open spec fn clear_ens(pre: Self, post: Self) -> bool {
        post == (LocalPlayer { selected: None, ..pre })
    }

    fn on_ongoing(&mut self, input: FrameInput) {
        self.mouse = (input.mouse_x, input.mouse_y);
        if !input.clicked {
            return ;
        }
        let (x, y) = screen_to_board_coord(input.mouse_x, input.mouse_y);
        if !(0 <= x && x < 8) || !(0 <= y && y < 8) {
            return ;
        }
        let idx: i32 = y * 8 + x;
        match self.selected {
            Some(sel) => {
                if sel != idx {
                    self.move_to = Some(idx);
                } else {
                    self.on_move_piece();
                }
            },
            None => {
                self.selected = Some(idx);
            },
        }
    }

    fn on_promotion(&mut self) -> (r: bool) {
        true
    }

    fn on_end(&mut self) {
    }

    fn on_move_piece(&mut self) -> (r: bool) {
        self.clear_selected();
        self.move_to = None;
        true
    }

    fn get_move(&self) -> (r: Option<i32>) {
        self.move_to
    }

    fn get_selected_slot(&self) -> (r: Option<i32>) {
        self.selected
    }

    fn get_mouse(&self) -> (r: (i32, i32)) {
        self.mouse
    }

    fn clear_selected(&mut self) {
        self.selected = None;
    }
}

} // verus!
