//! Gamepad decisions of the Ocarina-style pause menu. The host reads the
//! pads and their sticks (with floating-point dead zones); the menu decides
//! what each press or stick direction does.
//!
//! The mode is taken once per frame: nothing is accepted while the shell is
//! opening or closing, or while the save prompt is still folding away; a
//! saved prompt only closes; an open prompt chooses and answers YES / NO;
//! otherwise the pad drives the menu. Each pad's presses are fed in two
//! steps around its directional buttons, which on the menu ask the host for
//! spatial moves that it resolves on its laid-out page. A held stick acts
//! once, when its direction changes.

use vstd::prelude::*;
use crate::mock_data::PageTurn;
use crate::oot::{returned_status, OotAction, OotDemo, OotView};
use crate::oot_data::CButton;

verus! {

/// What the pad may do this frame.
#[derive(Clone, Copy, Debug, PartialEq, Eq, Structural)]
pub enum PadMode {
    /// The shell is opening or closing: nothing is accepted.
    Locked,
    /// The save prompt has been dismissed but still shows while it folds away.
    Settling,
    /// The prompt reports the game saved and waits to be closed.
    Saved,
    /// The save prompt asks YES / NO.
    Prompt,
    /// The pause menu itself.
    Menu,
}

/// The buttons one pad pressed this frame (each trigger pair counts as one).
#[derive(Clone, Copy, Debug, PartialEq, Eq, Structural)]
pub struct PadPresses {
    pub left_trigger: bool,
    pub right_trigger: bool,
    pub dpad_left: bool,
    pub dpad_right: bool,
    pub dpad_up: bool,
    pub dpad_down: bool,
    pub south: bool,
    pub east: bool,
    pub west: bool,
    pub north: bool,
    pub start: bool,
}

pub open spec fn spec_pad_mode(v: OotView, interactive: bool) -> PadMode {
    if !interactive {
        PadMode::Locked
    } else if v.save_modal_active() {
        if !v.save_prompt_open {
            PadMode::Settling
        } else if v.save_complete {
            PadMode::Saved
        } else {
            PadMode::Prompt
        }
    } else {
        PadMode::Menu
    }
}

pub open spec fn after_choose_yes(v: OotView) -> OotView {
    v.after_choose_save(OotAction::SaveYes, "Save: YES"@)
}

pub open spec fn after_choose_no(v: OotView) -> OotView {
    v.after_choose_save(OotAction::SaveNo, "Save: NO"@)
}

/// A on the prompt answers the highlighted button, or highlights YES.
pub open spec fn after_prompt_south(v: OotView) -> OotView {
    match v.selected {
        OotAction::SaveYes => v.after_click(OotAction::SaveYes),
        OotAction::SaveNo => v.after_click(OotAction::SaveNo),
        _ => after_choose_yes(v),
    }
}

/// The menu after one pad's presses, up to its directional buttons: a
/// saved prompt closes on A, B or Start; an open prompt takes left (YES),
/// right (NO), A (answer) and then B or Start (dismiss); the menu turns its
/// cube on the triggers.
pub open spec fn after_pad_presses(v: OotView, mode: PadMode, pad: PadPresses) -> OotView {
    match mode {
        PadMode::Saved => if pad.south || pad.east || pad.start {
            v.after_close_save_prompt(returned_status())
        } else {
            v
        },
        PadMode::Prompt => {
            let v1 = if pad.dpad_left {
                after_choose_yes(v)
            } else {
                v
            };
            let v2 = if pad.dpad_right {
                after_choose_no(v1)
            } else {
                v1
            };
            let v3 = if pad.south {
                after_prompt_south(v2)
            } else {
                v2
            };
            if (pad.east || pad.start) && v3.save_prompt_open {
                v3.after_toggle_save_prompt()
            } else {
                v3
            }
        },
        PadMode::Menu => {
            let v1 = if pad.left_trigger {
                v.after_turn_page(PageTurn::ViewerLeft)
            } else {
                v
            };
            if pad.right_trigger {
                v1.after_turn_page(PageTurn::ViewerRight)
            } else {
                v1
            }
        },
        _ => v,
    }
}

/// The spatial moves, in order (left, right, up, down), that one pad's
/// directional buttons ask of the host; only the menu moves its cursor.
pub open spec fn pad_moves(mode: PadMode, pad: PadPresses) -> Seq<(i32, i32)> {
    if mode == PadMode::Menu {
        (if pad.dpad_left {
            seq![(-1i32, 0i32)]
        } else {
            Seq::empty()
        }) + (if pad.dpad_right {
            seq![(1i32, 0i32)]
        } else {
            Seq::empty()
        }) + (if pad.dpad_up {
            seq![(0i32, -1i32)]
        } else {
            Seq::empty()
        }) + (if pad.dpad_down {
            seq![(0i32, 1i32)]
        } else {
            Seq::empty()
        })
    } else {
        Seq::empty()
    }
}

/// The menu after one pad's remaining presses, once its moves are resolved:
/// A activates the selection, X and Y put the selected item on C-left and
/// C-down, B opens the save prompt.
pub open spec fn after_pad_presses_after_moves(v: OotView, mode: PadMode, pad: PadPresses) -> OotView {
    if mode == PadMode::Menu {
        let v1 = if pad.south {
            v.after_click(v.selected)
        } else {
            v
        };
        let v2 = if pad.west {
            v1.after_assign_selected(CButton::Left)
        } else {
            v1
        };
        let v3 = if pad.north {
            v2.after_assign_selected(CButton::Down)
        } else {
            v2
        };
        if pad.east {
            v3.after_toggle_save_prompt()
        } else {
            v3
        }
    } else {
        v
    }
}

/// The menu after the navigation stick points `dir` (remembered `last`).
pub open spec fn after_nav_stick(
    v: OotView,
    mode: PadMode,
    dir: Option<(i32, i32)>,
    last: Option<(i32, i32)>,
) -> OotView {
    if mode == PadMode::Prompt && dir != last {
        match dir {
            Some((dx, _)) => if dx < 0 {
                v.after_choose_save(OotAction::SaveYes, "Save: YES"@)
            } else if dx > 0 {
                v.after_choose_save(OotAction::SaveNo, "Save: NO"@)
            } else {
                v
            },
            None => v,
        }
    } else {
        v
    }
}

/// The move the navigation stick asks of the host, and the direction to
/// remember.
pub open spec fn nav_stick_result(
    mode: PadMode,
    dir: Option<(i32, i32)>,
    last: Option<(i32, i32)>,
) -> (Option<(i32, i32)>, Option<(i32, i32)>) {
    match mode {
        PadMode::Menu => if dir != last {
            (dir, dir)
        } else {
            (None, last)
        },
        PadMode::Prompt => if dir != last {
            (None, dir)
        } else {
            (None, last)
        },
        _ => (None, None),
    }
}

fn menu_moves(pad: PadPresses) -> (moves: Vec<(i32, i32)>)
    ensures
        moves@ == pad_moves(PadMode::Menu, pad),
{
    let mut moves: Vec<(i32, i32)> = Vec::new();
    if pad.dpad_left {
        moves.push((-1i32, 0i32));
    }
    if pad.dpad_right {
        moves.push((1i32, 0i32));
    }
    if pad.dpad_up {
        moves.push((0i32, -1i32));
    }
    if pad.dpad_down {
        moves.push((0i32, 1i32));
    }
    proof {
        assert(moves@ =~= pad_moves(PadMode::Menu, pad));
    }
    moves
}

impl OotDemo {
    /// What the pad may do this frame; `interactive` says whether the shell
    /// is fully open.
    pub fn pad_mode(&self, interactive: bool) -> (m: PadMode)
        ensures
            m == spec_pad_mode(self@, interactive),
    {
        if !interactive {
            PadMode::Locked
        } else if self.save_modal_active() {
            if !self.save_prompt_open {
                PadMode::Settling
            } else if self.save_complete {
                PadMode::Saved
            } else {
                PadMode::Prompt
            }
        } else {
            PadMode::Menu
        }
    }

    fn prompt_presses(&mut self, pad: PadPresses)
        requires
            old(self)@.wf(),
        ensures
            final(self)@ == after_pad_presses(old(self)@, PadMode::Prompt, pad),
            final(self)@.wf(),
    {
        if pad.dpad_left {
            self.choose_save_yes();
        }
        if pad.dpad_right {
            self.choose_save_no();
        }
        if pad.south {
            let selected = self.selected;
            match selected {
                OotAction::SaveYes => self.click(OotAction::SaveYes),
                OotAction::SaveNo => self.click(OotAction::SaveNo),
                _ => self.choose_save_yes(),
            }
        }
        if (pad.east || pad.start) && self.save_prompt_open {
            self.toggle_save_prompt();
        }
    }

    fn menu_turns(&mut self, pad: PadPresses)
        requires
            old(self)@.wf(),
        ensures
            final(self)@ == after_pad_presses(old(self)@, PadMode::Menu, pad),
            final(self)@.wf(),
    {
        if pad.left_trigger {
            self.turn_page(PageTurn::ViewerLeft);
        }
        if pad.right_trigger {
            self.turn_page(PageTurn::ViewerRight);
        }
    }

    /// One pad's presses this frame, up to its directional buttons. Returns
    /// the spatial moves those ask for, in order; the host resolves each on
    /// its laid-out page and then calls `pad_presses_after_moves`.
    pub fn pad_presses(&mut self, mode: PadMode, pad: PadPresses) -> (moves: Vec<(i32, i32)>)
        requires
            old(self)@.wf(),
        ensures
            final(self)@ == after_pad_presses(old(self)@, mode, pad),
            moves@ == pad_moves(mode, pad),
            final(self)@.wf(),
    {
        match mode {
            PadMode::Saved => {
                if pad.south || pad.east || pad.start {
                    self.close_save_prompt("Returned to the pause menu.");
                }
                Vec::new()
            },
            PadMode::Prompt => {
                self.prompt_presses(pad);
                Vec::new()
            },
            PadMode::Menu => {
                self.menu_turns(pad);
                menu_moves(pad)
            },
            _ => Vec::new(),
        }
    }

    /// One pad's presses that follow its directional buttons.
    pub fn pad_presses_after_moves(&mut self, mode: PadMode, pad: PadPresses)
        requires
            old(self)@.wf(),
        ensures
            final(self)@ == after_pad_presses_after_moves(old(self)@, mode, pad),
            final(self)@.wf(),
    {
        if mode == PadMode::Menu {
            if pad.south {
                self.activate_selected();
            }
            if pad.west {
                self.assign_selected_item_to_c_button(CButton::Left);
            }
            if pad.north {
                self.assign_selected_item_to_c_button(CButton::Down);
            }
            if pad.east {
                self.press_b_button();
            }
        }
    }

    /// The navigation stick points `dir` this frame (`None` inside its dead
    /// zone); `last` is the direction remembered from before. A held stick
    /// acts only when its direction changes: on the menu it asks the host for
    /// a spatial move, on an open prompt left chooses YES and right NO.
    /// Returns the move and the direction to remember.
    pub fn nav_stick(
        &mut self,
        mode: PadMode,
        dir: Option<(i32, i32)>,
        last: Option<(i32, i32)>,
    ) -> (r: (Option<(i32, i32)>, Option<(i32, i32)>))
        requires
            old(self)@.wf(),
        ensures
            final(self)@ == after_nav_stick(old(self)@, mode, dir, last),
            r == nav_stick_result(mode, dir, last),
            final(self)@.wf(),
    {
        match mode {
            PadMode::Menu => if dir != last {
                (dir, dir)
            } else {
                (None, last)
            },
            PadMode::Prompt => if dir != last {
                if let Some((dx, _dy)) = dir {
                    if dx < 0 {
                        self.choose_save_yes();
                    } else if dx > 0 {
                        self.choose_save_no();
                    }
                }
                (None, dir)
            } else {
                (None, last)
            },
            _ => (None, None),
        }
    }

    /// The C-stick points at `dir` this frame (`None` inside its dead zone
    /// or pointing up); `last` is the button remembered from before. On the
    /// menu a newly reached direction assigns the selected item to that
    /// C-button; in every other mode the stick is ignored and forgotten.
    /// Returns the direction to remember.
    pub fn c_stick(&mut self, mode: PadMode, dir: Option<CButton>, last: Option<CButton>) -> (remember:
        Option<CButton>)
        requires
            old(self)@.wf(),
        ensures
            final(self)@ == (if mode == PadMode::Menu && dir != last {
                match dir {
                    Some(b) => old(self)@.after_assign_selected(b),
                    None => old(self)@,
                }
            } else {
                old(self)@
            }),
            remember == (if mode == PadMode::Menu {
                dir
            } else {
                None
            }),
            final(self)@.wf(),
    {
        if mode == PadMode::Menu {
            if dir != last {
                if let Some(b) = dir {
                    self.assign_selected_item_to_c_button(b);
                }
            }
            dir
        } else {
            None
        }
    }
}

} // verus!
