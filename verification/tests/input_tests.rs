use ambition_inventory_ui::inventory::InventoryDemo;
use ambition_inventory_ui::inventory_data::{ClickAction, FocusArea, Page};
use ambition_inventory_ui::mock_data::PageTurn;
use ambition_inventory_ui::oot::{OotAction, OotDemo};
use ambition_inventory_ui::oot_data::{CButton, OotPage};
use ambition_inventory_ui::oot_gamepad::{PadMode, PadPresses};

fn no_presses() -> PadPresses {
    PadPresses {
        left_trigger: false,
        right_trigger: false,
        dpad_left: false,
        dpad_right: false,
        dpad_up: false,
        dpad_down: false,
        south: false,
        east: false,
        west: false,
        north: false,
        start: false,
    }
}

#[test]
fn hover_follows_only_a_changed_target() {
    let mut d = InventoryDemo::default();
    let revision = d.revision;
    let last = d.pointer_hover(Some(ClickAction::SelectItem(2)), None, false);
    assert_eq!(last, Some(ClickAction::SelectItem(2)));
    assert_eq!(d.selected_item, 2);
    assert_eq!(d.focus_area, FocusArea::Items);
    assert_eq!(d.revision, revision + 1);
    // Same target again: nothing happens.
    let again = d.pointer_hover(Some(ClickAction::SelectItem(2)), last, false);
    assert_eq!(again, last);
    assert_eq!(d.revision, revision + 1);
    // Over empty space the cursor stays but the target is forgotten.
    let empty = d.pointer_hover(None, again, false);
    assert_eq!(empty, None);
    assert_eq!(d.selected_item, 2);
    assert_eq!(d.revision, revision + 1);
}

#[test]
fn hover_waits_while_dragging() {
    let mut d = InventoryDemo::default();
    let before = d.clone();
    let last = d.pointer_hover(Some(ClickAction::SelectSlot(0)), None, true);
    assert_eq!(last, None);
    assert_eq!(d.selected_slot, before.selected_slot);
    assert_eq!(d.revision, before.revision);
}

#[test]
fn press_hovers_the_pressed_control() {
    let mut d = InventoryDemo::default();
    d.pointer_press(Some(ClickAction::PackItem(3)));
    assert_eq!(d.page, Page::Pack);
    assert_eq!(d.selected_pack, 3);
    let revision = d.revision;
    d.pointer_press(None);
    assert_eq!(d.revision, revision);
}

#[test]
fn pad_locked_while_shell_moves() {
    let mut d = OotDemo::default();
    let mode = d.pad_mode(false);
    assert_eq!(mode, PadMode::Locked);
    let mut pad = no_presses();
    pad.south = true;
    pad.dpad_left = true;
    pad.left_trigger = true;
    let revision = d.revision;
    assert!(d.pad_presses(mode, pad).is_empty());
    d.pad_presses_after_moves(mode, pad);
    assert_eq!(d.nav_stick(mode, Some((1, 0)), None), (None, None));
    assert_eq!(d.c_stick(mode, Some(CButton::Left), None), None);
    assert_eq!(d.revision, revision);
    assert_eq!(d.page, OotPage::Items);
}

#[test]
fn pad_drives_the_menu() {
    let mut d = OotDemo::default();
    let mode = d.pad_mode(true);
    assert_eq!(mode, PadMode::Menu);
    let mut pad = no_presses();
    pad.dpad_left = true;
    pad.dpad_down = true;
    assert_eq!(d.pad_presses(mode, pad), vec![(-1, 0), (0, 1)]);
    let mut turn = no_presses();
    turn.right_trigger = true;
    let mut expected = OotDemo::default();
    expected.turn_page(PageTurn::ViewerRight);
    d.pad_presses(mode, turn);
    assert_eq!(d.page, expected.page);
    let mut b = no_presses();
    b.east = true;
    d.pad_presses_after_moves(mode, b);
    assert!(d.save_prompt_open);
    assert_eq!(d.pad_mode(true), PadMode::Prompt);
}

#[test]
fn pad_answers_the_prompt() {
    let mut d = OotDemo::default();
    d.open_save_prompt();
    let mode = d.pad_mode(true);
    assert_eq!(mode, PadMode::Prompt);
    let mut right = no_presses();
    right.dpad_right = true;
    assert!(d.pad_presses(mode, right).is_empty());
    assert_eq!(d.selected, OotAction::SaveNo);
    let mut left = no_presses();
    left.dpad_left = true;
    d.pad_presses(mode, left);
    assert_eq!(d.selected, OotAction::SaveYes);
    let mut a = no_presses();
    a.south = true;
    d.pad_presses(mode, a);
    assert!(d.save_complete);
    let saved = d.pad_mode(true);
    assert_eq!(saved, PadMode::Saved);
    let mut start = no_presses();
    start.start = true;
    d.pad_presses(saved, start);
    assert!(!d.save_prompt_open);
    assert_eq!(d.status, "Returned to the pause menu.");
}

#[test]
fn held_stick_acts_once() {
    let mut d = OotDemo::default();
    let mode = d.pad_mode(true);
    let (mv, memory) = d.nav_stick(mode, Some((0, 1)), None);
    assert_eq!(mv, Some((0, 1)));
    assert_eq!(memory, Some((0, 1)));
    assert_eq!(d.nav_stick(mode, Some((0, 1)), memory), (None, memory));
    assert_eq!(d.nav_stick(mode, None, memory), (None, None));
    let first = d.c_stick(mode, Some(CButton::Left), None);
    assert_eq!(first, Some(CButton::Left));
    let revision = d.revision;
    assert_eq!(d.c_stick(mode, Some(CButton::Left), first), first);
    assert_eq!(d.revision, revision);
}
