use ambition_inventory_ui::menu::MenuControlKind;
use ambition_inventory_ui::mock_data::PageTurn;
use ambition_inventory_ui::oot::{is_disabled_control, EquipAnim, EquipAnimPhase, OotAction, OotDemo};
use ambition_inventory_ui::oot_data::{
    arrow_kind, bow_item_index, c_slot_family, default_item_action_index, equip_choice, oot_item,
    song, ArrowKind, CButton, CSlotFamily, OotPage,
};

fn c_buttons(d: &OotDemo) -> [usize; 3] {
    [d.c_left, d.c_down, d.c_right]
}

#[test]
fn opens_on_the_fairy_bow() {
    let d = OotDemo::default();
    assert_eq!(d.page, OotPage::Items);
    assert_eq!(d.selected, OotAction::Item(3));
    assert_eq!(c_buttons(&d), [9, 7, 3]);
    assert_eq!((d.equipped_sword, d.equipped_shield, d.equipped_tunic, d.equipped_boots), (1, 1, 0, 0));
    assert_eq!(d.status, "Complete inventory demo. Pick an item, assign it to C, or press B to save.");
    assert!(!d.save_modal_active());
    assert_eq!(d.equip_anim, None);
}

#[test]
fn child_only_items_stay_visible_but_disabled() {
    let mut d = OotDemo::default();
    d.hover(OotAction::Item(0));
    assert_eq!(d.selected, OotAction::Item(0));
    assert_eq!(d.status, "Deku Stick is child-only and disabled for Adult Link.");
    d.click(OotAction::Item(0));
    assert_eq!(d.status, "Deku Stick is visible for layout accuracy, but Adult Link cannot use it.");
    d.assign_selected_item_to_c_button(CButton::Left);
    assert_eq!(d.status, "Deku Stick is disabled for Adult Link and cannot be assigned.");
    assert_eq!(c_buttons(&d), [9, 7, 3]);
    d.start_c_button_equip(0, CButton::Right);
    assert_eq!(d.status, "Deku Stick cannot be assigned by Adult Link.");
    assert_eq!(c_buttons(&d), [9, 7, 3]);
}

#[test]
fn hover_bumps_only_on_visible_change() {
    let mut d = OotDemo::default();
    d.hover(OotAction::Item(3));
    assert_eq!(d.status, "Fairy Bow");
    assert_eq!(d.revision, 1);
    d.hover(OotAction::Item(3));
    assert_eq!(d.revision, 1);
    d.hover(OotAction::Save);
    assert_eq!(d.selected, OotAction::Item(3));
    assert_eq!(d.status, "Open the save confirmation.");
    assert_eq!(d.revision, 2);
}

#[test]
fn assigning_an_item_to_a_c_button() {
    let mut d = OotDemo::default();
    d.click(OotAction::Item(2));
    assert_eq!(d.status, "Bomb selected. Press Z/X/C to assign.");
    d.assign_selected_item_to_c_button(CButton::Left);
    assert_eq!(d.status, "Equipping Bomb to C-Left.");
    assert_eq!(c_buttons(&d), [2, 7, 3]);
    assert_eq!(
        d.equip_anim,
        Some(EquipAnim { item_idx: 2, target_button: CButton::Left, phase: EquipAnimPhase::ItemToButton })
    );
    d.equip_phase_done();
    assert_eq!(d.equip_anim, None);
    assert_eq!(d.status, "Assigned Bomb to C-Left.");
    assert_eq!(c_buttons(&d), [2, 7, 3]);
}

#[test]
fn magic_arrows_go_through_the_bow() {
    let mut d = OotDemo::default();
    d.click(OotAction::Item(4));
    d.assign_selected_item_to_c_button(CButton::Down);
    assert_eq!(d.status, "Fire Arrow magic is modifying the Fairy Bow for C-Down.");
    assert_eq!(c_buttons(&d), [9, 4, 7]);
    d.equip_phase_done();
    assert_eq!(d.equip_anim.unwrap().phase, EquipAnimPhase::ArrowBowHold);
    d.equip_phase_done();
    assert_eq!(d.equip_anim.unwrap().phase, EquipAnimPhase::BowToButton);
    d.equip_phase_done();
    assert_eq!(d.equip_anim, None);
    assert_eq!(d.status, "Assigned Fire Arrow to C-Down.");
    assert_eq!(c_buttons(&d), [9, 4, 7]);
    let rev = d.revision;
    d.equip_phase_done();
    assert_eq!(d.revision, rev);
}

#[test]
fn assignment_swaps_a_duplicate_family() {
    let mut d = OotDemo::default();
    d.preview_unique_c_button(9, 2);
    assert_eq!(c_buttons(&d), [3, 7, 9]);
    d.preview_unique_c_button(16, 1);
    assert_eq!(c_buttons(&d), [7, 16, 9]);
    d.preview_unique_c_button(5, 1);
    assert_eq!(c_buttons(&d), [7, 5, 9]);
}

#[test]
fn assign_needs_an_item_under_the_cursor() {
    let mut d = OotDemo::default();
    d.goto_page(OotPage::Equipment);
    assert_eq!(d.selected, OotAction::EquipChoice { slot: 0, choice: 1 });
    assert_eq!(d.status, "Equipment page");
    d.assign_selected_item_to_c_button(CButton::Left);
    assert_eq!(d.status, "Move the cursor to an inventory item before assigning it to a C-button.");
    d.click(OotAction::AssignC(CButton::Right));
    assert_eq!(d.status, "Select an item first, then assign it to a C-button.");
}

#[test]
fn equipment_choices() {
    let mut d = OotDemo::default();
    d.goto_page(OotPage::Equipment);
    d.click(OotAction::EquipChoice { slot: 0, choice: 0 });
    assert_eq!(d.status, "Kokiri Sword is child-only in this Adult Link demo.");
    assert_eq!(d.equipped_sword, 1);
    d.click(OotAction::EquipChoice { slot: 3, choice: 2 });
    assert_eq!(d.equipped_boots, 2);
    assert_eq!(d.status, "Equipped Hover Boots.");
    d.hover(OotAction::EquipChoice { slot: 1, choice: 2 });
    assert_eq!(d.status, "Shield: Mirror Shield");
    d.goto_page(OotPage::Items);
    d.click(OotAction::EquipChoice { slot: 0, choice: 2 });
    assert_eq!(d.status, "Biggoron Sword is child-only and disabled for Adult Link.");
    assert_eq!(d.equipped_sword, 1);
}

#[test]
fn map_and_quest_pages() {
    let mut d = OotDemo::default();
    d.goto_page(OotPage::MapPage);
    assert_eq!(d.selected, OotAction::MapMarker(0));
    d.click(OotAction::MapMarker(3));
    assert_eq!(d.status, "Map marker: Death Mountain.");
    d.goto_page(OotPage::Quest);
    assert_eq!(d.status, "Quest Status page");
    d.click(OotAction::Song(0));
    assert_eq!(d.status, "Minuet of Forest reminder: A ↑ ← → ← →");
    d.click(OotAction::QuestIcon(6));
    assert_eq!(d.status, "Kokiri Emerald achieved.");
    d.hover(OotAction::Song(11));
    assert_eq!(d.status, "Song of Storms");
}

#[test]
fn edge_prompts_turn_the_cube() {
    let mut d = OotDemo::default();
    d.click(OotAction::EdgeLeft);
    assert_eq!(d.page, OotPage::MapPage);
    assert_eq!(d.selected, OotAction::EdgeRight);
    assert_eq!(d.status, "Map page");
    d.hover(OotAction::EdgeRight);
    assert_eq!(d.status, "Rotate right to Select Item.");
    d.turn_page(PageTurn::ViewerRight);
    assert_eq!(d.page, OotPage::Items);
    d.previous_page();
    assert_eq!(d.page, OotPage::MapPage);
    d.next_page();
    assert_eq!(d.page, OotPage::Items);
    d.next_page();
    assert_eq!(d.page, OotPage::Equipment);
    assert_eq!(OotDemo::page_on_viewer_left(OotPage::Equipment), OotPage::Items);
    assert_eq!(OotPage::from_index(-1), OotPage::Equipment);
    assert_eq!(OotPage::Quest.label(), "Quest Status");
}

#[test]
fn cancelling_the_save_returns_the_cursor() {
    let mut d = OotDemo::default();
    d.click(OotAction::Item(9));
    d.press_b_button();
    assert!(d.save_prompt_open);
    assert_eq!(d.selected, OotAction::SaveYes);
    assert_eq!(d.save_return_selection, OotAction::Item(9));
    assert_eq!(d.status, "Save? Choose Yes or No. The active page flips around its horizontal center line.");
    d.save_flip_moved(true, false);
    d.choose_save_no();
    assert_eq!(d.status, "Save: NO");
    d.click(OotAction::SaveNo);
    assert!(!d.save_prompt_open);
    assert_eq!(d.status, "Save cancelled. Returning to the pause menu.");
    assert_eq!(d.selected, OotAction::SaveNo);
    assert!(d.save_modal_active());
    d.save_flip_moved(false, false);
    assert_eq!(d.selected, OotAction::Item(9));
    assert!(!d.save_modal_active());
    d.save_flip_moved(false, true);
    assert_eq!(d.selected, OotAction::Item(9));
}

#[test]
fn confirming_the_save_then_returning() {
    let mut d = OotDemo::default();
    d.toggle_save_prompt();
    d.click(OotAction::SaveYes);
    assert!(d.save_complete);
    assert!(d.save_prompt_open);
    assert_eq!(d.selected, OotAction::SaveNo);
    assert_eq!(d.status, "Saved. Press A, B, Start, Enter, or Space to return.");
    d.activate_selected();
    assert!(!d.save_prompt_open);
    assert_eq!(d.status, "Returned to the pause menu.");
    assert!(d.save_complete);
    d.save_flip_moved(false, true);
    assert!(!d.save_complete);
    assert_eq!(d.selected, OotAction::Item(3));
}

#[test]
fn save_prompt_edges() {
    let mut d = OotDemo::default();
    let rev = d.revision;
    d.confirm_save();
    d.close_save_prompt("ignored");
    assert_eq!(d.revision, rev);
    d.open_save_prompt();
    let rev = d.revision;
    d.open_save_prompt();
    assert_eq!(d.revision, rev);
    d.choose_save_yes();
    assert_eq!(d.revision, rev);
    d.save_flip_moved(true, false);
    assert_eq!(d.revision, rev);
    d.press_b_button();
    assert!(!d.save_prompt_open);
    assert_eq!(d.status, "Returned to the pause menu.");
    assert!(!OotAction::EdgeLeft.is_focusable_for(&d));
    d.save_flip_moved(false, true);
    assert!(OotAction::EdgeLeft.is_focusable_for(&d));
    assert_eq!(d.focusable_action_or_default(OotAction::MapMarker(1)), OotAction::Item(3));
}

#[test]
fn disabled_controls() {
    assert!(is_disabled_control(MenuControlKind::Item, Some(OotAction::Item(0))));
    assert!(!is_disabled_control(MenuControlKind::Item, Some(OotAction::Item(1))));
    assert!(is_disabled_control(MenuControlKind::Item, None));
    assert!(is_disabled_control(MenuControlKind::Action, None));
    assert!(!is_disabled_control(MenuControlKind::Tab, None));
    assert!(!is_disabled_control(MenuControlKind::Action, Some(OotAction::Save)));
    assert!(is_disabled_control(MenuControlKind::Item, Some(OotAction::EquipChoice { slot: 1, choice: 0 })));
}

#[test]
fn bow_and_arrows_share_a_family() {
    assert_eq!(bow_item_index(), 3);
    assert_eq!(default_item_action_index(), 3);
    assert_eq!(arrow_kind(16), Some(ArrowKind::Light));
    assert_eq!(arrow_kind(3), None);
    assert_eq!(c_slot_family(4), CSlotFamily::Bow);
    assert_eq!(c_slot_family(3), CSlotFamily::Bow);
    assert_eq!(c_slot_family(5), CSlotFamily::Item(5));
    assert_eq!(ArrowKind::Ice.label(), "Ice Arrow");
    assert_eq!(ArrowKind::Fire.glow_icon(), "icons/oot/fire_arrow.png");
    assert_eq!(CButton::Down.index(), 1);
    assert_eq!(CButton::Right.label(), "Right");
}

#[test]
fn data_tables() {
    let bottle = oot_item(19);
    assert_eq!(bottle.name, "Bottle");
    assert_eq!(bottle.detail, Some("Milk"));
    assert!(bottle.usable_by_current_link());
    assert!(!oot_item(23).usable_by_current_link());
    assert_eq!(equip_choice(2, 2).name, "Zora Tunic");
    assert_eq!(song(6).pattern, "← ↑ → ← ↑ →");
    let mut d = OotDemo::default();
    d.restore_normal_selection_after_save();
    assert_eq!(d.selected, OotAction::Item(3));
    assert_eq!(OotDemo::pages(), [OotPage::Items, OotPage::MapPage, OotPage::Quest, OotPage::Equipment]);
    assert_eq!(OotDemo::default_action_for_page(OotPage::Quest), OotAction::QuestIcon(0));
}

#[test]
fn player_picture_follows_the_tunic() {
    let mut d = OotDemo::default();
    assert_eq!(ambition_inventory_ui::oot::equipped_player_icon(&d), "icons/oot/player_kokiri_tunic.png");
    d.goto_page(OotPage::Equipment);
    d.click(OotAction::EquipChoice { slot: 2, choice: 2 });
    assert_eq!(ambition_inventory_ui::oot::equipped_player_icon(&d), "icons/oot/player_zora_tunic.png");
}

#[test]
fn stepping_out_through_an_edge_prompt() {
    let mut d = OotDemo::default();
    assert!(!d.edge_step(-1, 0));
    assert_eq!(d.revision, 0);
    d.hover(OotAction::EdgeLeft);
    assert!(!d.edge_step(1, 0));
    assert!(!d.edge_step(-1, 1));
    assert!(d.edge_step(-1, 0));
    assert_eq!(d.page, OotPage::MapPage);
    assert_eq!(d.selected, OotAction::EdgeRight);
    assert!(d.edge_step(1, 0));
    assert_eq!(d.page, OotPage::Items);
    assert_eq!(d.selected, OotAction::EdgeLeft);
}

#[test]
fn action_validity() {
    assert!(OotAction::Item(23).is_valid());
    assert!(!OotAction::Item(24).is_valid());
    assert!(!OotAction::EquipChoice { slot: 4, choice: 0 }.is_valid());
    assert!(!OotAction::EquipChoice { slot: 0, choice: 3 }.is_valid());
    assert!(OotAction::QuestIcon(8).is_valid());
    assert!(!OotAction::Song(12).is_valid());
    assert!(!OotAction::MapMarker(8).is_valid());
    assert!(OotAction::Save.is_valid());
}

#[test]
fn hud_indicators_never_take_the_cursor() {
    let mut d = OotDemo::default();
    d.hover(OotAction::AssignC(CButton::Left));
    assert_eq!(d.selected, OotAction::Item(3));
    assert_eq!(d.status, "Assign selected item to C-Left.");
    d.hover(OotAction::Save);
    assert_eq!(d.selected, OotAction::Item(3));
}

#[test]
fn child_only_items_never_reach_a_c_button() {
    let mut d = OotDemo::default();
    for idx in 0..24 {
        let before = c_buttons(&d);
        let usable = oot_item(idx).usable_by_current_link();
        d.start_c_button_equip(idx, CButton::Down);
        if !usable {
            assert_eq!(c_buttons(&d), before);
        } else {
            assert_eq!(d.c_down, idx);
        }
        let fams = c_buttons(&d).map(c_slot_family);
        assert!(fams[0] != fams[1] && fams[0] != fams[2] && fams[1] != fams[2]);
    }
}
