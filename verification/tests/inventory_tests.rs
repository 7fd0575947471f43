use ambition_inventory_ui::inventory::{
    checked_label, pack_detail, pack_status, pack_use_message, status_label, status_row_message,
    status_rows, InventoryDemo,
};
use ambition_inventory_ui::inventory_data::{
    clamp_index_delta, gear_items_for_slot, move_pack_index, wrap_index,
    ClickAction, DetailLevel, FocusArea, MenuToggleBinding, OpenCloseStyle, Page,
};
use ambition_inventory_ui::menu::MenuOpenCloseStyle;

#[test]
fn starts_on_gear_page_with_feet_slot() {
    let d = InventoryDemo::new();
    assert_eq!(d.page, Page::Gear);
    assert_eq!(d.focus_area, FocusArea::Slots);
    assert_eq!(d.selected_slot, 1);
    assert_eq!(d.selected_tab, 3);
    assert_eq!(d.pack_counts, [3, 5, 1, 8, 2, 1]);
    assert_eq!(d.open_style, OpenCloseStyle::OotPageFold);
    assert_eq!(d.status, "Select a gear item to open its action menu.");
    assert_eq!(d.revision, 0);
    assert_eq!(d.slot_value(0), "Travel Sword");
    assert_eq!(d.slot_value(1), "Empty");
    assert_eq!(d.slot_value(2), "Empty");
}

#[test]
fn equip_iron_boots_and_toggle_them_active() {
    let mut d = InventoryDemo::new();
    d.activate_focused();
    assert_eq!(d.focus_area, FocusArea::Items);
    assert_eq!(d.status, "Choose gear for Feet slot.");
    assert_eq!(d.items(), ["Iron Boots", "Feather Boots", "Climbing Spikes"]);
    d.activate_focused();
    assert_eq!(d.focus_area, FocusArea::Actions);
    assert!(d.gear_action_popup_open);
    assert_eq!(d.status, "Iron Boots selected; choose an action.");
    assert_eq!(d.actions(), ["Equip", "Compare", "Inspect"]);
    d.activate_focused();
    assert_eq!(d.equipped_feet, Some(0));
    assert_eq!(d.status, "Iron Boots equipped to Feet.");
    assert_eq!(d.actions(), ["Unequip", "Toggle active", "Inspect"]);
    d.move_focus_vertical(1);
    assert_eq!(d.selected_action, 1);
    d.activate_focused();
    assert!(d.iron_boots_active);
    assert_eq!(d.status, "Iron Boots active: anchored and heavy.");
    assert_eq!(d.slot_value(1), "Iron Boots  [active]");
    d.activate_focused();
    assert!(!d.iron_boots_active);
    assert_eq!(d.status, "Iron Boots inactive: normal movement restored.");
}

#[test]
fn iron_boots_need_the_feet_slot() {
    let mut d = InventoryDemo::new();
    d.try_toggle_iron_boots();
    assert!(!d.iron_boots_active);
    assert_eq!(d.status, "Equip Iron Boots in the Feet slot before toggling them.");
    assert_eq!(d.revision, 1);
}

#[test]
fn unequipping_feet_clears_active_boots() {
    let mut d = InventoryDemo::new();
    d.click(ClickAction::SelectSlot(1));
    assert_eq!(d.status, "Feet slot selected; choose compatible gear.");
    d.click(ClickAction::SelectItem(0));
    d.click(ClickAction::Action(0));
    d.click(ClickAction::Action(1));
    assert!(d.iron_boots_active);
    d.click(ClickAction::Action(0));
    assert_eq!(d.equipped_feet, None);
    assert!(!d.iron_boots_active);
    assert_eq!(d.status, "Iron Boots removed from Feet.");
}

#[test]
fn equipping_a_charm_twice_restores_the_slot() {
    let mut d = InventoryDemo::new();
    d.click(ClickAction::SelectSlot(2));
    d.click(ClickAction::SelectItem(1));
    d.equip_or_unequip_selected_item();
    assert_eq!(d.equipped_charm, Some(1));
    assert_eq!(d.status, "River Charm charm equipped.");
    d.equip_or_unequip_selected_item();
    assert_eq!(d.equipped_charm, None);
    assert_eq!(d.status, "River Charm charm removed.");
}

#[test]
fn weapon_equip_and_compare_and_inspect() {
    let mut d = InventoryDemo::new();
    d.click(ClickAction::SelectSlot(0));
    d.click(ClickAction::SelectItem(2));
    assert_eq!(d.actions(), ["Equip", "Compare", "Inspect"]);
    d.activate_action(1);
    assert_eq!(d.status, "Compare Ember Staff with Travel Sword.");
    d.activate_action(2);
    assert_eq!(d.status, "Ember Staff: Fire channel / slow recovery.");
    d.activate_action(0);
    assert_eq!(d.equipped_weapon, 2);
    assert_eq!(d.status, "Ember Staff equipped as Weapon.");
    assert_eq!(d.actions(), ["Equipped", "Compare", "Inspect"]);
    assert!(d.is_selected_item_equipped());
}

#[test]
fn pack_use_takes_one_until_empty() {
    let mut d = InventoryDemo::new();
    d.consume_pack_item(0);
    assert_eq!(d.pack_counts[0], 2);
    assert_eq!(d.status, "Used Healing Tincture. 2 left.");
    d.consume_pack_item(0);
    d.consume_pack_item(0);
    assert_eq!(d.pack_counts[0], 0);
    assert_eq!(d.status, "Used Healing Tincture. 0 left.");
    d.consume_pack_item(0);
    assert_eq!(d.pack_counts[0], 0);
    assert_eq!(d.status, "Healing Tincture is empty.");
    assert_eq!(d.pack_counts[1..], [5, 1, 8, 2, 1]);
}

#[test]
fn pack_entries_that_are_not_consumed() {
    let mut d = InventoryDemo::new();
    d.consume_pack_item(2);
    assert_eq!(d.status, "Old Key: quest item, safe from selling.");
    d.consume_pack_item(4);
    assert_eq!(d.status, "River Pearl: trade good x2.");
    d.consume_pack_item(5);
    assert_eq!(d.status, "Sketch Map: field note linked to the Map page.");
    assert_eq!(d.pack_counts, [3, 5, 1, 8, 2, 1]);
    d.consume_pack_item(1);
    assert_eq!(d.status, "Planted a Glow Seed. 4 left.");
    d.consume_pack_item(3);
    assert_eq!(d.status, "Ate a Travel Ration. 7 left.");
}

#[test]
fn pack_texts() {
    let d = InventoryDemo::new();
    assert_eq!(pack_detail(0, &d), "Restores health x3");
    assert_eq!(pack_detail(4, &d), "Trade good x2");
    assert_eq!(pack_detail(5, &d), "Field note");
    assert_eq!(pack_status(1, &d), "Glow Seed: 5 remaining.");
    assert_eq!(pack_use_message(3, 12), "Ate a Travel Ration. 12 left.");
    assert_eq!(pack_use_message(5, 1), "Item inspected.");
}

#[test]
fn page_turns_come_back() {
    let mut d = InventoryDemo::new();
    d.next_page();
    assert_eq!(d.page, Page::Pack);
    assert_eq!(d.status, "Pack page selected.");
    assert_eq!(d.selected_tab, 2);
    d.previous_page();
    assert_eq!(d.page, Page::Gear);
    d.previous_page();
    assert_eq!(d.page, Page::Status);
    assert_eq!(d.selected_tab, 0);
    d.next_page();
    assert_eq!(d.page, Page::Gear);
}

#[test]
fn page_index_wraps() {
    assert_eq!(Page::from_index(-1), Page::Status);
    assert_eq!(Page::from_index(4), Page::Gear);
    assert_eq!(Page::from_index(6), Page::MapPage);
    assert_eq!(Page::MapPage.index(), 2);
    assert_eq!(Page::Status.label(), "Status");
    assert_eq!(InventoryDemo::tab_index_for_page(Page::Status), 0);
    assert_eq!(InventoryDemo::tab_index_for_page(Page::MapPage), 1);
    assert_eq!(InventoryDemo::tab_index_for_page(Page::Pack), 2);
    assert_eq!(InventoryDemo::tab_index_for_page(Page::Gear), 3);
}

#[test]
fn goto_current_page_only_resyncs_the_tab() {
    let mut d = InventoryDemo::new();
    d.selected_tab = 1;
    d.goto_page(Page::Gear);
    assert_eq!(d.selected_tab, 3);
    assert_eq!(d.revision, 0);
    assert_eq!(d.selected_tab_page(), Page::Gear);
}

#[test]
fn index_helpers() {
    assert_eq!(wrap_index(0, 3, -1), 2);
    assert_eq!(wrap_index(2, 3, 1), 0);
    assert_eq!(wrap_index(5, 0, 1), 0);
    assert_eq!(wrap_index(1, 4, -9), 0);
    assert_eq!(clamp_index_delta(0, 16, -1), 0);
    assert_eq!(clamp_index_delta(15, 16, 5), 15);
    assert_eq!(clamp_index_delta(3, 16, 4), 7);
    assert_eq!(clamp_index_delta(3, 0, 4), 0);
    assert_eq!(move_pack_index(0, 1, 0), 1);
    assert_eq!(move_pack_index(1, 1, 0), 0);
    assert_eq!(move_pack_index(0, 0, -1), 4);
    assert_eq!(move_pack_index(5, 0, 1), 1);
    assert_eq!(move_pack_index(3, -1, 1), 4);
}

#[test]
fn status_navigation_keeps_the_row_visible() {
    let mut d = InventoryDemo::new();
    d.goto_page(Page::Status);
    d.focus_area = FocusArea::Items;
    for _ in 0..15 {
        d.move_focus_vertical(1);
    }
    assert_eq!(d.selected_status, 15);
    assert_eq!(d.status_scroll, 11);
    d.move_focus_vertical(1);
    assert_eq!(d.selected_status, 15);
    for _ in 0..10 {
        d.move_focus_vertical(-1);
    }
    assert_eq!(d.selected_status, 5);
    assert_eq!(d.status_scroll, 5);
    d.scroll_status(-3);
    assert_eq!(d.status_scroll, 2);
    assert_eq!(d.selected_status, 5);
    d.scroll_status(-5);
    assert_eq!(d.status_scroll, 0);
    assert_eq!(d.selected_status, 4);
}

#[test]
fn status_row_zero_going_up_reaches_the_tabs() {
    let mut d = InventoryDemo::new();
    d.goto_page(Page::Status);
    d.focus_area = FocusArea::Items;
    d.move_focus_vertical(-1);
    assert_eq!(d.focus_area, FocusArea::Tabs);
    d.move_focus_vertical(1);
    assert_eq!(d.focus_area, FocusArea::Items);
}

#[test]
fn options_cycle_back() {
    let mut d = InventoryDemo::new();
    d.toggle_input_hints();
    assert!(!d.input_hints_enabled);
    assert_eq!(d.status, "Input hints hidden.");
    d.toggle_input_hints();
    assert!(d.input_hints_enabled);
    assert_eq!(d.status, "Input hints enabled.");
    d.toggle_compact_layout();
    assert_eq!(d.status, "Compact layout selected.");
    d.toggle_compact_layout();
    assert_eq!(d.status, "Cozy layout selected.");
    d.cycle_detail_level();
    assert_eq!(d.detail_level, DetailLevel::Verbose);
    assert_eq!(d.status, "Detail level: Verbose.");
    d.cycle_detail_level();
    d.cycle_detail_level();
    assert_eq!(d.detail_level, DetailLevel::Normal);
    d.toggle_touch_mode();
    assert_eq!(d.status, "Touch mode: activate immediately.");
    d.cycle_menu_toggle_binding();
    assert_eq!(d.menu_toggle_binding, MenuToggleBinding::POrStart);
    assert_eq!(d.status, "Menu toggle input: P / Start.");
    d.cycle_open_style();
    assert_eq!(d.open_style, OpenCloseStyle::SmoothScale);
    assert_eq!(d.status, "Open/close style: Smooth scale.");
    assert_eq!(d.revision, 10);
}

#[test]
fn status_rows_and_messages() {
    let mut d = InventoryDemo::new();
    let rows = status_rows(&d);
    assert_eq!(rows.len(), 16);
    assert_eq!(rows[0].0, "Mobility");
    assert_eq!(rows[0].1, "Normal");
    assert_eq!(rows[2].1, "[x] Enabled");
    assert_eq!(rows[7].1, "OoT page fold");
    assert_eq!(status_label(15), "Component");
    assert_eq!(status_row_message(1, &d), "Feet slot: Empty");
    assert_eq!(status_row_message(99, &d), "Component: Lunex data-driven shell");
    d.activate_status_row(0);
    assert_eq!(d.status, "Mobility: Normal");
    d.activate_status_row(2);
    assert_eq!(d.status, "Input hints hidden.");
    assert_eq!(checked_label(false), "[ ] Disabled");
}

#[test]
fn back_walks_out_of_the_gear_columns() {
    let mut d = InventoryDemo::new();
    d.click(ClickAction::SelectItem(0));
    assert_eq!(d.focus_area, FocusArea::Actions);
    d.back();
    assert_eq!(d.focus_area, FocusArea::Items);
    assert!(!d.gear_action_popup_open);
    assert_eq!(d.status, "Back.");
    d.back();
    assert_eq!(d.focus_area, FocusArea::Slots);
    d.back();
    assert_eq!(d.focus_area, FocusArea::Tabs);
    d.back();
    assert_eq!(d.focus_area, FocusArea::Tabs);
}

#[test]
fn horizontal_moves_on_the_gear_page() {
    let mut d = InventoryDemo::new();
    d.move_focus_horizontal(1);
    assert_eq!(d.focus_area, FocusArea::Items);
    assert_eq!(d.selected_item, 1);
    d.move_focus_horizontal(1);
    assert_eq!(d.focus_area, FocusArea::Actions);
    assert!(d.gear_action_popup_open);
    d.move_focus_horizontal(-1);
    assert_eq!(d.focus_area, FocusArea::Items);
    assert!(!d.gear_action_popup_open);
    d.move_focus_horizontal(-1);
    assert_eq!(d.focus_area, FocusArea::Slots);
    d.focus_area = FocusArea::Tabs;
    d.move_focus_horizontal(-1);
    assert_eq!(d.selected_tab, 2);
}

#[test]
fn hover_only_moves_the_cursor() {
    let mut d = InventoryDemo::new();
    d.hover(ClickAction::PackItem(3));
    assert_eq!(d.page, Page::Pack);
    assert_eq!(d.selected_pack, 3);
    assert_eq!(d.pack_counts, [3, 5, 1, 8, 2, 1]);
    assert_eq!(d.status, "Select a gear item to open its action menu.");
    assert_eq!(d.revision, 1);
    d.hover(ClickAction::PackItem(3));
    assert_eq!(d.revision, 1);
    d.hover(ClickAction::StatusScrollTo(40));
    assert_eq!(d.status_scroll, 11);
    assert_eq!(d.selected_status, 11);
}

#[test]
fn clicks_change_the_menu() {
    let mut d = InventoryDemo::new();
    d.click(ClickAction::MapMarker(1));
    assert_eq!(d.page, Page::MapPage);
    assert_eq!(d.status, "Falls marker selected: strong current suggests heavy footing.");
    d.click(ClickAction::StatusScrollTo(3));
    assert_eq!(d.status, "Status scroll: row 4.");
    assert_eq!(d.status_scroll, 3);
    d.click(ClickAction::Goto(Page::Pack));
    assert_eq!(d.page, Page::Pack);
    assert_eq!(d.focus_area, FocusArea::Tabs);
    d.click(ClickAction::PackItem(0));
    assert_eq!(d.pack_counts[0], 2);
    d.click(ClickAction::StatusRow(4));
    assert_eq!(d.detail_level, DetailLevel::Verbose);
    d.click(ClickAction::FocusArea(FocusArea::Actions));
    assert!(d.gear_action_popup_open);
}

#[test]
fn open_close_style_converts_both_ways() {
    assert_eq!(OpenCloseStyle::from_menu_style(MenuOpenCloseStyle::SmoothScale), OpenCloseStyle::SmoothScale);
    assert_eq!(OpenCloseStyle::OotPageFold.to_menu_style(), MenuOpenCloseStyle::OotPageFold);
    assert_eq!(OpenCloseStyle::SmoothScale.label(), "Smooth scale");
    assert_eq!(MenuToggleBinding::EscapeOrStart.label(), "Escape / Start");
    assert_eq!(FocusArea::Tabs.label(), "Menu");
    assert_eq!(FocusArea::Actions.next(), FocusArea::Tabs);
    assert_eq!(FocusArea::Tabs.previous(), FocusArea::Actions);
    assert_eq!(gear_items_for_slot(1)[2].0, "Climbing Spikes");
}

#[test]
fn wheel_scrolls_status_or_turns_pages() {
    let mut d = InventoryDemo::default();
    d.scroll_wheel(false);
    assert_eq!(d.page, Page::Pack);
    d.scroll_wheel(true);
    assert_eq!(d.page, Page::Gear);
    d.scroll_wheel(true);
    assert_eq!(d.page, Page::Status);
    d.scroll_wheel(false);
    assert_eq!(d.page, Page::Status);
    assert_eq!(d.status_scroll, 1);
    assert_eq!(d.selected_status, 1);
    d.scroll_wheel(true);
    assert_eq!(d.status_scroll, 0);
}

#[test]
fn dragging_the_status_pane() {
    let mut d = InventoryDemo::new();
    d.goto_page(Page::Status);
    d.drag_scroll_status(false, false);
    assert_eq!(d.status_scroll, 1);
    d.drag_scroll_status(true, true);
    assert_eq!(d.status_scroll, 2);
    d.drag_scroll_status(true, false);
    assert_eq!(d.status_scroll, 1);
    d.drag_scroll_status(false, true);
    assert_eq!(d.status_scroll, 0);
}

#[test]
fn select_then_tap_needs_two_taps() {
    let mut d = InventoryDemo::new();
    assert!(d.touch_select_then_tap);
    let remember = d.tap(ClickAction::PackItem(0), None);
    assert_eq!(remember, Some(ClickAction::PackItem(0)));
    assert_eq!(d.selected_pack, 0);
    assert_eq!(d.page, Page::Pack);
    assert_eq!(d.pack_counts[0], 3);
    let remember = d.tap(ClickAction::PackItem(0), remember);
    assert_eq!(remember, None);
    assert_eq!(d.pack_counts[0], 2);
    d.toggle_touch_mode();
    let remember = d.tap(ClickAction::PackItem(1), None);
    assert_eq!(remember, None);
    assert_eq!(d.pack_counts[1], 4);
}

#[test]
fn cancelled_drag_reports() {
    let mut d = InventoryDemo::new();
    d.cancel_drag();
    assert_eq!(d.status, "Canceled drag.");
    assert_eq!(d.revision, 1);
}

#[test]
fn click_action_validity() {
    assert!(ClickAction::StatusRow(15).is_valid());
    assert!(!ClickAction::StatusRow(16).is_valid());
    assert!(!ClickAction::SelectSlot(3).is_valid());
    assert!(!ClickAction::PackItem(6).is_valid());
    assert!(!ClickAction::MapMarker(3).is_valid());
    assert!(ClickAction::StatusScrollTo(99).is_valid());
    assert!(ClickAction::Goto(Page::Pack).is_valid());
}

#[test]
fn tab_row_takes_any_delta() {
    let mut d = InventoryDemo::default();
    d.back();
    d.back();
    assert_eq!(d.focus_area, FocusArea::Tabs);
    let revision = d.revision;
    d.move_focus_vertical(i32::MIN);
    assert_eq!(d.focus_area, FocusArea::Tabs);
    d.move_focus_vertical(i32::MAX);
    assert_eq!(d.focus_area, FocusArea::Slots);
    assert_eq!(d.revision, revision + 2);
}

#[test]
fn large_deltas_wrap_and_clamp() {
    let mut d = InventoryDemo::default();
    d.move_focus_vertical(i32::MAX - 5);
    assert_eq!(d.selected_slot, 0);
    d.goto_page(Page::Status);
    d.move_focus_horizontal(i32::MAX - 20);
    assert_eq!(d.selected_status, 15);
    d.scroll_status(i32::MIN);
    assert_eq!(d.status_scroll, 0);
    assert_eq!(d.selected_status, 4);
}
