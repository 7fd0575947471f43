use ambition_inventory_ui::mock_data::{
    mock_item, EquipSlot, ItemKind, MockAction, MockPage, PageTurn, ITEM_COUNT,
};
use ambition_inventory_ui::mock_inventory::{
    detail_lines, item_slot_detail, item_slot_label, selected_detail_lines, visible_face_pages,
    MockDemo,
};

#[test]
fn mock_smoke_equips_and_uses_items() {
    let mut demo = MockDemo::starter();
    demo.click(MockAction::Item(1));
    assert_eq!(demo.held_item, Some(1));
    demo.click(MockAction::Item(2));
    assert_eq!(demo.held_item, Some(2));
    demo.click(MockAction::Item(2));
    assert_eq!(demo.held_item, None);
    demo.click(MockAction::Item(7));
    assert_eq!(demo.body_item, Some(7));
    demo.click(MockAction::Item(9));
    assert_eq!(demo.body_item, Some(9));
    let before = demo.count(12);
    demo.click(MockAction::Item(12));
    assert_eq!(demo.count(12), before - 1);
}

#[test]
fn starter_holds_the_table_start_counts() {
    let demo = MockDemo::starter();
    assert_eq!(demo.page, MockPage::Items);
    assert_eq!(demo.selected, MockAction::Item(1));
    assert_eq!(demo.status, "Dummy game is paused. This is the Ambition mock inventory shell.");
    assert_eq!(demo.revision, 0);
    for idx in 0..ITEM_COUNT {
        assert_eq!(demo.count(idx), mock_item(idx).start_count);
    }
    assert_eq!(demo.count(12), 3);
    assert_eq!(demo.count(4), 0);
    assert_eq!(demo.count(99), 0);
    assert!(demo.has(0));
    assert!(!demo.has(23));
}

#[test]
fn equip_messages_name_the_replaced_item() {
    let mut demo = MockDemo::starter();
    demo.click(MockAction::Item(1));
    assert_eq!(demo.status, "Equipped Axe to the held item slot.");
    demo.click(MockAction::Item(2));
    assert_eq!(demo.status, "Equipped Javelin to the held item slot, replacing Axe.");
    assert!(demo.is_equipped(2));
    assert!(!demo.is_equipped(1));
    demo.click(MockAction::Item(2));
    assert_eq!(demo.status, "Unequipped Javelin from the held item slot.");
    assert_eq!(demo.equipped_in(EquipSlot::HeldItem), None);
    assert_eq!(demo.revision, 3);
}

#[test]
fn equipping_twice_restores_the_slot() {
    let mut demo = MockDemo::starter();
    demo.activate_item(11);
    assert_eq!(demo.body_item, Some(11));
    demo.activate_item(11);
    assert_eq!(demo.body_item, None);
    assert_eq!(demo.held_item, None);
}

#[test]
fn consumables_count_down_to_zero() {
    let mut demo = MockDemo::starter();
    demo.activate_item(15);
    assert_eq!(demo.count(15), 0);
    assert_eq!(demo.status, "Used Data Chip. Remaining: 0.");
    demo.activate_item(15);
    assert_eq!(demo.count(15), 0);
    assert_eq!(demo.status, "Data Chip is not owned, so activation is ignored.");
    assert_eq!(demo.count(12), 3);
}

#[test]
fn other_items_only_report() {
    let mut demo = MockDemo::starter();
    demo.activate_item(18);
    assert_eq!(demo.status, "Map Fragment is a key item; it has no direct inventory action.");
    demo.activate_item(4);
    assert_eq!(demo.status, "Puppy-Slug Gun is not owned, so activation is ignored.");
    let rev = demo.revision;
    demo.activate_item(99);
    assert_eq!(demo.revision, rev);
    demo.click(MockAction::Placeholder(2));
    assert_eq!(
        demo.status,
        "Items placeholder option 2 activated. Real Ambition data stays host-owned."
    );
}

#[test]
fn unique_items_stay_single() {
    let mut demo = MockDemo::starter();
    demo.grant(1, 5);
    assert_eq!(demo.count(1), 1);
    demo.grant(12, 4);
    assert_eq!(demo.count(12), 7);
    demo.grant(12, u32::MAX);
    assert_eq!(demo.count(12), u32::MAX);
    demo.grant(4, 2);
    assert_eq!(demo.count(4), 1);
    demo.grant(99, 1);
    assert_eq!(demo.count(99), 0);
    assert!(ItemKind::KeyItem.is_unique());
    assert!(!ItemKind::Consumable.is_unique());
}

#[test]
fn page_turns_go_round_the_cube() {
    let mut demo = MockDemo::starter();
    demo.turn_page(PageTurn::ViewerLeft);
    assert_eq!(demo.page, MockPage::MapPage);
    assert_eq!(demo.selected, MockAction::Placeholder(0));
    assert_eq!(demo.status, "Map face: placeholder map.");
    demo.turn_page(PageTurn::ViewerRight);
    assert_eq!(demo.page, MockPage::Items);
    assert_eq!(demo.selected, MockAction::Item(1));
    demo.turn_page(PageTurn::ViewerRight);
    assert_eq!(demo.page, MockPage::System);
    assert_eq!(demo.status, "System face: settings / pause options.");
    assert_eq!(MockDemo::page_on_viewer_left(MockPage::System), MockPage::Items);
    assert_eq!(MockDemo::page_on_viewer_right(MockPage::Items), MockPage::System);
    assert_eq!(
        visible_face_pages(MockPage::Items),
        [MockPage::MapPage, MockPage::Items, MockPage::System]
    );
    assert_eq!(MockPage::from_index(-1), MockPage::System);
    assert_eq!(MockPage::Quest.label(), "Quest");
    assert_eq!(MockPage::Quest.subtitle(), "placeholder quest log");
}

#[test]
fn goto_the_current_page_changes_nothing() {
    let mut demo = MockDemo::starter();
    demo.goto_page(MockPage::Items);
    assert_eq!(demo.revision, 0);
    assert_eq!(demo.selected, MockAction::Item(1));
}

#[test]
fn moving_off_the_grid_reaches_the_edge_buttons() {
    let mut demo = MockDemo::starter();
    demo.move_spatial(-1, 0);
    assert_eq!(demo.selected, MockAction::Item(0));
    assert_eq!(demo.status, "Portal Gun selected.");
    demo.move_spatial(-1, 0);
    assert_eq!(demo.selected, MockAction::EdgeLeft);
    assert_eq!(demo.status, "Left page button: rotate to the next face on the left.");
    demo.move_spatial(-1, 0);
    assert_eq!(demo.page, MockPage::MapPage);
    assert_eq!(demo.selected, MockAction::EdgeRight);
    assert_eq!(demo.status, "Map face: placeholder map.");
    demo.move_spatial(1, 0);
    assert_eq!(demo.page, MockPage::Items);
    assert_eq!(demo.selected, MockAction::EdgeLeft);
    demo.move_spatial(1, 0);
    assert_eq!(demo.selected, MockAction::Item(1));
}

#[test]
fn vertical_moves_clamp_to_the_grid() {
    let mut demo = MockDemo::starter();
    demo.move_spatial(0, 1);
    assert_eq!(demo.selected, MockAction::Item(7));
    assert_eq!(demo.status, "Flight selected.");
    demo.move_spatial(0, 5);
    assert_eq!(demo.selected, MockAction::Item(19));
    let rev = demo.revision;
    demo.move_spatial(0, 1);
    assert_eq!(demo.selected, MockAction::Item(19));
    assert_eq!(demo.revision, rev);
    demo.move_spatial(1, 0);
    demo.move_spatial(1, 0);
    demo.move_spatial(1, 0);
    demo.move_spatial(1, 0);
    assert_eq!(demo.selected, MockAction::Item(23));
    demo.move_spatial(1, 0);
    assert_eq!(demo.selected, MockAction::EdgeRight);
    demo.move_spatial(i32::MIN, i32::MAX);
    assert_eq!(demo.selected, MockAction::EdgeLeft);
    let mut far = MockDemo::starter();
    far.move_spatial(2, i32::MAX);
    assert_eq!(far.selected, MockAction::Item(21));
    assert_eq!(far.status, "Gate Key selected.");
    far.move_spatial(-2, i32::MIN);
    assert_eq!(far.selected, MockAction::Item(1));
}

#[test]
fn hover_describes_the_control() {
    let mut demo = MockDemo::starter();
    demo.hover(MockAction::Item(12));
    assert_eq!(demo.selected, MockAction::Item(12));
    assert_eq!(demo.status, "Use Health Cell. Count: 3.");
    assert_eq!(demo.revision, 1);
    assert_eq!(demo.describe_action(MockAction::EdgeLeft), "Turn left to Map.");
    assert_eq!(demo.describe_action(MockAction::EdgeRight), "Turn right to System.");
    assert_eq!(demo.describe_action(MockAction::Item(4)), "Puppy-Slug Gun is visible but not acquired.");
    assert_eq!(demo.describe_action(MockAction::Item(18)), "Map Fragment is a key item with no direct action.");
    assert_eq!(demo.describe_action(MockAction::Item(1)), "Equip Axe to the held item slot.");
    assert_eq!(demo.describe_action(MockAction::Placeholder(3)), "Items placeholder action.");
    assert_eq!(demo.describe_action(MockAction::DetailScrollUp), "Scroll item description up.");
    demo.click(MockAction::Item(1));
    assert_eq!(demo.describe_action(MockAction::Item(1)), "Axe is equipped. Activate to unequip.");
}

#[test]
fn item_cells_show_glyph_count_and_hint() {
    let mut demo = MockDemo::starter();
    assert_eq!(item_slot_label(&demo, 1), "A\nAxe");
    assert_eq!(item_slot_label(&demo, 12), "H\nHealth\nx3");
    assert_eq!(item_slot_label(&demo, 4), "S\nSlugGun\n--");
    assert_eq!(item_slot_detail(&demo, 1), "equip");
    assert_eq!(item_slot_detail(&demo, 4), "not owned");
    assert_eq!(item_slot_detail(&demo, 12), "use");
    assert_eq!(item_slot_detail(&demo, 18), "key item");
    assert_eq!(item_slot_detail(&demo, 23), "not owned");
    demo.click(MockAction::Item(2));
    assert_eq!(item_slot_label(&demo, 2), "*\nJavelin");
    assert_eq!(item_slot_detail(&demo, 2), "equipped");
    assert_eq!(item_slot_detail(&demo, 1), "replaces Javelin");
}

#[test]
fn detail_pane_scrolls_within_its_lines() {
    let mut demo = MockDemo::starter();
    let lines = detail_lines(&demo, 1);
    assert_eq!(lines.len(), 11);
    assert_eq!(lines[0], "Axe");
    assert_eq!(lines[1], "Held-item weapon:");
    assert_eq!(lines[8], "");
    assert_eq!(lines[9], "Equip Axe to the");
    assert_eq!(lines[10], "held item slot.");
    assert_eq!(
        selected_detail_lines(&demo),
        vec!["Axe", "Held-item weapon:", "a heavy pirate", "axe. Equipping it", "replaces the", "[1/7] PgUp/PgDn"]
    );
    demo.scroll_detail(-1);
    assert_eq!(demo.detail_scroll, 0);
    assert_eq!(demo.status, "Scrolled selected item description.");
    demo.scroll_detail(100);
    assert_eq!(demo.detail_scroll, 6);
    assert_eq!(
        selected_detail_lines(&demo),
        vec!["Activating it", "again unequips it.", "", "Equip Axe to the", "held item slot.", "[7/7] PgUp/PgDn"]
    );
    demo.click(MockAction::DetailScrollUp);
    assert_eq!(demo.detail_scroll, 5);
    demo.click(MockAction::DetailScrollDown);
    assert_eq!(demo.detail_scroll, 6);
}

#[test]
fn activate_selected_clicks_the_cursor() {
    let mut demo = MockDemo::starter();
    demo.activate_selected();
    assert_eq!(demo.held_item, Some(1));
    demo.click(MockAction::EdgeRight);
    assert_eq!(demo.page, MockPage::System);
    assert_eq!(demo.selected, MockAction::EdgeLeft);
    assert_eq!(MockDemo::default_action_for_page(MockPage::Quest), MockAction::Placeholder(0));
    assert_eq!(EquipSlot::Body.label(), "body");
}

#[test]
fn pausing_reports_on_the_status_line() {
    let mut demo = MockDemo::default();
    demo.pause_toggled(false);
    assert_eq!(
        demo.status,
        "Unpaused dummy game. Cube shell is collapsing; press P/Esc to bring it back."
    );
    demo.pause_toggled(true);
    assert_eq!(demo.status, "Paused dummy game. Reconstructing OoT-style cube shell.");
    assert_eq!(demo.revision, 2);
}

#[test]
fn mock_action_validity() {
    assert!(MockAction::Item(23).is_valid());
    assert!(!MockAction::Item(24).is_valid());
    assert!(MockAction::Placeholder(99).is_valid());
}

#[test]
fn detail_scroll_stays_in_range() {
    let mut demo = MockDemo::starter();
    demo.hover(MockAction::Item(0));
    demo.scroll_detail(i32::MAX);
    let total = detail_lines(&demo, 0).len();
    assert_eq!(demo.detail_scroll, total - 5);
    assert!(selected_detail_lines(&demo).len() <= 6);
    demo.scroll_detail(i32::MIN);
    assert_eq!(demo.detail_scroll, 0);
}
