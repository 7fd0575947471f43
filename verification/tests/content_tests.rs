use ambition_inventory_ui::inventory::InventoryDemo;
use ambition_inventory_ui::inventory_data::{ClickAction, FocusArea, Page};
use ambition_inventory_ui::menu::MenuControlKind;
use ambition_inventory_ui::mock_content::{
    detail_arrow_controls, mock_edge_controls, mock_items_controls, system_page_controls,
};
use ambition_inventory_ui::mock_data::{mock_item, ItemKind, MockAction};
use ambition_inventory_ui::mock_inventory::MockDemo;
use ambition_inventory_ui::oot::{OotAction, OotDemo};
use ambition_inventory_ui::oot_content::{
    edge_controls, equipment_page_controls, hud_button_controls, items_page_controls,
    map_page_controls as oot_map_controls, page_actions_enabled, quest_page_controls,
    save_prompt_controls, shows_save_prompt,
};
use ambition_inventory_ui::oot_data::CButton;
use ambition_inventory_ui::page_content::{
    gear_page_controls, gear_summary_action, map_page_controls, pack_page_controls,
    status_pane_rows, status_scrollbar_controls, tab_controls,
};

#[test]
fn back_faces_carry_no_actions() {
    let d = InventoryDemo::default();
    for c in tab_controls(&d, false)
        .into_iter()
        .chain(gear_page_controls(&d, false))
        .chain(pack_page_controls(&d, false))
        .chain(map_page_controls(&d, false))
        .chain(status_pane_rows(&d, false).into_iter().map(|(_, c)| c))
        .chain(status_scrollbar_controls(&d, false))
    {
        assert_eq!(c.action, None);
    }
    assert_eq!(gear_summary_action(false), None);
    assert_eq!(gear_summary_action(true), Some(ClickAction::FocusArea(FocusArea::Actions)));
}

#[test]
fn gear_page_lists_slots_then_items() {
    let d = InventoryDemo::default();
    let cs = gear_page_controls(&d, true);
    assert_eq!(cs.len(), 6);
    assert_eq!(cs[0].kind, MenuControlKind::Slot);
    assert_eq!(cs[0].label, "Weapon");
    assert_eq!(cs[0].detail.as_deref(), Some("Travel Sword"));
    assert!(cs[1].selected && cs[1].important && !cs[0].selected);
    assert_eq!(cs[1].detail.as_deref(), Some("Empty"));
    assert_eq!(cs[2].action, Some(ClickAction::SelectSlot(2)));
    assert_eq!(cs[3].kind, MenuControlKind::Item);
    assert_eq!(cs[3].label, "Iron Boots");
    assert_eq!(cs[5].action, Some(ClickAction::SelectItem(2)));
}

#[test]
fn gear_popup_adds_three_actions() {
    let mut d = InventoryDemo::default();
    d.click(ClickAction::SelectItem(0));
    let cs = gear_page_controls(&d, true);
    assert_eq!(cs.len(), 9);
    assert_eq!(cs[6].kind, MenuControlKind::PopupAction);
    assert_eq!(cs[6].label, "Equip");
    assert!(cs[6].selected && cs[6].important);
    assert_eq!(cs[7].label, "Compare");
    assert_eq!(cs[8].label, "Inspect");
    assert!(!cs[8].important);
    assert_eq!(cs[8].action, Some(ClickAction::Action(2)));
    assert_eq!(cs[6].icon.as_deref(), Some("icons/action_equip.png"));
}

#[test]
fn tabs_mark_active_page() {
    let d = InventoryDemo::default();
    let cs = tab_controls(&d, true);
    assert_eq!(cs.len(), 4);
    assert_eq!(cs[0].label, "Status");
    assert_eq!(cs[3].label, "Gear");
    assert!(cs[3].important && !cs[0].important);
    assert_eq!(cs[3].action, Some(ClickAction::Goto(Page::Gear)));
}

#[test]
fn pack_and_map_controls() {
    let d = InventoryDemo::default();
    let pack = pack_page_controls(&d, true);
    assert_eq!(pack.len(), 6);
    assert_eq!(pack[0].detail.as_deref(), Some("Restores health x3"));
    assert!(pack[0].important && !pack[1].important && pack[2].important);
    assert_eq!(pack[5].action, Some(ClickAction::PackItem(5)));
    let map = map_page_controls(&d, true);
    assert_eq!(map.len(), 3);
    assert_eq!(map[0].label, "Gate");
    assert_eq!(map[2].action, Some(ClickAction::MapMarker(2)));
}

#[test]
fn status_pane_offers_only_visible_rows() {
    let mut d = InventoryDemo::default();
    d.goto_page(Page::Status);
    d.scroll_status(4);
    let rows = status_pane_rows(&d, true);
    assert_eq!(rows.len(), 5);
    for (k, (row, control)) in rows.iter().enumerate() {
        assert_eq!(*row, 4 + k);
        assert_eq!(control.action, Some(ClickAction::StatusRow(4 + k)));
    }
    assert_eq!(rows[0].1.label, "Detail level");
    let bar = status_scrollbar_controls(&d, true);
    assert_eq!(bar.len(), 12);
    assert!(bar[4].selected && !bar[3].selected);
    assert_eq!(bar[11].action, Some(ClickAction::StatusScrollTo(11)));
}

#[test]
fn oot_page_controls_follow_prompt() {
    let mut d = OotDemo::default();
    assert!(page_actions_enabled(&d, true));
    assert!(!page_actions_enabled(&d, false));
    assert!(!shows_save_prompt(&d, true));
    let items = items_page_controls(&d, true);
    assert_eq!(items.len(), 24);
    assert!(items[3].selected && items[3].important);
    assert_eq!(items[0].detail.as_deref(), Some("child"));
    assert_eq!(items[3].detail.as_deref(), Some("x50"));
    assert_eq!(items[23].action, Some(OotAction::Item(23)));
    d.open_save_prompt();
    assert!(!page_actions_enabled(&d, true));
    assert!(shows_save_prompt(&d, true));
    let prompt = save_prompt_controls(&d);
    assert_eq!(prompt.len(), 2);
    assert_eq!(prompt[0].label, "YES");
    assert_eq!(prompt[1].action, Some(OotAction::SaveNo));
}

#[test]
fn oot_quest_and_equipment_controls() {
    let d = OotDemo::default();
    let quest = quest_page_controls(&d, true);
    assert_eq!(quest.len(), 21);
    assert_eq!(quest[0].action, Some(OotAction::Song(0)));
    assert_eq!(quest[11].action, Some(OotAction::Song(11)));
    assert_eq!(quest[12].action, Some(OotAction::QuestIcon(0)));
    assert_eq!(quest[20].action, Some(OotAction::QuestIcon(8)));
    assert!(quest_page_controls(&d, false).iter().all(|c| c.action.is_none()));
    let equipment = equipment_page_controls(&d, true);
    assert_eq!(equipment.len(), 12);
    assert_eq!(equipment[1].detail.as_deref(), Some("E"));
    assert!(equipment[1].important);
    assert_eq!(equipment[0].detail.as_deref(), Some("child"));
    assert_eq!(equipment[2].detail, None);
    assert_eq!(equipment[11].action, Some(OotAction::EquipChoice { slot: 3, choice: 2 }));
    let markers = oot_map_controls(&d, true);
    assert_eq!(markers.len(), 8);
    assert_eq!(markers[0].label, "K");
    assert_eq!(markers[0].detail.as_deref(), Some("Kokiri Forest"));
    let edges = edge_controls(&d, false);
    assert!(edges.iter().all(|c| c.action.is_none()));
}

#[test]
fn oot_hud_buttons() {
    let mut d = OotDemo::default();
    let hud = hud_button_controls(&d);
    assert_eq!(hud.len(), 5);
    assert_eq!(hud[0].action, Some(OotAction::Save));
    assert_eq!(hud[1].action, None);
    assert_eq!(hud[2].action, Some(OotAction::AssignC(CButton::Left)));
    assert_eq!(hud[2].icon.as_deref(), Some("icons/oot/longshot.png"));
    d.open_save_prompt();
    let hud = hud_button_controls(&d);
    assert_eq!(hud[0].action, Some(OotAction::SaveNo));
    assert_eq!(hud[1].action, Some(d.selected));
    assert_eq!(hud[4].action, None);
}

#[test]
fn mock_only_owned_items_pickable() {
    let d = MockDemo::starter();
    let items = mock_items_controls(&d, true);
    assert_eq!(items.len(), 24);
    for (i, c) in items.iter().enumerate() {
        let pickable = d.has(i) && mock_item(i).kind != ItemKind::Reserved;
        assert_eq!(c.action.is_some(), pickable);
    }
    assert!(mock_items_controls(&d, false).iter().all(|c| c.action.is_none()));
    let edges = mock_edge_controls(&d, true);
    assert_eq!(edges[0].action, Some(MockAction::EdgeLeft));
    assert!(edges[0].label.starts_with("<\n"));
    let system = system_page_controls(&d, true);
    assert_eq!(system[3].label, "Return to title");
    assert_eq!(system[3].action, Some(MockAction::Placeholder(3)));
    let arrows = detail_arrow_controls(&d, true);
    assert!(arrows.len() == 0 || arrows.len() == 2);
}
