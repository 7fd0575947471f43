//! Properties of the inventory menu that span several operations.

use vstd::prelude::*;
use crate::inventory::{next_revision, max_status_scroll, InventoryView};
use crate::inventory_data::{
    binding_next, detail_next, page_from_index, page_index, style_next, tab_index, tab_page,
    ClickAction, FocusArea, Page, PACK_ITEM_COUNT, STATUS_VISIBLE_ROWS,
};

verus! {

proof fn lemma_revision_moves(r: u64)
    ensures
        next_revision(r) != r,
        next_revision(next_revision(r)) != r,
{
}

/// Turning to the next page and then back to the previous page returns to
/// the page one started on, and the tab cursor follows the page.
pub proof fn law_page_turn_round_trip(v: InventoryView)
    requires
        v.wf(),
    ensures
        v.after_next_page().after_previous_page().page == v.page,
        v.after_previous_page().after_next_page().page == v.page,
        v.after_next_page().selected_tab == tab_index(v.after_next_page().page),
{
    reveal(InventoryView::after_next_page);
    reveal(InventoryView::after_previous_page);
    reveal(InventoryView::after_goto_page);
    let i = page_index(v.page);
    assert(page_index(page_from_index(i + 1)) == (i + 1) % 4);
    assert(page_index(page_from_index(i - 1)) == (i - 1) % 4);
}

/// Going to any page leaves the tab cursor on that page's tab, so that
/// activating the tab strip returns to the same page.
pub proof fn law_goto_page_selects_its_tab(v: InventoryView, page: Page)
    requires
        v.wf(),
    ensures
        v.after_goto_page(page).page == page,
        tab_page(v.after_goto_page(page).selected_tab as int) == page,
        v.after_goto_page(page).selected_tab_page() == page,
{
    reveal(InventoryView::after_goto_page);
}

/// Each boolean Status option flips back after two activations, the two-way
/// choices come back after two cycles and the detail level after three;
/// nothing but the status line and revision differs.
pub proof fn law_options_cycle_back(v: InventoryView)
    requires
        v.wf(),
    ensures
        v.after_toggle_input_hints().after_toggle_input_hints().input_hints_enabled
            == v.input_hints_enabled,
        v.after_toggle_compact_layout().after_toggle_compact_layout().compact_layout
            == v.compact_layout,
        v.after_toggle_touch_mode().after_toggle_touch_mode().touch_select_then_tap
            == v.touch_select_then_tap,
        v.after_cycle_menu_toggle_binding().after_cycle_menu_toggle_binding().menu_toggle_binding
            == v.menu_toggle_binding,
        v.after_cycle_open_style().after_cycle_open_style().open_style == v.open_style,
        v.after_cycle_detail_level().after_cycle_detail_level().after_cycle_detail_level().detail_level
            == v.detail_level,
        v.after_toggle_input_hints().nav_key() == v.nav_key(),
        v.after_toggle_input_hints().equipped_feet == v.equipped_feet,
        v.after_toggle_input_hints().pack_counts == v.pack_counts,
{
    reveal(InventoryView::after_toggle_input_hints);
    reveal(InventoryView::after_toggle_compact_layout);
    reveal(InventoryView::after_toggle_touch_mode);
    reveal(InventoryView::after_cycle_menu_toggle_binding);
    reveal(InventoryView::after_cycle_open_style);
    reveal(InventoryView::after_cycle_detail_level);
    assert(binding_next(binding_next(v.menu_toggle_binding)) == v.menu_toggle_binding);
    assert(style_next(style_next(v.open_style)) == v.open_style);
    assert(detail_next(detail_next(detail_next(v.detail_level))) == v.detail_level);
}

/// Equip on a Feet or Charm entry that is worn (or on an empty slot) is undone
/// by a second Equip on the same entry; the weapon slot is never emptied.
pub proof fn law_equip_twice_restores_slot(v: InventoryView)
    requires
        v.wf(),
    ensures
        v.selected_slot == 1 && (v.equipped_feet == None::<usize> || v.equipped_feet == Some(
            v.selected_item,
        )) ==> v.after_equip_or_unequip_selected_item().after_equip_or_unequip_selected_item().equipped_feet
            == v.equipped_feet,
        v.selected_slot == 2 && (v.equipped_charm == None::<usize> || v.equipped_charm == Some(
            v.selected_item,
        )) ==> v.after_equip_or_unequip_selected_item().after_equip_or_unequip_selected_item().equipped_charm
            == v.equipped_charm,
        v.selected_slot == 0 ==> v.after_equip_or_unequip_selected_item().equipped_weapon
            == v.selected_item,
{
    reveal(InventoryView::after_equip_or_unequip_selected_item);
}

/// Iron Boots can be switched active only while they are worn on Feet:
/// toggling without them worn leaves them inactive.
pub proof fn law_iron_boots_need_feet(v: InventoryView)
    requires
        v.wf(),
    ensures
        v.after_try_toggle_iron_boots().iron_boots_active ==> v.after_try_toggle_iron_boots().equipped_feet
            == Some(0usize),
        v.equipped_feet != Some(0usize) ==> !v.after_try_toggle_iron_boots().iron_boots_active,
        v.equipped_feet == Some(0usize) ==> v.after_try_toggle_iron_boots().iron_boots_active
            == !v.iron_boots_active,
{
    reveal(InventoryView::after_try_toggle_iron_boots);
}

/// Using a Pack entry takes exactly one unit of a consumable that has any
/// left (never going below zero) and leaves every other count unchanged.
pub proof fn law_pack_use_takes_one(v: InventoryView, idx: int)
    requires
        v.wf(),
        0 <= idx < PACK_ITEM_COUNT,
    ensures
        forall|j: int|
            0 <= j < PACK_ITEM_COUNT && j != idx ==> #[trigger] v.after_consume_pack_item(
                idx,
            ).pack_counts[j] == v.pack_counts[j],
        (idx == 0 || idx == 1 || idx == 3) && v.pack_counts[idx] > 0 ==> v.after_consume_pack_item(
            idx,
        ).pack_counts[idx] == v.pack_counts[idx] - 1,
        !((idx == 0 || idx == 1 || idx == 3) && v.pack_counts[idx] > 0)
            ==> v.after_consume_pack_item(idx).pack_counts[idx] == v.pack_counts[idx],
{
    reveal(InventoryView::after_consume_pack_item);
}

/// Moving the Status cursor within the list always scrolls the selected row
/// into the five visible rows.
pub proof fn law_status_navigation_keeps_row_visible(v: InventoryView, delta: int)
    requires
        v.wf(),
        v.page == Page::Status,
        v.focus_area != FocusArea::Tabs,
        !(delta < 0 && v.selected_status == 0),
    ensures
        ({
            let w = v.after_move_focus_vertical(delta);
            w.status_scroll <= w.selected_status < w.status_scroll + STATUS_VISIBLE_ROWS
                && w.status_scroll <= max_status_scroll()
        }),
        ({
            let w = v.after_move_focus_horizontal(delta);
            w.status_scroll <= w.selected_status < w.status_scroll + STATUS_VISIBLE_ROWS
                && w.status_scroll <= max_status_scroll()
        }),
{
    reveal(InventoryView::after_move_focus_vertical);
    reveal(InventoryView::after_move_focus_horizontal);
}

/// Hovering only moves the cursor: equipment, pack counts, options and the
/// status line are untouched, hovering the same control again changes
/// nothing, and the revision moves exactly when the cursor moved.
pub proof fn law_hover_only_moves_cursor(v: InventoryView, a: ClickAction)
    requires
        v.wf(),
    ensures
        v.after_hover(a).status == v.status,
        v.after_hover(a).pack_counts == v.pack_counts,
        v.after_hover(a).equipped_weapon == v.equipped_weapon,
        v.after_hover(a).equipped_feet == v.equipped_feet,
        v.after_hover(a).equipped_charm == v.equipped_charm,
        v.after_hover(a).iron_boots_active == v.iron_boots_active,
        v.after_hover(a).input_hints_enabled == v.input_hints_enabled,
        v.after_hover(a).detail_level == v.detail_level,
        v.after_hover(a).open_style == v.open_style,
        v.after_hover(a).after_hover(a) == v.after_hover(a),
        (v.after_hover(a).revision != v.revision) == (v.after_hover(a).nav_key() != v.nav_key()),
{
    reveal(InventoryView::hover_target);
    lemma_revision_moves(v.revision);
    let w = v.after_hover(a);
    assert(w.hover_target(a).nav_key() == w.nav_key());
    assert(w.hover_target(a) == w);
}

/// Every click except a click on the tab of the page already shown changes
/// the revision, so renderers rebuild after it.
pub proof fn law_click_changes_revision(v: InventoryView, a: ClickAction)
    requires
        v.wf(),
        !(a matches ClickAction::Goto(p) && p == v.page),
    ensures
        v.after_click(a).revision != v.revision,
{
    reveal(InventoryView::after_click);
    reveal(InventoryView::after_goto_page);
    reveal(InventoryView::after_activate_action);
    reveal(InventoryView::after_consume_pack_item);
    reveal(InventoryView::after_activate_status_row);
    reveal(InventoryView::after_equip_or_unequip_selected_item);
    reveal(InventoryView::after_try_toggle_iron_boots);
    reveal(InventoryView::after_toggle_input_hints);
    reveal(InventoryView::after_toggle_compact_layout);
    reveal(InventoryView::after_toggle_touch_mode);
    reveal(InventoryView::after_cycle_menu_toggle_binding);
    reveal(InventoryView::after_cycle_open_style);
    reveal(InventoryView::after_cycle_detail_level);
    lemma_revision_moves(v.revision);
    let r = v.revision;
    match a {
        ClickAction::Action(idx) => {
            let w = InventoryView {
                page: Page::Gear,
                focus_area: FocusArea::Actions,
                selected_action: idx,
                ..v
            };
            assert(v.after_click(a) == w.after_activate_action(idx as int).bumped());
            lemma_revision_moves(next_revision(r));
        },
        ClickAction::StatusRow(idx) => {
            lemma_revision_moves(next_revision(r));
        },
        ClickAction::StatusScrollTo(idx) => {
            reveal(InventoryView::hover_target);
        },
        _ => {},
    }
}

/// The mouse wheel scrolls the Status pane while Status is shown and never
/// leaves it; on any other page it turns to the neighbouring page.
pub proof fn law_wheel_scrolls_status_or_turns(v: InventoryView, up: bool)
    requires
        v.wf(),
    ensures
        v.page == Page::Status ==> v.after_wheel(up).page == Page::Status,
        v.page == Page::Status ==> v.after_wheel(up).status_scroll <= v.after_wheel(
            up,
        ).selected_status < v.after_wheel(up).status_scroll + STATUS_VISIBLE_ROWS,
        v.page != Page::Status ==> v.after_wheel(up).page == page_from_index(
            page_index(v.page) + (if up {
                -1int
            } else {
                1int
            }),
        ),
        v.page != Page::Status ==> v.after_wheel(up).page != v.page,
{
    reveal(InventoryView::after_scroll_status);
    reveal(InventoryView::after_next_page);
    reveal(InventoryView::after_previous_page);
    reveal(InventoryView::after_goto_page);
    let i = page_index(v.page);
    assert(page_index(page_from_index(i + 1)) == (i + 1) % 4);
    assert(page_index(page_from_index(i - 1)) == (i - 1) % 4);
}

/// Equip / unequip acts on the slot under the cursor alone: the weapon slot
/// always takes the entry under the cursor; the feet and charm slots take it
/// when something else (or nothing) is worn there and become empty when it
/// is the entry already worn. Any other slot keeps what it wears, the pack
/// is untouched, and wearing any boots other than the Iron Boots leaves them
/// inactive.
pub proof fn law_equip_acts_on_selected_slot(v: InventoryView)
    requires
        v.wf(),
    ensures
        ({
            let w = v.after_equip_or_unequip_selected_item();
            let sel = v.selected_item;
            &&& w.pack_counts == v.pack_counts
            &&& w.page == v.page && w.focus_area == v.focus_area
            &&& v.selected_slot == 0 ==> w.equipped_weapon == sel && w.equipped_feet
                == v.equipped_feet && w.equipped_charm == v.equipped_charm
            &&& v.selected_slot == 1 && v.equipped_feet != Some(sel) ==> w.equipped_feet == Some(
                sel,
            ) && w.equipped_weapon == v.equipped_weapon && w.equipped_charm == v.equipped_charm
            &&& v.selected_slot == 1 && v.equipped_feet == Some(sel) ==> w.equipped_feet is None
                && !w.iron_boots_active && w.equipped_weapon == v.equipped_weapon
                && w.equipped_charm == v.equipped_charm
            &&& v.selected_slot == 1 && sel != 0 ==> !w.iron_boots_active
            &&& v.selected_slot == 2 && v.equipped_charm != Some(sel) ==> w.equipped_charm == Some(
                sel,
            ) && w.equipped_weapon == v.equipped_weapon && w.equipped_feet == v.equipped_feet
            &&& v.selected_slot == 2 && v.equipped_charm == Some(sel) ==> w.equipped_charm is None
                && w.equipped_weapon == v.equipped_weapon && w.equipped_feet == v.equipped_feet
        }),
{
    reveal(InventoryView::after_equip_or_unequip_selected_item);
}

/// On the pack grid (two columns, three rows) up and down move by whole
/// rows: up from below the top row lands on the entry directly above, up
/// from the top row leaves for the tab strip without moving the cursor, and
/// down lands on the entry directly below, wrapping from the bottom row to
/// the top row in the same column. Left and right switch to the other entry
/// of the same row.
pub proof fn law_pack_grid_moves_by_rows_and_columns(v: InventoryView)
    requires
        v.wf(),
        v.page == Page::Pack,
        v.focus_area != FocusArea::Tabs,
    ensures
        v.selected_pack >= 2 ==> v.after_move_focus_vertical(-1).focus_area == FocusArea::Items
            && v.after_move_focus_vertical(-1).selected_pack == v.selected_pack - 2,
        v.selected_pack < 2 ==> v.after_move_focus_vertical(-1).focus_area == FocusArea::Tabs
            && v.after_move_focus_vertical(-1).selected_pack == v.selected_pack,
        v.after_move_focus_vertical(1).focus_area == FocusArea::Items,
        v.after_move_focus_vertical(1).selected_pack == (v.selected_pack + 2) % 6,
        v.after_move_focus_horizontal(1).selected_pack == (if v.selected_pack % 2 == 0 {
            v.selected_pack + 1
        } else {
            v.selected_pack - 1
        }),
        v.after_move_focus_horizontal(-1).selected_pack == v.after_move_focus_horizontal(
            1,
        ).selected_pack,
{
    reveal(InventoryView::after_move_focus_vertical);
    reveal(InventoryView::after_move_focus_horizontal);
    let p = v.selected_pack;
    assert(p == 0 || p == 1 || p == 2 || p == 3 || p == 4 || p == 5);
}

/// On the map page up and down step through the markers one at a time
/// around the ring; up from the first marker leaves for the tab strip. On
/// the gear columns down steps to the next entry (wrapping to the first) and
/// up to the previous one; up from the first entry leaves for the tab strip.
pub proof fn law_columns_step_one_entry(v: InventoryView)
    requires
        v.wf(),
        v.focus_area != FocusArea::Tabs,
    ensures
        v.page == Page::MapPage ==> v.after_move_focus_vertical(1).selected_map == (
        v.selected_map + 1) % 3,
        v.page == Page::MapPage && v.selected_map > 0 ==> v.after_move_focus_vertical(
            -1,
        ).selected_map == v.selected_map - 1,
        v.page == Page::MapPage && v.selected_map == 0 ==> v.after_move_focus_vertical(
            -1,
        ).focus_area == FocusArea::Tabs,
        v.page == Page::Gear && v.focus_area == FocusArea::Slots ==> v.after_move_focus_vertical(
            1,
        ).selected_slot == (v.selected_slot + 1) % 3,
        v.page == Page::Gear && v.focus_area == FocusArea::Items ==> v.after_move_focus_vertical(
            1,
        ).selected_item == (v.selected_item + 1) % 3,
        v.page == Page::Gear && v.focus_area == FocusArea::Slots && v.selected_slot > 0
            ==> v.after_move_focus_vertical(-1).selected_slot == v.selected_slot - 1,
        v.page == Page::Gear && v.focus_area == FocusArea::Slots && v.selected_slot == 0
            ==> v.after_move_focus_vertical(-1).focus_area == FocusArea::Tabs,
        v.page == Page::Status && v.selected_status > 0 ==> v.after_move_focus_vertical(
            -1,
        ).selected_status == v.selected_status - 1,
        v.page == Page::Status && v.selected_status < 15 ==> v.after_move_focus_vertical(
            1,
        ).selected_status == v.selected_status + 1,
        v.page == Page::Status && v.selected_status == 15 ==> v.after_move_focus_vertical(
            1,
        ).selected_status == 15,
{
    reveal(InventoryView::after_move_focus_vertical);
    reveal(InventoryView::after_ensure_status_visible);
}

} // verus!
