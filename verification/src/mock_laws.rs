//! Properties of the mock inventory that span several operations.

use vstd::prelude::*;
use crate::mock_data::{
    DETAIL_VISIBLE_LINES, mock_item_kind, mock_page_from_index, mock_page_index, EquipSlot, ItemKind, MockAction,
    MockPage, PageTurn, ITEM_COUNT,
};
use crate::mock_inventory::{page_left_of, page_right_of, MockView};

verus! {

/// The face to the viewer's left of the face to their right is the face one
/// started from, and the other way round; four turns the same way come back.
pub proof fn law_mock_turns_undo(v: MockView)
    requires
        v.wf(),
    ensures
        page_left_of(page_right_of(v.page)) == v.page,
        page_right_of(page_left_of(v.page)) == v.page,
        v.after_turn_page(PageTurn::ViewerLeft).after_turn_page(PageTurn::ViewerRight).page
            == v.page,
        v.after_turn_page(PageTurn::ViewerRight).after_turn_page(PageTurn::ViewerLeft).page
            == v.page,
        page_left_of(page_left_of(page_left_of(page_left_of(v.page)))) == v.page,
        v.after_turn_page(PageTurn::ViewerLeft).page != v.page,
        v.after_turn_page(PageTurn::ViewerRight).page != v.page,
{
    let i = mock_page_index(v.page);
    assert(mock_page_index(mock_page_from_index(i + 1)) == (i + 1) % 4);
    assert(mock_page_index(mock_page_from_index(i - 1)) == (i - 1) % 4);
    assert(mock_page_index(mock_page_from_index((i + 1) % 4 + 1)) == (i + 2) % 4);
    assert(mock_page_index(mock_page_from_index((i + 2) % 4 + 1)) == (i + 3) % 4);
    assert(mock_page_index(mock_page_from_index((i + 3) % 4 + 1)) == i);
}

/// Activating an owned equippable item flips whether it is equipped: it
/// takes its slot (replacing whatever was there) or leaves it empty. The
/// other slot and every count stay as they were, and a second activation
/// restores whether the item is equipped.
pub proof fn law_mock_equip_toggles(v: MockView, idx: int, slot: EquipSlot)
    requires
        v.wf(),
        0 <= idx < ITEM_COUNT,
        v.has(idx),
        mock_item_kind(idx) == ItemKind::Equippable(slot),
    ensures
        v.after_activate_item(idx).is_equipped(idx) == !v.is_equipped(idx),
        v.after_activate_item(idx).equipped_in(slot) == (if v.is_equipped(idx) {
            None
        } else {
            Some(idx as usize)
        }),
        v.after_activate_item(idx).counts == v.counts,
        v.after_activate_item(idx).equipped_in(other_slot(slot)) == v.equipped_in(
            other_slot(slot),
        ),
        v.after_activate_item(idx).after_activate_item(idx).is_equipped(idx) == v.is_equipped(
            idx,
        ),
        v.after_activate_item(idx).after_activate_item(idx).counts == v.counts,
{
    let w = v.after_activate_item(idx);
    assert(w.wf());
    assert(w.has(idx));
}

/// The slot other than `s`.
pub open spec fn other_slot(s: EquipSlot) -> EquipSlot {
    match s {
        EquipSlot::HeldItem => EquipSlot::Body,
        EquipSlot::Body => EquipSlot::HeldItem,
    }
}

/// Using an owned consumable takes exactly one of it and touches no other
/// count and no equipment.
pub proof fn law_mock_use_takes_one(v: MockView, idx: int, other: int)
    requires
        v.wf(),
        0 <= idx < ITEM_COUNT,
        v.has(idx),
        mock_item_kind(idx) == ItemKind::Consumable,
        other != idx,
    ensures
        v.after_activate_item(idx).count(idx) == v.count(idx) - 1,
        v.after_activate_item(idx).count(other) == v.count(other),
        v.after_activate_item(idx).held_item == v.held_item,
        v.after_activate_item(idx).body_item == v.body_item,
{
}

/// Activating an item that is not owned changes neither counts nor
/// equipment nor the page.
pub proof fn law_mock_unowned_ignored(v: MockView, idx: int)
    requires
        v.wf(),
        0 <= idx < ITEM_COUNT,
        !v.has(idx),
    ensures
        v.after_activate_item(idx).counts == v.counts,
        v.after_activate_item(idx).held_item == v.held_item,
        v.after_activate_item(idx).body_item == v.body_item,
        v.after_activate_item(idx).page == v.page,
        v.after_activate_item(idx).revision != v.revision,
{
}

/// Moving the cursor, pointing at a control and turning the cube never
/// change what the host owns or has equipped.
pub proof fn law_mock_navigation_keeps_inventory(
    v: MockView,
    dx: int,
    dy: int,
    action: MockAction,
    dir: PageTurn,
    page: MockPage,
)
    requires
        v.wf(),
    ensures
        v.after_move_spatial(dx, dy).counts == v.counts,
        v.after_move_spatial(dx, dy).held_item == v.held_item,
        v.after_move_spatial(dx, dy).body_item == v.body_item,
        v.after_hover(action).counts == v.counts,
        v.after_hover(action).held_item == v.held_item,
        v.after_hover(action).body_item == v.body_item,
        v.after_turn_page(dir).counts == v.counts,
        v.after_turn_page(dir).held_item == v.held_item,
        v.after_turn_page(dir).body_item == v.body_item,
        v.after_turn_page_from_edge(dir).counts == v.counts,
        v.after_turn_page_from_edge(dir).held_item == v.held_item,
        v.after_turn_page_from_edge(dir).body_item == v.body_item,
        v.after_goto_page(page).counts == v.counts,
        v.after_goto_page(page).held_item == v.held_item,
        v.after_goto_page(page).body_item == v.body_item,
{
}

/// An equipped item is always owned, and no item sits in both slots.
pub proof fn law_mock_equipped_are_owned(v: MockView, idx: int)
    requires
        v.wf(),
        0 <= idx < ITEM_COUNT,
    ensures
        v.is_equipped(idx) ==> v.has(idx),
        !(v.held_item == Some(idx as usize) && v.body_item == Some(idx as usize)),
{
}

/// Scrolling the description never goes below the first line, scrolling
/// down never passes the last full page of lines, and the pane shows at most
/// one page plus its position marker.
pub proof fn law_mock_detail_scroll_in_range(v: MockView, delta: int)
    requires
        v.wf(),
    ensures
        delta >= 0 ==> v.after_scroll_detail(delta).detail_scroll <= (if v.detail_lines(
            v.selected_index(),
        ).len() > DETAIL_VISIBLE_LINES {
            v.detail_lines(v.selected_index()).len() - DETAIL_VISIBLE_LINES
        } else {
            0
        }),
        delta < 0 ==> v.after_scroll_detail(delta).detail_scroll <= v.detail_scroll,
        v.selected_detail().len() <= DETAIL_VISIBLE_LINES + 1,
{
}

/// On the items face the cursor steps cell by cell over the 6x4 grid: up and
/// down move one whole row in the same column and stop at the top and bottom
/// rows (a step past them changes nothing); left and right move one cell in
/// the same row, and a step past the first or last column lands on that
/// side's edge button.
pub proof fn law_mock_grid_steps(v: MockView, i: usize)
    requires
        v.page == MockPage::Items,
        v.selected == MockAction::Item(i),
        i < ITEM_COUNT,
    ensures
        i >= 6 ==> v.after_move_spatial(0, -1).selected == MockAction::Item((i - 6) as usize),
        i < 18 ==> v.after_move_spatial(0, 1).selected == MockAction::Item((i + 6) as usize),
        i < 6 ==> v.after_move_spatial(0, -1) == v,
        i >= 18 ==> v.after_move_spatial(0, 1) == v,
        i % 6 != 0 ==> v.after_move_spatial(-1, 0).selected == MockAction::Item((i - 1) as usize),
        i % 6 != 5 ==> v.after_move_spatial(1, 0).selected == MockAction::Item((i + 1) as usize),
        i % 6 == 0 ==> v.after_move_spatial(-1, 0).selected == MockAction::EdgeLeft,
        i % 6 == 5 ==> v.after_move_spatial(1, 0).selected == MockAction::EdgeRight,
        v.after_move_spatial(0, -1).counts == v.counts && v.after_move_spatial(0, 1).counts
            == v.counts,
{
    let ii = i as int;
    assert(ii == (ii / 6) * 6 + ii % 6 && 0 <= ii % 6 < 6 && 0 <= ii / 6 < 4) by (nonlinear_arith)
        requires
            0 <= ii < 24,
    ;
}

} // verus!
