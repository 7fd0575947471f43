//! Laws of the page contents: which controls can be picked, on which faces.

use vstd::prelude::*;
use crate::inventory::InventoryView;
use crate::inventory_data::{click_action_valid, ClickAction, STATUS_ROW_COUNT, STATUS_VISIBLE_ROWS};
use crate::mock_content::{detail_arrow_control, mock_edge_control, mock_item_control, system_control};
use crate::mock_data::{MockAction, ITEM_COUNT};
use crate::mock_inventory::{mock_action_valid, MockView};
use crate::oot::{oot_action_valid, OotAction, OotView};
use crate::oot_content::{
    edge_control, equipment_control, item_control, marker_control, page_pickable, prompt_face,
    quest_control, quest_control_count, save_prompt_control,
};
use crate::oot_data::{
    EQUIP_CHOICE_COUNT, EQUIP_SLOT_COUNT, OOT_ITEM_COUNT, OOT_MAP_MARKER_COUNT, QUEST_ICON_COUNT,
    SONG_COUNT,
};
use crate::page_content::{
    gear_control, gear_control_count, map_control, pack_control, scrollbar_control,
    status_control, status_scroll_slots, tab_control,
};
use crate::inventory_data::{MAP_MARKER_COUNT, PACK_ITEM_COUNT};

verus! {

/// Only the face at the front of the inventory cube can be picked: every
/// control of every page carries an action exactly when its face is at the
/// front.
pub proof fn law_only_front_face_pickable(v: InventoryView, active_face: bool, i: int)
    ensures
        (tab_control(v, active_face, i).action is Some) == active_face,
        (gear_control(v, active_face, i).action is Some) == active_face,
        (pack_control(v, active_face, i).action is Some) == active_face,
        (map_control(v, active_face, i).action is Some) == active_face,
        (status_control(v, active_face, i).action is Some) == active_face,
        (scrollbar_control(v, active_face, i).action is Some) == active_face,
{
}

/// The Status pane offers exactly the rows in its window: the row shown at
/// pane position `k` exists, lies in the window that starts at the scroll
/// position, and a press on it activates that same row.
pub proof fn law_status_hits_only_visible_rows(v: InventoryView, k: int)
    requires
        v.wf(),
        0 <= k < STATUS_VISIBLE_ROWS,
    ensures
        v.status_scroll + k < STATUS_ROW_COUNT,
        status_control(v, true, v.status_scroll + k).action == Some(
            ClickAction::StatusRow((v.status_scroll + k) as usize),
        ),
        forall|j: usize|
            status_control(v, true, v.status_scroll + k).action == Some(ClickAction::StatusRow(j))
                ==> v.status_scroll <= j < v.status_scroll + STATUS_VISIBLE_ROWS,
{
}

/// On the pause menu, page controls can be picked only on the front face
/// and only while the save prompt is closed.
pub proof fn law_oot_only_front_face_pickable(
    v: OotView,
    active_face: bool,
    i: int,
    slot: int,
    choice: int,
)
    ensures
        ({
            let enabled = page_pickable(v, active_face);
            &&& (edge_control(v, enabled, i).action is Some) == enabled
            &&& (item_control(v, enabled, i).action is Some) == enabled
            &&& (equipment_control(v, enabled, slot, choice).action is Some) == enabled
            &&& (marker_control(v, enabled, i).action is Some) == enabled
            &&& (quest_control(v, enabled, i).action is Some) == enabled
        }),
        !active_face ==> !page_pickable(v, active_face),
        v.save_prompt_open ==> !page_pickable(v, active_face) && (active_face ==> prompt_face(
            v,
            active_face,
        )),
{
}

/// The quest page's controls carry exactly the songs, then the medallions
/// and stones, each once.
pub proof fn law_quest_actions_are_songs_and_icons(v: OotView, i: int)
    requires
        0 <= i < quest_control_count(),
    ensures
        quest_control(v, true, i).action == Some(
            if i < SONG_COUNT {
                OotAction::Song(i as usize)
            } else {
                OotAction::QuestIcon((i - SONG_COUNT) as usize)
            },
        ),
        forall|s: usize|
            s < SONG_COUNT ==> quest_control(v, true, s as int).action == Some(OotAction::Song(s)),
        forall|q: usize|
            q < QUEST_ICON_COUNT ==> quest_control(v, true, SONG_COUNT + q).action == Some(
                OotAction::QuestIcon(q),
            ),
{
}

/// The save prompt's buttons only answer the prompt.
pub proof fn law_save_prompt_buttons_answer_prompt(v: OotView, i: int)
    ensures
        save_prompt_control(v, i).action == Some(OotAction::SaveYes)
            || save_prompt_control(v, i).action == Some(OotAction::SaveNo),
{
}

/// On the mock cube only the front face can be picked, and on its item grid
/// only entries that are owned and not reserved.
pub proof fn law_mock_only_front_face_and_owned_pickable(v: MockView, active_face: bool, i: int)
    requires
        0 <= i < ITEM_COUNT,
    ensures
        (mock_edge_control(v, active_face, i).action is Some) == active_face,
        (detail_arrow_control(v, active_face, i).action is Some) == active_face,
        (system_control(v, active_face, i).action is Some) == active_face,
        mock_item_control(v, active_face, i).action is Some ==> active_face && v.has(i),
        mock_item_control(v, active_face, i).action is Some ==> mock_item_control(
            v,
            active_face,
            i,
        ).action == Some(MockAction::Item(i as usize)),
{
}

/// Every action a page of the inventory menu offers is one that hover, click
/// and tap accept.
pub proof fn law_offered_actions_are_valid(v: InventoryView, active_face: bool, i: int)
    requires
        v.wf(),
    ensures
        0 <= i < 4 ==> (tab_control(v, active_face, i).action matches Some(a) ==> click_action_valid(a)),
        0 <= i < gear_control_count(v) ==> (gear_control(v, active_face, i).action matches Some(a)
            ==> click_action_valid(a)),
        0 <= i < PACK_ITEM_COUNT ==> (pack_control(v, active_face, i).action matches Some(a)
            ==> click_action_valid(a)),
        0 <= i < MAP_MARKER_COUNT ==> (map_control(v, active_face, i).action matches Some(a)
            ==> click_action_valid(a)),
        0 <= i < STATUS_VISIBLE_ROWS ==> (status_control(v, active_face, v.status_scroll + i).action matches Some(a)
            ==> click_action_valid(a)),
        0 <= i < status_scroll_slots() ==> (scrollbar_control(v, active_face, i).action matches Some(a)
            ==> click_action_valid(a)),
{
}

/// Every action a face of the pause menu offers names an existing entry.
pub proof fn law_oot_offered_actions_are_valid(v: OotView, enabled: bool, i: int, slot: int, choice: int)
    ensures
        0 <= i < 2 ==> (edge_control(v, enabled, i).action matches Some(a) ==> oot_action_valid(a)),
        0 <= i < OOT_ITEM_COUNT ==> (item_control(v, enabled, i).action matches Some(a)
            ==> oot_action_valid(a)),
        0 <= slot < EQUIP_SLOT_COUNT && 0 <= choice < EQUIP_CHOICE_COUNT ==> (equipment_control(
            v,
            enabled,
            slot,
            choice,
        ).action matches Some(a) ==> oot_action_valid(a)),
        0 <= i < OOT_MAP_MARKER_COUNT ==> (marker_control(v, enabled, i).action matches Some(a)
            ==> oot_action_valid(a)),
        0 <= i < quest_control_count() ==> (quest_control(v, enabled, i).action matches Some(a)
            ==> oot_action_valid(a)),
        save_prompt_control(v, i).action matches Some(a) ==> oot_action_valid(a),
{
}

/// Every action a face of the mock cube offers is one that hover accepts.
pub proof fn law_mock_offered_actions_are_valid(v: MockView, active_face: bool, i: int)
    requires
        0 <= i < ITEM_COUNT,
    ensures
        mock_item_control(v, active_face, i).action matches Some(a) ==> mock_action_valid(a),
        mock_edge_control(v, active_face, i).action matches Some(a) ==> mock_action_valid(a),
        detail_arrow_control(v, active_face, i).action matches Some(a) ==> mock_action_valid(a),
        system_control(v, active_face, i).action matches Some(a) ==> mock_action_valid(a),
{
}

} // verus!
