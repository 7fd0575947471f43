//! What each face of the Ocarina-style pause menu shows: its controls in
//! drawing order with the action a pointer press on each asks for. The host
//! attaches a rectangle to each entry by its position in the list.
//!
//! Page controls carry actions only on the front face and only while the
//! save prompt is closed; once the flip shows the prompt, the front face
//! carries the prompt's buttons alone.

use vstd::prelude::*;
use crate::menu::MenuControlKind;
use crate::oot::{choice_usable, item_usable, OotAction, OotDemo, OotView};
use crate::oot_data::{
    equip_choice, equip_choice_icon, map_marker, map_marker_name, map_marker_short, oot_item,
    oot_item_detail, oot_item_icon, oot_item_important, quest_icon, quest_icon_path, song,
    song_icon, CButton, EQUIP_CHOICE_COUNT, EQUIP_SLOT_COUNT, OOT_ITEM_COUNT,
    OOT_MAP_MARKER_COUNT, QUEST_ICON_COUNT, SONG_COUNT,
};
use crate::page_content::{ctl, on_face, ControlContent, ControlSpec};

verus! {

fn text(s: &str) -> (r: String)
    ensures
        r@ == s@,
{
    String::from_str(s)
}

fn face_action(enabled: bool, a: OotAction) -> (r: Option<OotAction>)
    ensures
        r == on_face(enabled, a),
{
    if enabled {
        Some(a)
    } else {
        None
    }
}

/// The front face shows the save prompt in place of its page.
pub open spec fn prompt_face(v: OotView, active_face: bool) -> bool {
    active_face && v.save_prompt_face_visible()
}

/// Page controls can be picked on the front face while no prompt is open.
pub open spec fn page_pickable(v: OotView, active_face: bool) -> bool {
    active_face && !v.save_prompt_open
}

/// Whether `page`'s face shows the save prompt instead of its controls.
pub fn shows_save_prompt(demo: &OotDemo, active_face: bool) -> (b: bool)
    ensures
        b == prompt_face(demo@, active_face),
{
    active_face && demo.save_prompt_face_visible()
}

/// Whether the controls of a face may be picked.
pub fn page_actions_enabled(demo: &OotDemo, active_face: bool) -> (b: bool)
    ensures
        b == page_pickable(demo@, active_face),
{
    active_face && !demo.save_prompt_open
}

/// The left (`i == 0`) or right edge prompt.
pub open spec fn edge_control(v: OotView, enabled: bool, i: int) -> ControlSpec<OotAction> {
    let a = if i == 0 {
        OotAction::EdgeLeft
    } else {
        OotAction::EdgeRight
    };
    ctl(
        MenuControlKind::Tab,
        ""@,
        Some(if i == 0 {
            "L"@
        } else {
            "R"@
        }),
        Some(if i == 0 {
            "icons/oot/edge_left.png"@
        } else {
            "icons/oot/edge_right.png"@
        }),
        enabled && v.selected == a,
        true,
        on_face(enabled, a),
    )
}

/// The two edge prompts that turn the cube, left then right.
pub fn edge_controls(demo: &OotDemo, enabled: bool) -> (cs: Vec<ControlContent<OotAction>>)
    ensures
        cs.len() == 2,
        forall|i: int| 0 <= i < 2 ==> (#[trigger] cs@[i])@ == edge_control(demo@, enabled, i),
{
    let mut cs: Vec<ControlContent<OotAction>> = Vec::new();
    cs.push(ControlContent {
        kind: MenuControlKind::Tab,
        label: text(""),
        detail: Some(text("L")),
        icon: Some(text("icons/oot/edge_left.png")),
        selected: enabled && demo.selected == OotAction::EdgeLeft,
        important: true,
        action: face_action(enabled, OotAction::EdgeLeft),
    });
    cs.push(ControlContent {
        kind: MenuControlKind::Tab,
        label: text(""),
        detail: Some(text("R")),
        icon: Some(text("icons/oot/edge_right.png")),
        selected: enabled && demo.selected == OotAction::EdgeRight,
        important: true,
        action: face_action(enabled, OotAction::EdgeRight),
    });
    cs
}

/// Cell `i` of the item grid; items the current Link cannot use read `child`.
pub open spec fn item_control(v: OotView, enabled: bool, i: int) -> ControlSpec<OotAction> {
    let usable = item_usable(i);
    ctl(
        MenuControlKind::Item,
        ""@,
        if usable {
            oot_item_detail(i)
        } else {
            Some("child"@)
        },
        Some(oot_item_icon(i)),
        v.selected == OotAction::Item(i as usize),
        oot_item_important(i) && usable,
        on_face(enabled, OotAction::Item(i as usize)),
    )
}

/// The item page's grid, row by row.
pub fn items_page_controls(demo: &OotDemo, enabled: bool) -> (cs: Vec<ControlContent<OotAction>>)
    ensures
        cs.len() == OOT_ITEM_COUNT,
        forall|i: int|
            0 <= i < cs.len() ==> (#[trigger] cs@[i])@ == item_control(demo@, enabled, i),
{
    let mut cs: Vec<ControlContent<OotAction>> = Vec::new();
    let mut i: usize = 0;
    while i < OOT_ITEM_COUNT
        invariant
            i <= OOT_ITEM_COUNT,
            cs.len() == i,
            forall|k: int| 0 <= k < i ==> (#[trigger] cs@[k])@ == item_control(demo@, enabled, k),
        decreases OOT_ITEM_COUNT - i,
    {
        let item = oot_item(i);
        let usable = item.usable_by_current_link();
        let detail = if usable {
            match item.detail {
                Some(d) => Some(text(d)),
                None => None,
            }
        } else {
            Some(text("child"))
        };
        cs.push(ControlContent {
            kind: MenuControlKind::Item,
            label: text(""),
            detail: detail,
            icon: Some(text(item.icon)),
            selected: demo.selected == OotAction::Item(i),
            important: item.important && usable,
            action: face_action(enabled, OotAction::Item(i)),
        });
        i = i + 1;
    }
    cs
}

/// Option `choice` of equipment row `slot`: worn options read `E`, options
/// the current Link cannot use read `child`.
pub open spec fn equipment_control(v: OotView, enabled: bool, slot: int, choice: int) -> ControlSpec<
    OotAction,
> {
    let equipped = v.equipped(slot) == choice;
    let usable = choice_usable(slot, choice);
    let a = OotAction::EquipChoice { slot: slot as usize, choice: choice as usize };
    ctl(
        MenuControlKind::Item,
        ""@,
        if equipped {
            Some("E"@)
        } else if !usable {
            Some("child"@)
        } else {
            None
        },
        Some(equip_choice_icon(slot * 3 + choice)),
        v.selected == a,
        equipped && usable,
        on_face(enabled, a),
    )
}

/// The equipment grid, row by row: control `slot * 3 + choice`.
pub fn equipment_page_controls(demo: &OotDemo, enabled: bool) -> (cs: Vec<
    ControlContent<OotAction>,
>)
    ensures
        cs.len() == EQUIP_SLOT_COUNT * EQUIP_CHOICE_COUNT,
        forall|s: int, c: int|
            0 <= s < EQUIP_SLOT_COUNT && 0 <= c < EQUIP_CHOICE_COUNT ==> (#[trigger] cs@[s * 3
                + c])@ == equipment_control(demo@, enabled, s, c),
{
    let mut cs: Vec<ControlContent<OotAction>> = Vec::new();
    let mut slot: usize = 0;
    while slot < EQUIP_SLOT_COUNT
        invariant
            slot <= EQUIP_SLOT_COUNT,
            cs.len() == slot * 3,
            forall|s: int, c: int|
                0 <= s < slot && 0 <= c < 3 ==> (#[trigger] cs@[s * 3 + c])@ == equipment_control(
                    demo@,
                    enabled,
                    s,
                    c,
                ),
        decreases EQUIP_SLOT_COUNT - slot,
    {
        let worn = if slot == 0 {
            demo.equipped_sword
        } else if slot == 1 {
            demo.equipped_shield
        } else if slot == 2 {
            demo.equipped_tunic
        } else {
            demo.equipped_boots
        };
        assert(worn == demo@.equipped(slot as int));
        let mut choice: usize = 0;
        while choice < EQUIP_CHOICE_COUNT
            invariant
                slot < EQUIP_SLOT_COUNT,
                choice <= EQUIP_CHOICE_COUNT,
                worn == demo@.equipped(slot as int),
                cs.len() == slot * 3 + choice,
                forall|s: int, c: int|
                    0 <= s < slot && 0 <= c < 3 ==> (#[trigger] cs@[s * 3 + c])@
                        == equipment_control(demo@, enabled, s, c),
                forall|c: int|
                    0 <= c < choice ==> (#[trigger] cs@[slot * 3 + c])@ == equipment_control(
                        demo@,
                        enabled,
                        slot as int,
                        c,
                    ),
            decreases EQUIP_CHOICE_COUNT - choice,
        {
            let option = equip_choice(slot, choice);
            let equipped = worn == choice;
            let usable = option.usable_by_current_link();
            let detail = if equipped {
                Some(text("E"))
            } else if !usable {
                Some(text("child"))
            } else {
                None
            };
            let a = OotAction::EquipChoice { slot: slot, choice: choice };
            cs.push(ControlContent {
                kind: MenuControlKind::Item,
                label: text(""),
                detail: detail,
                icon: Some(text(option.icon)),
                selected: demo.selected == a,
                important: equipped && usable,
                action: face_action(enabled, a),
            });
            choice = choice + 1;
        }
        slot = slot + 1;
    }
    cs
}

/// Marker `i` of the map page.
pub open spec fn marker_control(v: OotView, enabled: bool, i: int) -> ControlSpec<OotAction> {
    ctl(
        MenuControlKind::MapMarker,
        map_marker_short(i),
        Some(map_marker_name(i)),
        Some("icons/oot/map_marker.png"@),
        v.selected == OotAction::MapMarker(i as usize),
        i == 0,
        on_face(enabled, OotAction::MapMarker(i as usize)),
    )
}

/// The map page's markers.
pub fn map_page_controls(demo: &OotDemo, enabled: bool) -> (cs: Vec<ControlContent<OotAction>>)
    ensures
        cs.len() == OOT_MAP_MARKER_COUNT,
        forall|i: int|
            0 <= i < cs.len() ==> (#[trigger] cs@[i])@ == marker_control(demo@, enabled, i),
{
    let mut cs: Vec<ControlContent<OotAction>> = Vec::new();
    let mut i: usize = 0;
    while i < OOT_MAP_MARKER_COUNT
        invariant
            i <= OOT_MAP_MARKER_COUNT,
            cs.len() == i,
            forall|k: int| 0 <= k < i ==> (#[trigger] cs@[k])@ == marker_control(demo@, enabled, k),
        decreases OOT_MAP_MARKER_COUNT - i,
    {
        let m = map_marker(i);
        cs.push(ControlContent {
            kind: MenuControlKind::MapMarker,
            label: text(m.short),
            detail: Some(text(m.name)),
            icon: Some(text("icons/oot/map_marker.png")),
            selected: demo.selected == OotAction::MapMarker(i),
            important: i == 0,
            action: face_action(enabled, OotAction::MapMarker(i)),
        });
        i = i + 1;
    }
    cs
}

/// Number of controls on the quest page: the songs, then the medallions and
/// stones.
pub open spec fn quest_control_count() -> int {
    SONG_COUNT + QUEST_ICON_COUNT
}

/// Control `i` of the quest page: song `i`, then quest icon `i - SONG_COUNT`.
pub open spec fn quest_control(v: OotView, enabled: bool, i: int) -> ControlSpec<OotAction> {
    let a = if i < SONG_COUNT {
        OotAction::Song(i as usize)
    } else {
        OotAction::QuestIcon((i - SONG_COUNT) as usize)
    };
    ctl(
        MenuControlKind::Item,
        ""@,
        None,
        Some(
            if i < SONG_COUNT {
                song_icon(i)
            } else {
                quest_icon_path(i - SONG_COUNT)
            },
        ),
        v.selected == a,
        true,
        on_face(enabled, a),
    )
}

/// The quest page's songs and quest icons. Its skull counter, stone of agony,
/// card, note staff and heart pieces are pictures without actions, drawn by
/// the host.
pub fn quest_page_controls(demo: &OotDemo, enabled: bool) -> (cs: Vec<ControlContent<OotAction>>)
    ensures
        cs.len() == quest_control_count(),
        forall|i: int|
            0 <= i < cs.len() ==> (#[trigger] cs@[i])@ == quest_control(demo@, enabled, i),
{
    let mut cs: Vec<ControlContent<OotAction>> = Vec::new();
    let mut i: usize = 0;
    while i < SONG_COUNT
        invariant
            i <= SONG_COUNT,
            cs.len() == i,
            forall|k: int| 0 <= k < i ==> (#[trigger] cs@[k])@ == quest_control(demo@, enabled, k),
        decreases SONG_COUNT - i,
    {
        let a = OotAction::Song(i);
        cs.push(ControlContent {
            kind: MenuControlKind::Item,
            label: text(""),
            detail: None,
            icon: Some(text(song(i).icon)),
            selected: demo.selected == a,
            important: true,
            action: face_action(enabled, a),
        });
        i = i + 1;
    }
    let mut j: usize = 0;
    while j < QUEST_ICON_COUNT
        invariant
            j <= QUEST_ICON_COUNT,
            cs.len() == SONG_COUNT + j,
            forall|k: int|
                0 <= k < SONG_COUNT + j ==> (#[trigger] cs@[k])@ == quest_control(
                    demo@,
                    enabled,
                    k,
                ),
        decreases QUEST_ICON_COUNT - j,
    {
        let a = OotAction::QuestIcon(j);
        cs.push(ControlContent {
            kind: MenuControlKind::Item,
            label: text(""),
            detail: None,
            icon: Some(text(quest_icon(j).icon)),
            selected: demo.selected == a,
            important: true,
            action: face_action(enabled, a),
        });
        j = j + 1;
    }
    cs
}

/// Buttons of the save prompt: `OK` once saved, else `YES` and `NO`.
pub open spec fn save_prompt_control(v: OotView, i: int) -> ControlSpec<OotAction> {
    if v.save_complete {
        ctl(MenuControlKind::Action, "OK"@, None, None, true, true, Some(OotAction::SaveNo))
    } else if i == 0 {
        ctl(
            MenuControlKind::Action,
            "YES"@,
            None,
            None,
            v.selected == OotAction::SaveYes,
            true,
            Some(OotAction::SaveYes),
        )
    } else {
        ctl(
            MenuControlKind::Action,
            "NO"@,
            None,
            None,
            v.selected == OotAction::SaveNo,
            true,
            Some(OotAction::SaveNo),
        )
    }
}

/// The buttons of the save prompt face.
pub fn save_prompt_controls(demo: &OotDemo) -> (cs: Vec<ControlContent<OotAction>>)
    ensures
        cs.len() == (if demo@.save_complete {
            1int
        } else {
            2int
        }),
        forall|i: int| 0 <= i < cs.len() ==> (#[trigger] cs@[i])@ == save_prompt_control(demo@, i),
{
    let mut cs: Vec<ControlContent<OotAction>> = Vec::new();
    if demo.save_complete {
        cs.push(ControlContent {
            kind: MenuControlKind::Action,
            label: text("OK"),
            detail: None,
            icon: None,
            selected: true,
            important: true,
            action: Some(OotAction::SaveNo),
        });
    } else {
        cs.push(ControlContent {
            kind: MenuControlKind::Action,
            label: text("YES"),
            detail: None,
            icon: None,
            selected: demo.selected == OotAction::SaveYes,
            important: true,
            action: Some(OotAction::SaveYes),
        });
        cs.push(ControlContent {
            kind: MenuControlKind::Action,
            label: text("NO"),
            detail: None,
            icon: None,
            selected: demo.selected == OotAction::SaveNo,
            important: true,
            action: Some(OotAction::SaveNo),
        });
    }
    cs
}

/// HUD button `i`: B, A, then the C-buttons left, down and right showing the
/// items assigned to them.
pub open spec fn hud_control(v: OotView, i: int) -> ControlSpec<OotAction> {
    let modal = v.save_modal_active();
    if i == 0 {
        ctl(
            MenuControlKind::Action,
            ""@,
            None,
            Some("icons/oot/hud_button_b.png"@),
            false,
            true,
            Some(
                if modal {
                    OotAction::SaveNo
                } else {
                    OotAction::Save
                },
            ),
        )
    } else if i == 1 {
        ctl(
            MenuControlKind::Action,
            ""@,
            None,
            Some("icons/oot/hud_button_a.png"@),
            false,
            true,
            if modal {
                Some(v.selected)
            } else {
                None
            },
        )
    } else {
        let (item, button) = if i == 2 {
            (v.c_left, CButton::Left)
        } else if i == 3 {
            (v.c_down, CButton::Down)
        } else {
            (v.c_right, CButton::Right)
        };
        ctl(
            MenuControlKind::Action,
            ""@,
            None,
            Some(oot_item_icon(item as int)),
            false,
            true,
            on_face(!modal, OotAction::AssignC(button)),
        )
    }
}

/// The action buttons drawn on the HUD over every face.
pub fn hud_button_controls(demo: &OotDemo) -> (cs: Vec<ControlContent<OotAction>>)
    requires
        demo@.wf(),
    ensures
        cs.len() == 5,
        forall|i: int| 0 <= i < 5 ==> (#[trigger] cs@[i])@ == hud_control(demo@, i),
{
    let modal = demo.save_modal_active();
    let mut cs: Vec<ControlContent<OotAction>> = Vec::new();
    cs.push(ControlContent {
        kind: MenuControlKind::Action,
        label: text(""),
        detail: None,
        icon: Some(text("icons/oot/hud_button_b.png")),
        selected: false,
        important: true,
        action: Some(if modal { OotAction::SaveNo } else { OotAction::Save }),
    });
    cs.push(ControlContent {
        kind: MenuControlKind::Action,
        label: text(""),
        detail: None,
        icon: Some(text("icons/oot/hud_button_a.png")),
        selected: false,
        important: true,
        action: if modal { Some(demo.selected) } else { None },
    });
    let items = [demo.c_left, demo.c_down, demo.c_right];
    let buttons = [CButton::Left, CButton::Down, CButton::Right];
    let mut k: usize = 0;
    while k < 3
        invariant
            demo@.wf(),
            modal == demo@.save_modal_active(),
            k <= 3,
            cs.len() == 2 + k,
            items@ == seq![demo.c_left, demo.c_down, demo.c_right],
            buttons@ == seq![CButton::Left, CButton::Down, CButton::Right],
            forall|i: int| 0 <= i < 2 + k ==> (#[trigger] cs@[i])@ == hud_control(demo@, i),
        decreases 3 - k,
    {
        cs.push(ControlContent {
            kind: MenuControlKind::Action,
            label: text(""),
            detail: None,
            icon: Some(text(oot_item(items[k]).icon)),
            selected: false,
            important: true,
            action: face_action(!modal, OotAction::AssignC(buttons[k])),
        });
        k = k + 1;
    }
    cs
}

} // verus!
