//! What each page of the inventory menu shows: its controls in drawing order,
//! with kind, label, detail, icon, selection, emphasis and the action a
//! pointer press on it asks for. The host only attaches a rectangle to each
//! entry by its position in the list.
//!
//! A face of the cube that is not at the front carries no actions, so it can
//! never be picked; the Status page offers only its visible rows.

use vstd::prelude::*;
use crate::inventory::{
    action_icon, pack_detail, pack_detail_text, status_icon, status_icon_path, status_kind,
    status_label, status_row_kind, status_row_label, InventoryDemo, InventoryView,
};
use crate::inventory_data::{
    gear_detail, gear_icon, gear_icon_path, gear_item_detail, gear_item_name, gear_name,
    map_icon, map_icon_path, map_marker, map_marker_name, pack_icon, pack_icon_path,
    pack_item_important, pack_item_name, pack_name, page_icon, page_label, slot_icon,
    slot_icon_path, slot_name, slot_names, tab_page, ClickAction, FocusArea, Page,
    MAP_MARKER_COUNT, PACK_ITEM_COUNT, STATUS_ROW_COUNT, STATUS_VISIBLE_ROWS,
};
use crate::menu::MenuControlKind;

verus! {

/// One control of a page, without its place on the page.
#[derive(Clone, Debug)]
pub struct ControlContent<A> {
    pub kind: MenuControlKind,
    pub label: String,
    pub detail: Option<String>,
    pub icon: Option<String>,
    pub selected: bool,
    pub important: bool,
    pub action: Option<A>,
}

/// Model of a control: its texts as character sequences.
pub struct ControlSpec<A> {
    pub kind: MenuControlKind,
    pub label: Seq<char>,
    pub detail: Option<Seq<char>>,
    pub icon: Option<Seq<char>>,
    pub selected: bool,
    pub important: bool,
    pub action: Option<A>,
}

pub open spec fn opt_text(o: Option<String>) -> Option<Seq<char>> {
    match o {
        Some(s) => Some(s@),
        None => None,
    }
}

impl<A> View for ControlContent<A> {
    type V = ControlSpec<A>;

    open spec fn view(&self) -> ControlSpec<A> {
        ControlSpec {
            kind: self.kind,
            label: self.label@,
            detail: opt_text(self.detail),
            icon: opt_text(self.icon),
            selected: self.selected,
            important: self.important,
            action: self.action,
        }
    }
}

/// The action a control carries: only a face at the front can be picked.
pub open spec fn on_face<A>(active_face: bool, a: A) -> Option<A> {
    if active_face {
        Some(a)
    } else {
        None
    }
}

pub open spec fn ctl<A>(
    kind: MenuControlKind,
    label: Seq<char>,
    detail: Option<Seq<char>>,
    icon: Option<Seq<char>>,
    selected: bool,
    important: bool,
    action: Option<A>,
) -> ControlSpec<A> {
    ControlSpec { kind, label, detail, icon, selected, important, action }
}

fn face_action<A>(active_face: bool, a: A) -> (r: Option<A>)
    ensures
        r == on_face(active_face, a),
{
    if active_face {
        Some(a)
    } else {
        None
    }
}

fn text(s: &str) -> (r: String)
    ensures
        r@ == s@,
{
    String::from_str(s)
}

// ---------------------------------------------------------------------------
// Inventory menu
// ---------------------------------------------------------------------------

/// Tab `i` of the tab strip (Status, Map, Pack, Gear).
pub open spec fn tab_control(v: InventoryView, active_face: bool, i: int) -> ControlSpec<
    ClickAction,
> {
    let p = tab_page(i);
    ctl(
        MenuControlKind::Tab,
        page_label(p),
        None,
        Some(page_icon(p)),
        v.focus_area == FocusArea::Tabs && v.selected_tab == i,
        p == v.page,
        on_face(active_face, ClickAction::Goto(p)),
    )
}

/// The four tabs, in strip order.
pub fn tab_controls(demo: &InventoryDemo, active_face: bool) -> (cs: Vec<ControlContent<ClickAction>>)
    ensures
        cs.len() == 4,
        forall|i: int| 0 <= i < 4 ==> (#[trigger] cs@[i])@ == tab_control(demo@, active_face, i),
{
    let pages = InventoryDemo::tab_pages();
    let mut cs: Vec<ControlContent<ClickAction>> = Vec::new();
    let mut i: usize = 0;
    while i < 4
        invariant
            i <= 4,
            cs.len() == i,
            forall|k: int| 0 <= k < 4 ==> pages@[k] == tab_page(k),
            forall|k: int| 0 <= k < i ==> (#[trigger] cs@[k])@ == tab_control(demo@, active_face, k),
        decreases 4 - i,
    {
        let p = pages[i];
        cs.push(ControlContent {
            kind: MenuControlKind::Tab,
            label: text(p.label()),
            detail: None,
            icon: Some(text(p.icon())),
            selected: demo.focus_area == FocusArea::Tabs && demo.selected_tab == i,
            important: p == demo.page,
            action: face_action(active_face, ClickAction::Goto(p)),
        });
        i = i + 1;
    }
    cs
}

/// Whether the gear page shows its action popup.
pub open spec fn gear_popup_shown(v: InventoryView) -> bool {
    v.gear_action_popup_open || v.focus_area == FocusArea::Actions
}

/// Number of controls on the gear page: slots, entries, and the popup's
/// three actions while it is shown.
pub open spec fn gear_control_count(v: InventoryView) -> int {
    if gear_popup_shown(v) {
        9
    } else {
        6
    }
}

/// Sprite of gear action `idx`.
pub open spec fn action_icon_path(v: InventoryView, idx: int) -> Seq<char> {
    if idx == 0 && v.selected_item_equipped() {
        "icons/action_unequip.png"@
    } else if idx == 0 {
        "icons/action_equip.png"@
    } else if idx == 1 && v.selected_slot == 1 && v.selected_item == 0 {
        "icons/action_toggle.png"@
    } else if idx == 1 {
        "icons/action_compare.png"@
    } else {
        "icons/action_inspect.png"@
    }
}

/// Control `i` of the gear page: slots 0..3, entries of the selected slot
/// 3..6, then the popup's actions 6..9.
pub open spec fn gear_control(v: InventoryView, active_face: bool, i: int) -> ControlSpec<
    ClickAction,
> {
    if i < 3 {
        ctl(
            MenuControlKind::Slot,
            slot_name(i),
            Some(v.slot_value(i)),
            Some(slot_icon_path(i)),
            v.focus_area == FocusArea::Slots && v.selected_slot == i,
            i == 1,
            on_face(active_face, ClickAction::SelectSlot(i as usize)),
        )
    } else if i < 6 {
        let j = i - 3;
        ctl(
            MenuControlKind::Item,
            gear_item_name(v.selected_slot as int, j),
            Some(gear_item_detail(v.selected_slot as int, j)),
            Some(gear_icon_path(v.selected_slot as int, j)),
            v.focus_area == FocusArea::Items && v.selected_item == j,
            v.selected_item_equipped() && v.selected_item == j,
            on_face(active_face, ClickAction::SelectItem(j as usize)),
        )
    } else {
        let j = i - 6;
        ctl(
            MenuControlKind::PopupAction,
            v.action_label(j),
            None,
            Some(action_icon_path(v, j)),
            v.focus_area == FocusArea::Actions && v.selected_action == j,
            j < 2,
            on_face(active_face, ClickAction::Action(j as usize)),
        )
    }
}

/// The gear page's controls in drawing order.
pub fn gear_page_controls(demo: &InventoryDemo, active_face: bool) -> (cs: Vec<
    ControlContent<ClickAction>,
>)
    requires
        demo@.wf(),
    ensures
        cs.len() == gear_control_count(demo@),
        forall|i: int|
            0 <= i < cs.len() ==> (#[trigger] cs@[i])@ == gear_control(demo@, active_face, i),
{
    let names = slot_names();
    let mut cs: Vec<ControlContent<ClickAction>> = Vec::new();
    let mut i: usize = 0;
    while i < 3
        invariant
            demo@.wf(),
            i <= 3,
            cs.len() == i,
            forall|k: int| 0 <= k < 3 ==> (#[trigger] names@[k])@ == slot_name(k),
            forall|k: int|
                0 <= k < i ==> (#[trigger] cs@[k])@ == gear_control(demo@, active_face, k),
        decreases 3 - i,
    {
        cs.push(ControlContent {
            kind: MenuControlKind::Slot,
            label: text(names[i]),
            detail: Some(demo.slot_value(i)),
            icon: Some(text(slot_icon(i))),
            selected: demo.focus_area == FocusArea::Slots && demo.selected_slot == i,
            important: i == 1,
            action: face_action(active_face, ClickAction::SelectSlot(i)),
        });
        i = i + 1;
    }
    let equipped = demo.is_selected_item_equipped();
    let mut j: usize = 0;
    while j < 3
        invariant
            demo@.wf(),
            j <= 3,
            cs.len() == 3 + j,
            equipped == demo@.selected_item_equipped(),
            forall|k: int|
                0 <= k < 3 + j ==> (#[trigger] cs@[k])@ == gear_control(demo@, active_face, k),
        decreases 3 - j,
    {
        cs.push(ControlContent {
            kind: MenuControlKind::Item,
            label: text(gear_name(demo.selected_slot, j)),
            detail: Some(text(gear_detail(demo.selected_slot, j))),
            icon: Some(text(gear_icon(demo.selected_slot, j))),
            selected: demo.focus_area == FocusArea::Items && demo.selected_item == j,
            important: equipped && demo.selected_item == j,
            action: face_action(active_face, ClickAction::SelectItem(j)),
        });
        j = j + 1;
    }
    if demo.gear_action_popup_open || demo.focus_area == FocusArea::Actions {
        let labels = demo.actions();
        let mut a: usize = 0;
        while a < 3
            invariant
                demo@.wf(),
                gear_popup_shown(demo@),
                a <= 3,
                cs.len() == 6 + a,
                forall|k: int| 0 <= k < 3 ==> (#[trigger] labels@[k])@ == demo@.action_label(k),
                forall|k: int|
                    0 <= k < 6 + a ==> (#[trigger] cs@[k])@ == gear_control(
                        demo@,
                        active_face,
                        k,
                    ),
            decreases 3 - a,
        {
            cs.push(ControlContent {
                kind: MenuControlKind::PopupAction,
                label: text(labels[a]),
                detail: None,
                icon: Some(text(action_icon(a, demo))),
                selected: demo.focus_area == FocusArea::Actions && demo.selected_action == a,
                important: a < 2,
                action: face_action(active_face, ClickAction::Action(a)),
            });
            a = a + 1;
        }
    }
    cs
}

/// The action of the equipment summary strip under the gear columns.
pub fn gear_summary_action(active_face: bool) -> (a: Option<ClickAction>)
    ensures
        a == on_face(active_face, ClickAction::FocusArea(FocusArea::Actions)),
{
    face_action(active_face, ClickAction::FocusArea(FocusArea::Actions))
}

/// Entry `i` of the pack grid.
pub open spec fn pack_control(v: InventoryView, active_face: bool, i: int) -> ControlSpec<
    ClickAction,
> {
    ctl(
        MenuControlKind::Item,
        pack_item_name(i),
        Some(pack_detail_text(i, v.pack_counts)),
        Some(pack_icon_path(i)),
        v.focus_area == FocusArea::Items && v.selected_pack == i,
        pack_item_important(i),
        on_face(active_face, ClickAction::PackItem(i as usize)),
    )
}

/// The pack page's six entries in grid order.
pub fn pack_page_controls(demo: &InventoryDemo, active_face: bool) -> (cs: Vec<
    ControlContent<ClickAction>,
>)
    ensures
        cs.len() == PACK_ITEM_COUNT,
        forall|i: int|
            0 <= i < cs.len() ==> (#[trigger] cs@[i])@ == pack_control(demo@, active_face, i),
{
    let mut cs: Vec<ControlContent<ClickAction>> = Vec::new();
    let mut i: usize = 0;
    while i < PACK_ITEM_COUNT
        invariant
            i <= PACK_ITEM_COUNT,
            cs.len() == i,
            forall|k: int|
                0 <= k < i ==> (#[trigger] cs@[k])@ == pack_control(demo@, active_face, k),
        decreases PACK_ITEM_COUNT - i,
    {
        let important = i == 0 || i == 2;
        cs.push(ControlContent {
            kind: MenuControlKind::Item,
            label: text(pack_name(i)),
            detail: Some(pack_detail(i, demo)),
            icon: Some(text(pack_icon(i))),
            selected: demo.focus_area == FocusArea::Items && demo.selected_pack == i,
            important: important,
            action: face_action(active_face, ClickAction::PackItem(i)),
        });
        i = i + 1;
    }
    cs
}

/// Marker `i` of the map page.
pub open spec fn map_control(v: InventoryView, active_face: bool, i: int) -> ControlSpec<
    ClickAction,
> {
    ctl(
        MenuControlKind::MapMarker,
        map_marker_name(i),
        None,
        Some(map_icon_path(i)),
        v.focus_area == FocusArea::Items && v.selected_map == i,
        false,
        on_face(active_face, ClickAction::MapMarker(i as usize)),
    )
}

/// The map page's markers.
pub fn map_page_controls(demo: &InventoryDemo, active_face: bool) -> (cs: Vec<
    ControlContent<ClickAction>,
>)
    ensures
        cs.len() == MAP_MARKER_COUNT,
        forall|i: int|
            0 <= i < cs.len() ==> (#[trigger] cs@[i])@ == map_control(demo@, active_face, i),
{
    let mut cs: Vec<ControlContent<ClickAction>> = Vec::new();
    let mut i: usize = 0;
    while i < MAP_MARKER_COUNT
        invariant
            i <= MAP_MARKER_COUNT,
            cs.len() == i,
            forall|k: int|
                0 <= k < i ==> (#[trigger] cs@[k])@ == map_control(demo@, active_face, k),
        decreases MAP_MARKER_COUNT - i,
    {
        cs.push(ControlContent {
            kind: MenuControlKind::MapMarker,
            label: text(map_marker(i)),
            detail: None,
            icon: Some(text(map_icon(i))),
            selected: demo.focus_area == FocusArea::Items && demo.selected_map == i,
            important: false,
            action: face_action(active_face, ClickAction::MapMarker(i)),
        });
        i = i + 1;
    }
    cs
}

/// Status row `i` as a control.
pub open spec fn status_control(v: InventoryView, active_face: bool, i: int) -> ControlSpec<
    ClickAction,
> {
    let kind = status_row_kind(i);
    ctl(
        kind,
        status_row_label(i),
        Some(v.status_row_value(i)),
        Some(status_icon_path(i, kind)),
        v.focus_area == FocusArea::Items && v.selected_status == i,
        kind == MenuControlKind::OptionToggle || kind == MenuControlKind::OptionChoice,
        on_face(active_face, ClickAction::StatusRow(i as usize)),
    )
}

/// The rows the Status pane shows, each with its row number: the window of
/// `STATUS_VISIBLE_ROWS` rows starting at the scroll position. Rows outside
/// the window are not offered at all.
pub fn status_pane_rows(demo: &InventoryDemo, active_face: bool) -> (rows: Vec<
    (usize, ControlContent<ClickAction>),
>)
    requires
        demo@.wf(),
    ensures
        rows.len() == STATUS_VISIBLE_ROWS,
        forall|k: int|
            0 <= k < rows.len() ==> (#[trigger] rows@[k]).0 == demo@.status_scroll + k
                && rows@[k].1@ == status_control(demo@, active_face, demo@.status_scroll + k),
{
    let start = demo.status_scroll;
    let mut rows: Vec<(usize, ControlContent<ClickAction>)> = Vec::new();
    let mut k: usize = 0;
    while k < STATUS_VISIBLE_ROWS
        invariant
            demo@.wf(),
            start == demo@.status_scroll,
            k <= STATUS_VISIBLE_ROWS,
            rows.len() == k,
            forall|m: int|
                0 <= m < k ==> (#[trigger] rows@[m]).0 == start + m && rows@[m].1@
                    == status_control(demo@, active_face, start + m),
        decreases STATUS_VISIBLE_ROWS - k,
    {
        let i = start + k;
        let kind = status_kind(i);
        rows.push(
            (
                i,
                ControlContent {
                    kind: kind,
                    label: text(status_label(i)),
                    detail: Some(demo.status_value(i)),
                    icon: Some(text(status_icon(i, kind))),
                    selected: demo.focus_area == FocusArea::Items && demo.selected_status == i,
                    important: kind == MenuControlKind::OptionToggle || kind
                        == MenuControlKind::OptionChoice,
                    action: face_action(active_face, ClickAction::StatusRow(i)),
                },
            ),
        );
        k = k + 1;
    }
    rows
}

/// Number of scroll positions of the Status pane.
pub open spec fn status_scroll_slots() -> int {
    STATUS_ROW_COUNT - STATUS_VISIBLE_ROWS + 1
}

/// Segment `s` of the Status pane's scroll indicator.
pub open spec fn scrollbar_control(v: InventoryView, active_face: bool, s: int) -> ControlSpec<
    ClickAction,
> {
    ctl(
        MenuControlKind::Scrollbar,
        ""@,
        None,
        None,
        s == v.status_scroll,
        s == v.status_scroll,
        on_face(active_face, ClickAction::StatusScrollTo(s as usize)),
    )
}

/// The segments of the Status pane's scroll indicator, one per scroll
/// position, top to bottom.
pub fn status_scrollbar_controls(demo: &InventoryDemo, active_face: bool) -> (cs: Vec<
    ControlContent<ClickAction>,
>)
    ensures
        cs.len() == status_scroll_slots(),
        forall|s: int|
            0 <= s < cs.len() ==> (#[trigger] cs@[s])@ == scrollbar_control(
                demo@,
                active_face,
                s,
            ),
{
    let slots = STATUS_ROW_COUNT - STATUS_VISIBLE_ROWS + 1;
    let mut cs: Vec<ControlContent<ClickAction>> = Vec::new();
    let mut s: usize = 0;
    while s < slots
        invariant
            slots == status_scroll_slots(),
            s <= slots,
            cs.len() == s,
            forall|m: int|
                0 <= m < s ==> (#[trigger] cs@[m])@ == scrollbar_control(demo@, active_face, m),
        decreases slots - s,
    {
        let at = s == demo.status_scroll;
        cs.push(ControlContent {
            kind: MenuControlKind::Scrollbar,
            label: text(""),
            detail: None,
            icon: None,
            selected: at,
            important: at,
            action: face_action(active_face, ClickAction::StatusScrollTo(s)),
        });
        s = s + 1;
    }
    cs
}

} // verus!
