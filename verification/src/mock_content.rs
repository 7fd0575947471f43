//! What each face of the mock inventory shows: its controls in drawing order
//! with the action a pointer press on each asks for. The host attaches a
//! rectangle to each entry by its position in the list.
//!
//! Only the front face carries actions; on the items grid, entries that are
//! not owned and reserved cells carry none either.

use vstd::prelude::*;
use crate::menu::MenuControlKind;
use crate::mock_data::{
    mock_item, mock_item_kind, mock_page_label, ItemKind, MockAction, DETAIL_VISIBLE_LINES,
    ITEM_COUNT,
};
use crate::mock_inventory::{
    detail_lines, item_slot_detail, item_slot_label, page_left_of, page_right_of, MockDemo,
    MockView,
};
use crate::page_content::{ctl, on_face, ControlContent, ControlSpec};

verus! {

fn text(s: &str) -> (r: String)
    ensures
        r@ == s@,
{
    String::from_str(s)
}

fn face_action(enabled: bool, a: MockAction) -> (r: Option<MockAction>)
    ensures
        r == on_face(enabled, a),
{
    if enabled {
        Some(a)
    } else {
        None
    }
}

/// The edge prompt turning the cube left (`i == 0`) or right, labelled with
/// the page it brings to the front.
pub open spec fn mock_edge_control(v: MockView, active_face: bool, i: int) -> ControlSpec<
    MockAction,
> {
    let a = if i == 0 {
        MockAction::EdgeLeft
    } else {
        MockAction::EdgeRight
    };
    ctl(
        MenuControlKind::Action,
        if i == 0 {
            "<\n"@ + mock_page_label(page_left_of(v.page))
        } else {
            ">\n"@ + mock_page_label(page_right_of(v.page))
        },
        Some(
            if i == 0 {
                "turn cube left"@
            } else {
                "turn cube right"@
            },
        ),
        None,
        active_face && v.selected == a,
        active_face,
        on_face(active_face, a),
    )
}

/// The two edge prompts, left then right.
pub fn mock_edge_controls(demo: &MockDemo, active_face: bool) -> (cs: Vec<
    ControlContent<MockAction>,
>)
    ensures
        cs.len() == 2,
        forall|i: int|
            0 <= i < 2 ==> (#[trigger] cs@[i])@ == mock_edge_control(demo@, active_face, i),
{
    let left = MockDemo::page_on_viewer_left(demo.page);
    let right = MockDemo::page_on_viewer_right(demo.page);
    let mut cs: Vec<ControlContent<MockAction>> = Vec::new();
    cs.push(ControlContent {
        kind: MenuControlKind::Action,
        label: text("<\n").concat(left.label()),
        detail: Some(text("turn cube left")),
        icon: None,
        selected: active_face && demo.selected == MockAction::EdgeLeft,
        important: active_face,
        action: face_action(active_face, MockAction::EdgeLeft),
    });
    cs.push(ControlContent {
        kind: MenuControlKind::Action,
        label: text(">\n").concat(right.label()),
        detail: Some(text("turn cube right")),
        icon: None,
        selected: active_face && demo.selected == MockAction::EdgeRight,
        important: active_face,
        action: face_action(active_face, MockAction::EdgeRight),
    });
    cs
}

/// Whether entry `i` of the item grid can be picked on a face: only owned,
/// non-reserved entries on the front face.
pub open spec fn mock_item_pickable(v: MockView, active_face: bool, i: int) -> bool {
    active_face && v.has(i) && mock_item_kind(i) != ItemKind::Reserved
}

/// Cell `i` of the item grid.
pub open spec fn mock_item_control(v: MockView, active_face: bool, i: int) -> ControlSpec<
    MockAction,
> {
    ctl(
        MenuControlKind::Item,
        v.slot_label(i),
        Some(v.slot_detail(i)),
        None,
        active_face && v.selected == MockAction::Item(i as usize),
        v.is_equipped(i),
        on_face(mock_item_pickable(v, active_face, i), MockAction::Item(i as usize)),
    )
}

/// The item grid, row by row.
pub fn mock_items_controls(demo: &MockDemo, active_face: bool) -> (cs: Vec<
    ControlContent<MockAction>,
>)
    requires
        demo@.wf(),
    ensures
        cs.len() == ITEM_COUNT,
        forall|i: int|
            0 <= i < cs.len() ==> (#[trigger] cs@[i])@ == mock_item_control(demo@, active_face, i),
{
    let mut cs: Vec<ControlContent<MockAction>> = Vec::new();
    let mut i: usize = 0;
    while i < ITEM_COUNT
        invariant
            demo@.wf(),
            i <= ITEM_COUNT,
            cs.len() == i,
            forall|k: int|
                0 <= k < i ==> (#[trigger] cs@[k])@ == mock_item_control(demo@, active_face, k),
        decreases ITEM_COUNT - i,
    {
        let item = mock_item(i);
        let pickable = active_face && demo.has(i) && item.kind != ItemKind::Reserved;
        cs.push(ControlContent {
            kind: MenuControlKind::Item,
            label: item_slot_label(demo, i),
            detail: Some(item_slot_detail(demo, i)),
            icon: None,
            selected: active_face && demo.selected == MockAction::Item(i),
            important: demo.is_equipped(i),
            action: face_action(pickable, MockAction::Item(i)),
        });
        i = i + 1;
    }
    cs
}

/// Whether the selected entry's description is longer than its pane, so the
/// pane shows its scroll arrows.
pub open spec fn detail_scrollable(v: MockView) -> bool {
    v.detail_lines(v.selected_index()).len() > DETAIL_VISIBLE_LINES
}

/// Scroll arrow `i` of the description pane: up, then down.
pub open spec fn detail_arrow_control(v: MockView, active_face: bool, i: int) -> ControlSpec<
    MockAction,
> {
    let a = if i == 0 {
        MockAction::DetailScrollUp
    } else {
        MockAction::DetailScrollDown
    };
    ctl(
        MenuControlKind::Scrollbar,
        if i == 0 {
            "^"@
        } else {
            "v"@
        },
        None,
        None,
        v.selected == a,
        false,
        on_face(active_face, a),
    )
}

/// The description pane's scroll arrows, present only when the description
/// does not fit.
pub fn detail_arrow_controls(demo: &MockDemo, active_face: bool) -> (cs: Vec<
    ControlContent<MockAction>,
>)
    ensures
        cs.len() == (if detail_scrollable(demo@) {
            2int
        } else {
            0int
        }),
        forall|i: int|
            0 <= i < cs.len() ==> (#[trigger] cs@[i])@ == detail_arrow_control(
                demo@,
                active_face,
                i,
            ),
{
    let mut cs: Vec<ControlContent<MockAction>> = Vec::new();
    let idx = demo.selected_index();
    let lines = detail_lines(demo, idx);
    proof {
        assert(lines.len() == lines.deep_view().len());
    }
    if lines.len() > DETAIL_VISIBLE_LINES {
        cs.push(ControlContent {
            kind: MenuControlKind::Scrollbar,
            label: text("^"),
            detail: None,
            icon: None,
            selected: demo.selected == MockAction::DetailScrollUp,
            important: false,
            action: face_action(active_face, MockAction::DetailScrollUp),
        });
        cs.push(ControlContent {
            kind: MenuControlKind::Scrollbar,
            label: text("v"),
            detail: None,
            icon: None,
            selected: demo.selected == MockAction::DetailScrollDown,
            important: false,
            action: face_action(active_face, MockAction::DetailScrollDown),
        });
    }
    cs
}

/// Label of placeholder option `i` of the system face.
pub open spec fn system_option_label(i: int) -> Seq<char> {
    if i == 0 {
        "Video settings"@
    } else if i == 1 {
        "Audio settings"@
    } else if i == 2 {
        "Controls"@
    } else {
        "Return to title"@
    }
}

/// Option `i` of the system face.
pub open spec fn system_control(v: MockView, active_face: bool, i: int) -> ControlSpec<
    MockAction,
> {
    ctl(
        MenuControlKind::OptionChoice,
        system_option_label(i),
        Some("placeholder host action"@),
        None,
        active_face && v.selected == MockAction::Placeholder(i as usize),
        false,
        on_face(active_face, MockAction::Placeholder(i as usize)),
    )
}

/// The system face's four placeholder options.
pub fn system_page_controls(demo: &MockDemo, active_face: bool) -> (cs: Vec<
    ControlContent<MockAction>,
>)
    ensures
        cs.len() == 4,
        forall|i: int|
            0 <= i < cs.len() ==> (#[trigger] cs@[i])@ == system_control(demo@, active_face, i),
{
    let labels = ["Video settings", "Audio settings", "Controls", "Return to title"];
    let mut cs: Vec<ControlContent<MockAction>> = Vec::new();
    let mut i: usize = 0;
    while i < 4
        invariant
            i <= 4,
            cs.len() == i,
            forall|k: int| 0 <= k < 4 ==> (#[trigger] labels@[k])@ == system_option_label(k),
            forall|k: int|
                0 <= k < i ==> (#[trigger] cs@[k])@ == system_control(demo@, active_face, k),
        decreases 4 - i,
    {
        cs.push(ControlContent {
            kind: MenuControlKind::OptionChoice,
            label: text(labels[i]),
            detail: Some(text("placeholder host action")),
            icon: None,
            selected: active_face && demo.selected == MockAction::Placeholder(i),
            important: false,
            action: face_action(active_face, MockAction::Placeholder(i)),
        });
        i = i + 1;
    }
    cs
}

} // verus!
