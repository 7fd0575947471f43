//! State of the Ocarina-style pause menu: the page on show, the cursor, the
//! equipment worn, the items on the three C-buttons, the save prompt, and the
//! equip animation's current step.
//!
//! The flip of the save prompt and the flight of an equipped icon are
//! animated by the host; the menu only learns where the animation stands
//! (whether the flip has passed its midpoint, whether it is back at rest, and
//! when an equip phase has played out) and decides what follows.

use vstd::prelude::*;
use crate::inventory::next_revision;
use crate::menu::MenuControlKind;
use crate::mock_data::PageTurn;
use crate::oot_data::{
    arrow_label, c_button_index, c_button_label, equip_choice, equip_choice_adult_usable,
    equip_choice_name, equip_slot_label, equip_slot_name, map_marker, map_marker_name, oot_item,
    oot_item_adult_usable, oot_item_name, oot_page_from_index, oot_page_index, oot_page_label,
    quest_icon, quest_icon_name, song, song_name, song_pattern, spec_arrow_kind,
    spec_bow_item_index, spec_c_slot_family, usable_now, arrow_kind, c_slot_family,
    default_item_action_index, CButton, OotPage, EQUIP_CHOICE_COUNT, EQUIP_SLOT_COUNT,
    OOT_ITEM_COUNT, OOT_MAP_MARKER_COUNT, QUEST_ICON_COUNT, SONG_COUNT,
};

verus! {

/// What a control of the pause menu does.
#[derive(Clone, Copy, Debug, PartialEq, Eq, Hash, Structural)]
pub enum OotAction {
    EdgeLeft,
    EdgeRight,
    AssignC(CButton),
    Save,
    SaveYes,
    SaveNo,
    Item(usize),
    EquipChoice { slot: usize, choice: usize },
    MapMarker(usize),
    QuestIcon(usize),
    Song(usize),
}

/// Step of the animation that carries an item to its C-button: magic arrows
/// first glow into the bow, which then flies to the button.
#[derive(Clone, Copy, Debug, PartialEq, Eq, Hash, Structural)]
pub enum EquipAnimPhase {
    ItemToButton,
    ArrowGlowToBow,
    ArrowBowHold,
    BowToButton,
}

/// An assignment to a C-button that is being animated.
#[derive(Clone, Copy, Debug, PartialEq, Eq, Hash, Structural)]
pub struct EquipAnim {
    pub item_idx: usize,
    pub target_button: CButton,
    pub phase: EquipAnimPhase,
}

/// Actions whose indices name an entry of their table.
pub open spec fn oot_action_valid(a: OotAction) -> bool {
    match a {
        OotAction::Item(i) => i < OOT_ITEM_COUNT,
        OotAction::EquipChoice { slot, choice } => slot < EQUIP_SLOT_COUNT && choice
            < EQUIP_CHOICE_COUNT,
        OotAction::MapMarker(i) => i < OOT_MAP_MARKER_COUNT,
        OotAction::QuestIcon(i) => i < QUEST_ICON_COUNT,
        OotAction::Song(i) => i < SONG_COUNT,
        _ => true,
    }
}

pub open spec fn item_usable(i: int) -> bool {
    usable_now(oot_item_adult_usable(i))
}

pub open spec fn choice_usable(slot: int, choice: int) -> bool {
    usable_now(equip_choice_adult_usable(slot * 3 + choice))
}

pub open spec fn oot_left_of(p: OotPage) -> OotPage {
    oot_page_from_index(oot_page_index(p) + 1)
}

pub open spec fn oot_right_of(p: OotPage) -> OotPage {
    oot_page_from_index(oot_page_index(p) - 1)
}

pub open spec fn oot_turn_target(p: OotPage, dir: PageTurn) -> OotPage {
    match dir {
        PageTurn::ViewerLeft => oot_left_of(p),
        PageTurn::ViewerRight => oot_right_of(p),
    }
}

pub open spec fn oot_default_action(p: OotPage) -> OotAction {
    match p {
        OotPage::Items => OotAction::Item(spec_bow_item_index()),
        OotPage::Equipment => OotAction::EquipChoice { slot: 0, choice: 1 },
        OotPage::MapPage => OotAction::MapMarker(0),
        OotPage::Quest => OotAction::QuestIcon(0),
    }
}

/// Index of the first button other than `b` whose item shares `item`'s
/// family, or -1.
pub open spec fn first_same_family(vals: Seq<usize>, item: usize, b: int) -> int {
    let fam = spec_c_slot_family(item);
    if b != 0 && spec_c_slot_family(vals[0]) == fam {
        0
    } else if b != 1 && spec_c_slot_family(vals[1]) == fam {
        1
    } else if b != 2 && spec_c_slot_family(vals[2]) == fam {
        2
    } else {
        -1
    }
}

/// The three C-button items after `item` is put on button `b`: a button
/// that already held the same family takes over `b`'s previous item.
pub open spec fn assign_unique(vals: Seq<usize>, item: usize, b: int) -> Seq<usize> {
    let j = first_same_family(vals, item, b);
    let swapped = if j >= 0 {
        vals.update(j, vals[b]).update(b, vals[j])
    } else {
        vals
    };
    swapped.update(b, item)
}

/// No two C-buttons hold items of the same family.
pub open spec fn families_distinct(vals: Seq<usize>) -> bool {
    &&& spec_c_slot_family(vals[0]) != spec_c_slot_family(vals[1])
    &&& spec_c_slot_family(vals[0]) != spec_c_slot_family(vals[2])
    &&& spec_c_slot_family(vals[1]) != spec_c_slot_family(vals[2])
}

/// A C-button item names an item the current Link may use.
pub open spec fn c_item_ok(i: usize) -> bool {
    i < OOT_ITEM_COUNT && item_usable(i as int)
}

pub open spec fn default_status() -> Seq<char> {
    "Complete inventory demo. Pick an item, assign it to C, or press B to save."@
}

pub open spec fn returned_status() -> Seq<char> {
    "Returned to the pause menu."@
}

/// Putting an item on a C-button keeps the buttons' families distinct, puts
/// the item on that button, and leaves every other button with its own item
/// or the item the target button held before.
pub proof fn lemma_assign_unique(vals: Seq<usize>, item: usize, b: int)
    requires
        vals.len() == 3,
        0 <= b < 3,
        families_distinct(vals),
    ensures
        assign_unique(vals, item, b).len() == 3,
        assign_unique(vals, item, b)[b] == item,
        families_distinct(assign_unique(vals, item, b)),
        forall|k: int|
            0 <= k < 3 && k != b ==> #[trigger] assign_unique(vals, item, b)[k] == vals[k]
                || assign_unique(vals, item, b)[k] == vals[b],
{
}

/// Model of the pause menu.
#[verifier::ext_equal]
pub struct OotView {
    pub page: OotPage,
    pub selected: OotAction,
    pub equipped_sword: usize,
    pub equipped_shield: usize,
    pub equipped_tunic: usize,
    pub equipped_boots: usize,
    pub c_left: usize,
    pub c_down: usize,
    pub c_right: usize,
    pub save_prompt_open: bool,
    pub save_complete: bool,
    pub save_flip_past_half: bool,
    pub save_return_selection: OotAction,
    pub equip_anim: Option<EquipAnim>,
    pub status: Seq<char>,
    pub revision: u64,
}

/// The state the pause menu opens in.
pub open spec fn oot_default_view() -> OotView {
    OotView {
        page: OotPage::Items,
        selected: OotAction::Item(3),
        equipped_sword: 1,
        equipped_shield: 1,
        equipped_tunic: 0,
        equipped_boots: 0,
        c_left: 9,
        c_down: 7,
        c_right: 3,
        save_prompt_open: false,
        save_complete: false,
        save_flip_past_half: false,
        save_return_selection: OotAction::Item(3),
        equip_anim: None,
        status: default_status(),
        revision: 0,
    }
}

impl OotView {
    pub open spec fn c_values(self) -> Seq<usize> {
        seq![self.c_left, self.c_down, self.c_right]
    }

    pub open spec fn with_c_values(self, vals: Seq<usize>) -> OotView {
        OotView { c_left: vals[0], c_down: vals[1], c_right: vals[2], ..self }
    }

    pub open spec fn equipped(self, slot: int) -> usize {
        if slot == 0 {
            self.equipped_sword
        } else if slot == 1 {
            self.equipped_shield
        } else if slot == 2 {
            self.equipped_tunic
        } else {
            self.equipped_boots
        }
    }

    /// Equipment slot `slot` holds an option of its table that the current
    /// Link may use.
    pub open spec fn equipment_ok(self, slot: int) -> bool {
        self.equipped(slot) < EQUIP_CHOICE_COUNT && choice_usable(slot, self.equipped(slot) as int)
    }

    /// Table indices are in range, C-buttons hold distinct families, and
    /// everything equipped, assigned or being assigned is usable by the
    /// current Link.
    pub open spec fn wf(self) -> bool {
        &&& oot_action_valid(self.selected)
        &&& oot_action_valid(self.save_return_selection)
        &&& self.equipment_ok(0) && self.equipment_ok(1) && self.equipment_ok(2)
            && self.equipment_ok(3)
        &&& c_item_ok(self.c_left) && c_item_ok(self.c_down) && c_item_ok(self.c_right)
        &&& families_distinct(self.c_values())
        &&& (self.equip_anim matches Some(a) ==> a.item_idx < OOT_ITEM_COUNT && item_usable(
            a.item_idx as int,
        ))
    }

    pub open spec fn bumped(self) -> OotView {
        OotView { revision: next_revision(self.revision), ..self }
    }

    pub open spec fn with_status(self, s: Seq<char>) -> OotView {
        OotView { status: s, ..self }
    }

    pub open spec fn with_selected(self, a: OotAction) -> OotView {
        OotView { selected: a, ..self }
    }

    /// The prompt face shows while the prompt is open or the flip has not
    /// yet come back past its midpoint.
    pub open spec fn save_prompt_face_visible(self) -> bool {
        self.save_flip_past_half || self.save_prompt_open
    }

    /// The save prompt captures input while it is open or still showing.
    pub open spec fn save_modal_active(self) -> bool {
        self.save_prompt_open || self.save_prompt_face_visible()
    }

    pub open spec fn is_focusable(self, a: OotAction) -> bool {
        match a {
            OotAction::EdgeLeft | OotAction::EdgeRight => !self.save_modal_active(),
            OotAction::AssignC(_) | OotAction::Save => false,
            OotAction::SaveYes | OotAction::SaveNo => self.save_prompt_face_visible(),
            OotAction::Item(_) => self.page == OotPage::Items,
            OotAction::EquipChoice { .. } => self.page == OotPage::Equipment,
            OotAction::MapMarker(_) => self.page == OotPage::MapPage,
            OotAction::QuestIcon(_) | OotAction::Song(_) => self.page == OotPage::Quest,
        }
    }

    /// Status text shown when `a` is pointed at.
    pub open spec fn describe(self, a: OotAction) -> Seq<char> {
        match a {
            OotAction::EdgeLeft => "Rotate left to "@ + oot_page_label(oot_left_of(self.page)) + "."@,
            OotAction::EdgeRight => "Rotate right to "@ + oot_page_label(oot_right_of(self.page))
                + "."@,
            OotAction::AssignC(b) => "Assign selected item to C-"@ + c_button_label(b) + "."@,
            OotAction::Save => "Open the save confirmation."@,
            OotAction::SaveYes => "Save and close the confirmation."@,
            OotAction::SaveNo => "Cancel saving."@,
            OotAction::Item(i) => if item_usable(i as int) {
                oot_item_name(i as int)
            } else {
                oot_item_name(i as int) + " is child-only and disabled for Adult Link."@
            },
            OotAction::EquipChoice { slot, choice } => {
                let name = equip_choice_name(slot * 3 + choice);
                if choice_usable(slot as int, choice as int) {
                    equip_slot_name(slot as int) + ": "@ + name
                } else {
                    name + " is child-only and disabled for Adult Link."@
                }
            },
            OotAction::MapMarker(i) => map_marker_name(i as int),
            OotAction::QuestIcon(i) => quest_icon_name(i as int),
            OotAction::Song(i) => song_name(i as int),
        }
    }

    pub open spec fn focusable_or_default(self, a: OotAction) -> OotAction {
        if self.is_focusable(a) {
            a
        } else {
            oot_default_action(self.page)
        }
    }

    pub open spec fn restored(self) -> OotView {
        self.with_selected(self.focusable_or_default(self.save_return_selection))
    }

    pub open spec fn with_equipped(self, slot: int, choice: usize) -> OotView {
        if slot == 0 {
            OotView { equipped_sword: choice, ..self }
        } else if slot == 1 {
            OotView { equipped_shield: choice, ..self }
        } else if slot == 2 {
            OotView { equipped_tunic: choice, ..self }
        } else {
            OotView { equipped_boots: choice, ..self }
        }
    }

    pub open spec fn after_choose_save(self, a: OotAction, text: Seq<char>) -> OotView {
        if self.selected != a {
            self.with_selected(a).with_status(text).bumped()
        } else {
            self
        }
    }

    pub open spec fn after_goto_page(self, page: OotPage) -> OotView {
        if self.page != page {
            OotView {
                page: page,
                selected: oot_default_action(page),
                status: oot_page_label(page) + " page"@,
                ..self
            }.bumped()
        } else {
            self
        }
    }

    pub open spec fn after_turn_page(self, dir: PageTurn) -> OotView {
        self.after_goto_page(oot_turn_target(self.page, dir))
    }

    pub open spec fn after_turn_page_from_edge(self, dir: PageTurn) -> OotView {
        let target = oot_turn_target(self.page, dir);
        if self.page != target {
            OotView {
                page: target,
                selected: match dir {
                    PageTurn::ViewerLeft => OotAction::EdgeRight,
                    PageTurn::ViewerRight => OotAction::EdgeLeft,
                },
                status: oot_page_label(target) + " page"@,
                ..self
            }.bumped()
        } else {
            self
        }
    }

    /// A directional step taken while an edge prompt has the cursor: moving
    /// straight outwards turns the cube; any other step is left to spatial
    /// navigation (the result is `None`).
    pub open spec fn after_edge_step(self, dx: int, dy: int) -> Option<OotView> {
        if dy == 0 && self.selected == OotAction::EdgeLeft && dx < 0 {
            Some(self.after_turn_page_from_edge(PageTurn::ViewerLeft))
        } else if dy == 0 && self.selected == OotAction::EdgeRight && dx > 0 {
            Some(self.after_turn_page_from_edge(PageTurn::ViewerRight))
        } else {
            None
        }
    }

    pub open spec fn after_hover(self, a: OotAction) -> OotView {
        let sel = if self.is_focusable(a) {
            a
        } else {
            self.selected
        };
        let text = self.describe(a);
        let moved = self.with_selected(sel).with_status(text);
        if sel != self.selected || text != self.status {
            moved.bumped()
        } else {
            moved
        }
    }

    pub open spec fn after_open_save_prompt(self) -> OotView {
        if self.save_prompt_open {
            self
        } else {
            OotView {
                save_return_selection: self.focusable_or_default(self.selected),
                save_prompt_open: true,
                save_complete: false,
                selected: OotAction::SaveYes,
                status: "Save? Choose Yes or No. The active page flips around its horizontal center line."@,
                ..self
            }.bumped()
        }
    }

    pub open spec fn after_confirm_save(self) -> OotView {
        if !self.save_prompt_open {
            self
        } else {
            OotView {
                save_complete: true,
                selected: OotAction::SaveNo,
                status: "Saved. Press A, B, Start, Enter, or Space to return."@,
                ..self
            }.bumped()
        }
    }

    pub open spec fn after_close_save_prompt(self, text: Seq<char>) -> OotView {
        if !self.save_modal_active() {
            self
        } else {
            OotView {
                save_prompt_open: false,
                selected: if self.selected == OotAction::SaveYes || self.selected
                    == OotAction::SaveNo {
                    self.selected
                } else {
                    OotAction::SaveNo
                },
                status: text,
                ..self
            }.bumped()
        }
    }

    pub open spec fn after_toggle_save_prompt(self) -> OotView {
        if self.save_prompt_open {
            self.after_close_save_prompt(returned_status())
        } else {
            self.after_open_save_prompt()
        }
    }

    pub open spec fn after_preview_unique(self, item: usize, b: int) -> OotView {
        self.with_c_values(assign_unique(self.c_values(), item, b))
    }

    pub open spec fn after_start_c_equip(self, item: usize, button: CButton) -> OotView {
        let name = oot_item_name(item as int);
        if !item_usable(item as int) {
            self.with_status(name + " cannot be assigned by Adult Link."@).bumped()
        } else {
            let arrow = spec_arrow_kind(item);
            let anim = EquipAnim {
                item_idx: item,
                target_button: button,
                phase: if arrow is Some {
                    EquipAnimPhase::ArrowGlowToBow
                } else {
                    EquipAnimPhase::ItemToButton
                },
            };
            let text = match arrow {
                Some(k) => arrow_label(k) + " magic is modifying the Fairy Bow for C-"@
                    + c_button_label(button) + "."@,
                None => "Equipping "@ + name + " to C-"@ + c_button_label(button) + "."@,
            };
            OotView { equip_anim: Some(anim), status: text, ..self }.after_preview_unique(
                item,
                c_button_index(button),
            ).bumped()
        }
    }

    pub open spec fn after_finish_c_equip(self, item: usize, button: CButton) -> OotView {
        OotView {
            equip_anim: None,
            status: "Assigned "@ + oot_item_name(item as int) + " to C-"@ + c_button_label(button)
                + "."@,
            ..self.after_preview_unique(item, c_button_index(button))
        }.bumped()
    }

    pub open spec fn after_assign_selected(self, button: CButton) -> OotView {
        match self.selected {
            OotAction::Item(i) => if !item_usable(i as int) {
                self.with_status(
                    oot_item_name(i as int) + " is disabled for Adult Link and cannot be assigned."@,
                ).bumped()
            } else {
                self.after_start_c_equip(i, button)
            },
            _ => self.with_status(
                "Move the cursor to an inventory item before assigning it to a C-button."@,
            ).bumped(),
        }
    }

    /// What activating `a` does once the cursor question is settled; `prev`
    /// is the selection before the click.
    pub open spec fn click_effect(self, a: OotAction, prev: OotAction) -> OotView {
        match a {
            OotAction::EdgeLeft => self.after_turn_page_from_edge(PageTurn::ViewerLeft),
            OotAction::EdgeRight => self.after_turn_page_from_edge(PageTurn::ViewerRight),
            OotAction::Item(i) => {
                let name = oot_item_name(i as int);
                self.with_status(
                    if !item_usable(i as int) {
                        name + " is visible for layout accuracy, but Adult Link cannot use it."@
                    } else {
                        name + " selected. Press Z/X/C to assign."@
                    },
                ).bumped()
            },
            OotAction::AssignC(b) => match prev {
                OotAction::Item(i) => self.after_start_c_equip(i, b),
                _ => self.with_status(
                    "Select an item first, then assign it to a C-button."@,
                ).bumped(),
            },
            OotAction::Save => self.after_open_save_prompt(),
            OotAction::SaveYes => if self.save_complete {
                self.after_close_save_prompt(returned_status())
            } else {
                self.after_confirm_save()
            },
            OotAction::SaveNo => if self.save_complete {
                self.after_close_save_prompt(returned_status())
            } else {
                self.after_close_save_prompt("Save cancelled. Returning to the pause menu."@)
            },
            OotAction::EquipChoice { slot, choice } => {
                let name = equip_choice_name(slot * 3 + choice);
                if !choice_usable(slot as int, choice as int) {
                    self.with_status(name + " is child-only in this Adult Link demo."@).bumped()
                } else {
                    self.with_equipped(slot as int, choice).with_status(
                        "Equipped "@ + name + "."@,
                    ).bumped()
                }
            },
            OotAction::MapMarker(i) => self.with_status(
                "Map marker: "@ + map_marker_name(i as int) + "."@,
            ).bumped(),
            OotAction::QuestIcon(i) => self.with_status(
                quest_icon_name(i as int) + " achieved."@,
            ).bumped(),
            OotAction::Song(i) => self.with_status(
                song_name(i as int) + " reminder: "@ + song_pattern(i as int),
            ).bumped(),
        }
    }

    pub open spec fn after_click(self, a: OotAction) -> OotView {
        let prev = self.selected;
        if self.is_focusable(a) {
            self.with_selected(a).click_effect(a, prev)
        } else {
            match a {
                OotAction::Item(i) => self.with_status(
                    oot_item_name(i as int) + " is child-only and disabled for Adult Link."@,
                ).bumped(),
                OotAction::EquipChoice { slot, choice } => self.with_status(
                    equip_choice_name(slot * 3 + choice)
                        + " is child-only and disabled for Adult Link."@,
                ).bumped(),
                _ => self.click_effect(a, prev),
            }
        }
    }

    /// The host's save-prompt flip moved: `past_half` tells whether it now
    /// shows the prompt side, `at_rest_closed` whether it came all the way back.
    pub open spec fn after_save_flip_moved(self, past_half: bool, at_rest_closed: bool) -> OotView {
        let was = self.save_prompt_face_visible();
        let s1 = OotView { save_flip_past_half: past_half, ..self };
        let s2 = if was && !s1.save_prompt_face_visible() && !s1.save_prompt_open {
            s1.restored()
        } else {
            s1
        };
        let on_save_control = s2.selected == OotAction::SaveYes || s2.selected
            == OotAction::SaveNo || s2.selected == OotAction::Save;
        if at_rest_closed && !s2.save_prompt_open {
            let s3 = if on_save_control {
                s2.restored()
            } else {
                s2
            };
            OotView { save_complete: false, ..s3 }
        } else if !s2.save_prompt_open && !s2.save_prompt_face_visible() && on_save_control {
            s2.restored()
        } else {
            s2
        }
    }

    /// The host finished playing the current equip phase.
    pub open spec fn after_equip_phase_done(self) -> OotView {
        match self.equip_anim {
            None => self,
            Some(anim) => match anim.phase {
                EquipAnimPhase::ArrowGlowToBow => OotView {
                    equip_anim: Some(EquipAnim { phase: EquipAnimPhase::ArrowBowHold, ..anim }),
                    ..self
                },
                EquipAnimPhase::ArrowBowHold => OotView {
                    equip_anim: Some(EquipAnim { phase: EquipAnimPhase::BowToButton, ..anim }),
                    ..self
                },
                _ => self.after_finish_c_equip(anim.item_idx, anim.target_button),
            },
        }
    }
}

/// The pause menu.
#[derive(Clone, Debug)]
pub struct OotDemo {
    pub page: OotPage,
    pub selected: OotAction,
    pub equipped_sword: usize,
    pub equipped_shield: usize,
    pub equipped_tunic: usize,
    pub equipped_boots: usize,
    pub c_left: usize,
    pub c_down: usize,
    pub c_right: usize,
    pub save_prompt_open: bool,
    pub save_complete: bool,
    pub save_flip_past_half: bool,
    pub save_return_selection: OotAction,
    pub equip_anim: Option<EquipAnim>,
    pub status: String,
    pub revision: u64,
}

impl View for OotDemo {
    type V = OotView;

    open spec fn view(&self) -> OotView {
        OotView {
            page: self.page,
            selected: self.selected,
            equipped_sword: self.equipped_sword,
            equipped_shield: self.equipped_shield,
            equipped_tunic: self.equipped_tunic,
            equipped_boots: self.equipped_boots,
            c_left: self.c_left,
            c_down: self.c_down,
            c_right: self.c_right,
            save_prompt_open: self.save_prompt_open,
            save_complete: self.save_complete,
            save_flip_past_half: self.save_flip_past_half,
            save_return_selection: self.save_return_selection,
            equip_anim: self.equip_anim,
            status: self.status@,
            revision: self.revision,
        }
    }
}

impl Default for OotDemo {
    fn default() -> (d: OotDemo)
        ensures
            d@ == oot_default_view(),
            d@.wf(),
    {
        let d = OotDemo {
            page: OotPage::Items,
            selected: OotAction::Item(3),
            equipped_sword: 1,
            equipped_shield: 1,
            equipped_tunic: 0,
            equipped_boots: 0,
            c_left: 9,
            c_down: 7,
            c_right: 3,
            save_prompt_open: false,
            save_complete: false,
            save_flip_past_half: false,
            save_return_selection: OotAction::Item(3),
            equip_anim: None,
            status: String::from_str(
                "Complete inventory demo. Pick an item, assign it to C, or press B to save.",
            ),
            revision: 0,
        };
        proof {
            assert(d@.equipped(0) == 1 && d@.equipped(1) == 1);
            assert(d@.equipped(2) == 0 && d@.equipped(3) == 0);
            assert(d@.c_values() =~= seq![9usize, 7, 3]);
        }
        d
    }
}

impl OotDemo {
    pub fn bump(&mut self)
        ensures
            final(self)@ == old(self)@.bumped(),
    {
        self.revision = self.revision.wrapping_add(1);
    }

    /// Whether the save prompt captures input.
    pub fn save_modal_active(&self) -> (b: bool)
        ensures
            b == self@.save_modal_active(),
    {
        self.save_prompt_open || self.save_prompt_face_visible()
    }

    /// Whether the prompt side of the save flip is showing.
    pub fn save_prompt_face_visible(&self) -> (b: bool)
        ensures
            b == self@.save_prompt_face_visible(),
    {
        self.save_flip_past_half || self.save_prompt_open
    }

    pub fn choose_save_yes(&mut self)
        requires
            old(self)@.wf(),
        ensures
            final(self)@ == old(self)@.after_choose_save(OotAction::SaveYes, "Save: YES"@),
            final(self)@.wf(),
    {
        if self.selected != OotAction::SaveYes {
            self.selected = OotAction::SaveYes;
            self.status = String::from_str("Save: YES");
            self.bump();
        }
    }

    pub fn choose_save_no(&mut self)
        requires
            old(self)@.wf(),
        ensures
            final(self)@ == old(self)@.after_choose_save(OotAction::SaveNo, "Save: NO"@),
            final(self)@.wf(),
    {
        if self.selected != OotAction::SaveNo {
            self.selected = OotAction::SaveNo;
            self.status = String::from_str("Save: NO");
            self.bump();
        }
    }

    /// The four pages in ring order.
    pub fn pages() -> (ps: [OotPage; 4])
        ensures
            forall|i: int| 0 <= i < 4 ==> ps@[i] == oot_page_from_index(i),
    {
        [OotPage::Items, OotPage::MapPage, OotPage::Quest, OotPage::Equipment]
    }

    pub fn default_action_for_page(page: OotPage) -> (a: OotAction)
        ensures
            a == oot_default_action(page),
    {
        match page {
            OotPage::Items => OotAction::Item(default_item_action_index()),
            OotPage::Equipment => OotAction::EquipChoice { slot: 0, choice: 1 },
            OotPage::MapPage => OotAction::MapMarker(0),
            OotPage::Quest => OotAction::QuestIcon(0),
        }
    }

    fn page_status(page: OotPage) -> (s: String)
        ensures
            s@ == oot_page_label(page) + " page"@,
    {
        String::from_str(page.label()).concat(" page")
    }

    pub fn goto_page(&mut self, page: OotPage)
        requires
            old(self)@.wf(),
        ensures
            final(self)@ == old(self)@.after_goto_page(page),
            final(self)@.wf(),
    {
        if self.page != page {
            self.page = page;
            self.selected = Self::default_action_for_page(page);
            self.status = Self::page_status(page);
            self.bump();
        }
    }

    /// The page physically on the viewer's left inside the cube: the next
    /// index of the page ring.
    pub fn page_on_viewer_left(page: OotPage) -> (p: OotPage)
        ensures
            p == oot_left_of(page),
    {
        OotPage::from_index(page.index() + 1)
    }

    /// The page physically on the viewer's right: the previous ring index.
    pub fn page_on_viewer_right(page: OotPage) -> (p: OotPage)
        ensures
            p == oot_right_of(page),
    {
        OotPage::from_index(page.index() - 1)
    }

    pub fn turn_page(&mut self, direction: PageTurn)
        requires
            old(self)@.wf(),
        ensures
            final(self)@ == old(self)@.after_turn_page(direction),
            final(self)@.wf(),
    {
        let target = match direction {
            PageTurn::ViewerLeft => Self::page_on_viewer_left(self.page),
            PageTurn::ViewerRight => Self::page_on_viewer_right(self.page),
        };
        self.goto_page(target);
    }

    /// Rotates through an edge prompt; the cursor lands on the facing prompt
    /// of the page that comes into view.
    pub fn turn_page_from_edge(&mut self, direction: PageTurn)
        requires
            old(self)@.wf(),
        ensures
            final(self)@ == old(self)@.after_turn_page_from_edge(direction),
            final(self)@.wf(),
    {
        let target = match direction {
            PageTurn::ViewerLeft => Self::page_on_viewer_left(self.page),
            PageTurn::ViewerRight => Self::page_on_viewer_right(self.page),
        };
        if self.page != target {
            self.page = target;
            self.selected = match direction {
                PageTurn::ViewerLeft => OotAction::EdgeRight,
                PageTurn::ViewerRight => OotAction::EdgeLeft,
            };
            self.status = Self::page_status(target);
            self.bump();
        }
    }

    pub fn next_page(&mut self)
        requires
            old(self)@.wf(),
        ensures
            final(self)@ == old(self)@.after_turn_page(PageTurn::ViewerRight),
            final(self)@.wf(),
    {
        self.turn_page(PageTurn::ViewerRight);
    }

    pub fn previous_page(&mut self)
        requires
            old(self)@.wf(),
        ensures
            final(self)@ == old(self)@.after_turn_page(PageTurn::ViewerLeft),
            final(self)@.wf(),
    {
        self.turn_page(PageTurn::ViewerLeft);
    }

    pub fn focusable_action_or_default(&self, action: OotAction) -> (a: OotAction)
        ensures
            a == self@.focusable_or_default(action),
    {
        if action.is_focusable_for(self) {
            action
        } else {
            Self::default_action_for_page(self.page)
        }
    }

    pub fn restore_normal_selection_after_save(&mut self)
        requires
            old(self)@.wf(),
        ensures
            final(self)@ == old(self)@.restored(),
            final(self)@.wf(),
    {
        self.selected = self.focusable_action_or_default(self.save_return_selection);
    }
}

impl OotAction {
    /// Whether every index this action carries names an entry of its table.
    pub fn is_valid(self) -> (b: bool)
        ensures
            b == oot_action_valid(self),
    {
        match self {
            OotAction::Item(i) => i < OOT_ITEM_COUNT,
            OotAction::EquipChoice { slot, choice } => slot < EQUIP_SLOT_COUNT && choice
                < EQUIP_CHOICE_COUNT,
            OotAction::MapMarker(i) => i < OOT_MAP_MARKER_COUNT,
            OotAction::QuestIcon(i) => i < QUEST_ICON_COUNT,
            OotAction::Song(i) => i < SONG_COUNT,
            _ => true,
        }
    }

    /// Whether the cursor may rest on this control.
    pub fn is_focusable_for(self, demo: &OotDemo) -> (b: bool)
        ensures
            b == demo@.is_focusable(self),
    {
        match self {
            OotAction::EdgeLeft | OotAction::EdgeRight => !demo.save_modal_active(),
            OotAction::AssignC(_) | OotAction::Save => false,
            OotAction::SaveYes | OotAction::SaveNo => demo.save_prompt_face_visible(),
            OotAction::Item(_) => demo.page == OotPage::Items,
            OotAction::EquipChoice { .. } => demo.page == OotPage::Equipment,
            OotAction::MapMarker(_) => demo.page == OotPage::MapPage,
            OotAction::QuestIcon(_) | OotAction::Song(_) => demo.page == OotPage::Quest,
        }
    }

    /// Status text for pointing at this control.
    pub fn describe_hover(self, demo: &OotDemo) -> (s: String)
        requires
            oot_action_valid(self),
        ensures
            s@ == demo@.describe(self),
    {
        match self {
            OotAction::EdgeLeft => String::from_str("Rotate left to ").concat(
                OotDemo::page_on_viewer_left(demo.page).label(),
            ).concat("."),
            OotAction::EdgeRight => String::from_str("Rotate right to ").concat(
                OotDemo::page_on_viewer_right(demo.page).label(),
            ).concat("."),
            OotAction::AssignC(button) => String::from_str("Assign selected item to C-").concat(
                button.label(),
            ).concat("."),
            OotAction::Save => String::from_str("Open the save confirmation."),
            OotAction::SaveYes => String::from_str("Save and close the confirmation."),
            OotAction::SaveNo => String::from_str("Cancel saving."),
            OotAction::Item(idx) => {
                let item = oot_item(idx);
                if item.usable_by_current_link() {
                    String::from_str(item.name)
                } else {
                    String::from_str(item.name).concat(
                        " is child-only and disabled for Adult Link.",
                    )
                }
            },
            OotAction::EquipChoice { slot, choice } => {
                let option = equip_choice(slot, choice);
                if option.usable_by_current_link() {
                    String::from_str(equip_slot_label(slot)).concat(": ").concat(option.name)
                } else {
                    String::from_str(option.name).concat(
                        " is child-only and disabled for Adult Link.",
                    )
                }
            },
            OotAction::MapMarker(idx) => String::from_str(map_marker(idx).name),
            OotAction::QuestIcon(idx) => String::from_str(quest_icon(idx).name),
            OotAction::Song(idx) => String::from_str(song(idx).name),
        }
    }
}

impl OotDemo {
    /// Points at `action`: the cursor moves there when it may rest on it,
    /// and the status describes it; the revision moves only when something
    /// visible changed.
    pub fn hover(&mut self, action: OotAction)
        requires
            old(self)@.wf(),
            oot_action_valid(action),
        ensures
            final(self)@ == old(self)@.after_hover(action),
            final(self)@.wf(),
    {
        let old_selected = self.selected;
        let old_status = self.status.clone();
        if action.is_focusable_for(self) {
            self.selected = action;
        }
        self.status = action.describe_hover(self);
        if self.selected != old_selected || self.status != old_status {
            self.bump();
        }
    }

    /// Opens the save prompt, remembering where the cursor should return.
    pub fn open_save_prompt(&mut self)
        requires
            old(self)@.wf(),
        ensures
            final(self)@ == old(self)@.after_open_save_prompt(),
            final(self)@.wf(),
    {
        if self.save_prompt_open {
            return;
        }
        self.save_return_selection = self.focusable_action_or_default(self.selected);
        self.save_prompt_open = true;
        self.save_complete = false;
        self.selected = OotAction::SaveYes;
        self.status = String::from_str(
            "Save? Choose Yes or No. The active page flips around its horizontal center line.",
        );
        self.bump();
    }

    /// Saves: the prompt stays up with an acknowledgement until dismissed.
    pub fn confirm_save(&mut self)
        requires
            old(self)@.wf(),
        ensures
            final(self)@ == old(self)@.after_confirm_save(),
            final(self)@.wf(),
    {
        if !self.save_prompt_open {
            return;
        }
        self.save_complete = true;
        self.selected = OotAction::SaveNo;
        self.status = String::from_str("Saved. Press A, B, Start, Enter, or Space to return.");
        self.bump();
    }

    /// Starts the flip back to the pause page, showing `status`; the cursor
    /// stays on the prompt's buttons until the flip passes its midpoint.
    pub fn close_save_prompt(&mut self, status: &str)
        requires
            old(self)@.wf(),
        ensures
            final(self)@ == old(self)@.after_close_save_prompt(status@),
            final(self)@.wf(),
    {
        if !self.save_modal_active() {
            return;
        }
        self.save_prompt_open = false;
        if !(self.selected == OotAction::SaveYes || self.selected == OotAction::SaveNo) {
            self.selected = OotAction::SaveNo;
        }
        self.status = String::from_str(status);
        self.bump();
    }

    pub fn toggle_save_prompt(&mut self)
        requires
            old(self)@.wf(),
        ensures
            final(self)@ == old(self)@.after_toggle_save_prompt(),
            final(self)@.wf(),
    {
        if self.save_prompt_open {
            self.close_save_prompt("Returned to the pause menu.");
        } else {
            self.open_save_prompt();
        }
    }

    /// Puts `item_idx` on C-button `button_idx`; a button that already held
    /// the same family (the bow and its arrows count as one) takes the
    /// target button's previous item, so no family is ever shown twice.
    pub fn preview_unique_c_button(&mut self, item_idx: usize, button_idx: usize)
        requires
            old(self)@.wf(),
            button_idx < 3,
        ensures
            final(self)@ == old(self)@.after_preview_unique(item_idx, button_idx as int),
            c_item_ok(item_idx) ==> final(self)@.wf(),
    {
        let fam = c_slot_family(item_idx);
        let mut values: [usize; 3] = [self.c_left, self.c_down, self.c_right];
        let j: usize = if button_idx != 0 && c_slot_family(values[0]) == fam {
            0
        } else if button_idx != 1 && c_slot_family(values[1]) == fam {
            1
        } else if button_idx != 2 && c_slot_family(values[2]) == fam {
            2
        } else {
            3
        };
        if j < 3 {
            let moved = values[j];
            let displaced = values[button_idx];
            values[j] = displaced;
            values[button_idx] = moved;
        }
        values[button_idx] = item_idx;
        self.c_left = values[0];
        self.c_down = values[1];
        self.c_right = values[2];
        proof {
            let vals = old(self)@.c_values();
            lemma_assign_unique(vals, item_idx, button_idx as int);
            assert(self@.c_values() =~= assign_unique(vals, item_idx, button_idx as int));
        }
    }

    /// Begins assigning `item_idx` to `button`: the animation starts and the
    /// buttons are updated at once so that none shows a duplicate.
    pub fn start_c_button_equip(&mut self, item_idx: usize, button: CButton)
        requires
            old(self)@.wf(),
            item_idx < OOT_ITEM_COUNT,
        ensures
            final(self)@ == old(self)@.after_start_c_equip(item_idx, button),
            final(self)@.wf(),
    {
        let item = oot_item(item_idx);
        if !item.usable_by_current_link() {
            self.status = String::from_str(item.name).concat(" cannot be assigned by Adult Link.");
            self.bump();
            return;
        }
        let button_idx = button.index();
        let arrow = arrow_kind(item_idx);
        self.equip_anim = Some(
            EquipAnim {
                item_idx,
                target_button: button,
                phase: if arrow.is_some() {
                    EquipAnimPhase::ArrowGlowToBow
                } else {
                    EquipAnimPhase::ItemToButton
                },
            },
        );
        self.status = match arrow {
            Some(kind) => String::from_str(kind.label()).concat(
                " magic is modifying the Fairy Bow for C-",
            ).concat(button.label()).concat("."),
            None => String::from_str("Equipping ").concat(item.name).concat(" to C-").concat(
                button.label(),
            ).concat("."),
        };
        self.preview_unique_c_button(item_idx, button_idx);
        self.bump();
    }

    /// Completes an assignment once its animation has played.
    pub fn finish_c_button_equip(&mut self, item_idx: usize, button: CButton)
        requires
            old(self)@.wf(),
            item_idx < OOT_ITEM_COUNT,
        ensures
            final(self)@ == old(self)@.after_finish_c_equip(item_idx, button),
            c_item_ok(item_idx) ==> final(self)@.wf(),
    {
        self.preview_unique_c_button(item_idx, button.index());
        let item = oot_item(item_idx);
        self.status = String::from_str("Assigned ").concat(item.name).concat(" to C-").concat(
            button.label(),
        ).concat(".");
        self.equip_anim = None;
        self.bump();
    }

    /// Assigns the item under the cursor to `button`.
    pub fn assign_selected_item_to_c_button(&mut self, button: CButton)
        requires
            old(self)@.wf(),
        ensures
            final(self)@ == old(self)@.after_assign_selected(button),
            final(self)@.wf(),
    {
        match self.selected {
            OotAction::Item(idx) => {
                let item = oot_item(idx);
                if !item.usable_by_current_link() {
                    self.status = String::from_str(item.name).concat(
                        " is disabled for Adult Link and cannot be assigned.",
                    );
                    self.bump();
                    return;
                }
                self.start_c_button_equip(idx, button);
            },
            _ => {
                self.status = String::from_str(
                    "Move the cursor to an inventory item before assigning it to a C-button.",
                );
                self.bump();
            },
        }
    }

    /// B opens or closes the save prompt without moving the cursor to B.
    pub fn press_b_button(&mut self)
        requires
            old(self)@.wf(),
        ensures
            final(self)@ == old(self)@.after_toggle_save_prompt(),
            final(self)@.wf(),
    {
        self.toggle_save_prompt();
    }
}

impl OotDemo {
    /// Performs the effect of `action` after the cursor question is settled;
    /// `previous_selected` is the selection before the click.
    fn click_effect(&mut self, action: OotAction, previous_selected: OotAction)
        requires
            old(self)@.wf(),
            oot_action_valid(action),
            oot_action_valid(previous_selected),
        ensures
            final(self)@ == old(self)@.click_effect(action, previous_selected),
            final(self)@.wf(),
    {
        match action {
            OotAction::EdgeLeft => self.turn_page_from_edge(PageTurn::ViewerLeft),
            OotAction::EdgeRight => self.turn_page_from_edge(PageTurn::ViewerRight),
            OotAction::Item(idx) => {
                let item = oot_item(idx);
                if !item.usable_by_current_link() {
                    self.status = String::from_str(item.name).concat(
                        " is visible for layout accuracy, but Adult Link cannot use it.",
                    );
                } else {
                    self.status = String::from_str(item.name).concat(
                        " selected. Press Z/X/C to assign.",
                    );
                }
                self.bump();
            },
            OotAction::AssignC(button) => {
                match previous_selected {
                    OotAction::Item(idx) => {
                        self.start_c_button_equip(idx, button);
                    },
                    _ => {
                        self.status = String::from_str(
                            "Select an item first, then assign it to a C-button.",
                        );
                        self.bump();
                    },
                }
            },
            OotAction::Save => {
                self.open_save_prompt();
            },
            OotAction::SaveYes => {
                if self.save_complete {
                    self.close_save_prompt("Returned to the pause menu.");
                } else {
                    self.confirm_save();
                }
            },
            OotAction::SaveNo => {
                if self.save_complete {
                    self.close_save_prompt("Returned to the pause menu.");
                } else {
                    self.close_save_prompt("Save cancelled. Returning to the pause menu.");
                }
            },
            OotAction::EquipChoice { slot, choice } => {
                let option = equip_choice(slot, choice);
                if !option.usable_by_current_link() {
                    self.status = String::from_str(option.name).concat(
                        " is child-only in this Adult Link demo.",
                    );
                    self.bump();
                    return;
                }
                if slot == 0 {
                    self.equipped_sword = choice;
                } else if slot == 1 {
                    self.equipped_shield = choice;
                } else if slot == 2 {
                    self.equipped_tunic = choice;
                } else {
                    self.equipped_boots = choice;
                }
                self.status = String::from_str("Equipped ").concat(option.name).concat(".");
                self.bump();
            },
            OotAction::MapMarker(idx) => {
                self.status = String::from_str("Map marker: ").concat(map_marker(idx).name).concat(
                    ".",
                );
                self.bump();
            },
            OotAction::QuestIcon(idx) => {
                self.status = String::from_str(quest_icon(idx).name).concat(" achieved.");
                self.bump();
            },
            OotAction::Song(idx) => {
                let tune = song(idx);
                self.status = String::from_str(tune.name).concat(" reminder: ").concat(
                    tune.pattern,
                );
                self.bump();
            },
        }
    }

    /// Activates `action`: focusable controls take the cursor; child-only
    /// entries off their page only report; everything then does its job.
    pub fn click(&mut self, action: OotAction)
        requires
            old(self)@.wf(),
            oot_action_valid(action),
        ensures
            final(self)@ == old(self)@.after_click(action),
            final(self)@.wf(),
    {
        let previous_selected = self.selected;
        if action.is_focusable_for(self) {
            self.selected = action;
        } else {
            match action {
                OotAction::Item(idx) => {
                    let item = oot_item(idx);
                    self.status = String::from_str(item.name).concat(
                        " is child-only and disabled for Adult Link.",
                    );
                    self.bump();
                    return;
                },
                OotAction::EquipChoice { slot, choice } => {
                    let option = equip_choice(slot, choice);
                    self.status = String::from_str(option.name).concat(
                        " is child-only and disabled for Adult Link.",
                    );
                    self.bump();
                    return;
                },
                _ => {},
            }
        }
        self.click_effect(action, previous_selected);
    }

    /// Activates the control under the cursor.
    pub fn activate_selected(&mut self)
        requires
            old(self)@.wf(),
        ensures
            final(self)@ == old(self)@.after_click(old(self)@.selected),
            final(self)@.wf(),
    {
        let action = self.selected;
        self.click(action);
    }

    /// The host moved the save-prompt flip: `past_half` tells whether it now
    /// shows the prompt side, `at_rest_closed` whether it is back at rest on
    /// the pause page. Once the prompt side is gone the cursor returns to
    /// where it was, and a finished save is forgotten at rest.
    pub fn save_flip_moved(&mut self, past_half: bool, at_rest_closed: bool)
        requires
            old(self)@.wf(),
        ensures
            final(self)@ == old(self)@.after_save_flip_moved(past_half, at_rest_closed),
            final(self)@.wf(),
    {
        let was_prompt_face = self.save_prompt_face_visible();
        self.save_flip_past_half = past_half;
        let is_prompt_face = self.save_prompt_face_visible();
        if was_prompt_face && !is_prompt_face && !self.save_prompt_open {
            self.restore_normal_selection_after_save();
        }
        let on_save_control = self.selected == OotAction::SaveYes || self.selected
            == OotAction::SaveNo || self.selected == OotAction::Save;
        if at_rest_closed && !self.save_prompt_open {
            if on_save_control {
                self.restore_normal_selection_after_save();
            }
            self.save_complete = false;
        } else if !self.save_prompt_open && !self.save_prompt_face_visible() && on_save_control {
            self.restore_normal_selection_after_save();
        }
    }

    /// The host finished playing the current equip phase: arrows move on to
    /// the bow and then to the button; the assignment completes when the
    /// icon reaches its button.
    pub fn equip_phase_done(&mut self)
        requires
            old(self)@.wf(),
        ensures
            final(self)@ == old(self)@.after_equip_phase_done(),
            final(self)@.wf(),
    {
        match self.equip_anim {
            None => {},
            Some(anim) => match anim.phase {
                EquipAnimPhase::ArrowGlowToBow => {
                    self.equip_anim = Some(
                        EquipAnim { phase: EquipAnimPhase::ArrowBowHold, ..anim },
                    );
                },
                EquipAnimPhase::ArrowBowHold => {
                    self.equip_anim = Some(
                        EquipAnim { phase: EquipAnimPhase::BowToButton, ..anim },
                    );
                },
                _ => {
                    self.finish_c_button_equip(anim.item_idx, anim.target_button);
                },
            },
        }
    }
}

impl OotDemo {
    /// Handles a directional step that leaves through an edge prompt by
    /// turning the cube; returns whether it did. Other steps change nothing
    /// and are left to spatial navigation over the laid-out page.
    pub fn edge_step(&mut self, dx: i32, dy: i32) -> (turned: bool)
        requires
            old(self)@.wf(),
        ensures
            final(self)@.wf(),
            turned == old(self)@.after_edge_step(dx as int, dy as int) is Some,
            turned ==> Some(final(self)@) == old(self)@.after_edge_step(dx as int, dy as int),
            !turned ==> final(self)@ == old(self)@,
    {
        if dy == 0 && self.selected == OotAction::EdgeLeft && dx < 0 {
            self.turn_page_from_edge(PageTurn::ViewerLeft);
            true
        } else if dy == 0 && self.selected == OotAction::EdgeRight && dx > 0 {
            self.turn_page_from_edge(PageTurn::ViewerRight);
            true
        } else {
            false
        }
    }
}

/// Controls drawn greyed out: child-only items and equipment, and item,
/// marker or action controls that carry no action.
pub open spec fn control_disabled(kind: MenuControlKind, action: Option<OotAction>) -> bool {
    match action {
        Some(OotAction::Item(i)) => !item_usable(i as int),
        Some(OotAction::EquipChoice { slot, choice }) => !choice_usable(slot as int, choice as int),
        None => kind == MenuControlKind::Item || kind == MenuControlKind::MapMarker || kind
            == MenuControlKind::Action,
        _ => false,
    }
}

/// Whether a control of `kind` carrying `action` is drawn disabled.
pub fn is_disabled_control(kind: MenuControlKind, action: Option<OotAction>) -> (b: bool)
    requires
        action matches Some(a) ==> oot_action_valid(a),
    ensures
        b == control_disabled(kind, action),
{
    match action {
        Some(OotAction::Item(idx)) => !oot_item(idx).usable_by_current_link(),
        Some(OotAction::EquipChoice { slot, choice }) => !equip_choice(
            slot,
            choice,
        ).usable_by_current_link(),
        None => matches!(kind, MenuControlKind::Item | MenuControlKind::MapMarker | MenuControlKind::Action),
        _ => false,
    }
}

/// Picture of Link on the equipment page, dressed in the worn tunic.
pub open spec fn player_icon(tunic: usize) -> Seq<char> {
    if tunic == 1 {
        "icons/oot/player_goron_tunic.png"@
    } else if tunic == 2 {
        "icons/oot/player_zora_tunic.png"@
    } else {
        "icons/oot/player_kokiri_tunic.png"@
    }
}

/// Picture of Link on the equipment page, dressed in the worn tunic.
pub fn equipped_player_icon(demo: &OotDemo) -> (s: &'static str)
    ensures
        s@ == player_icon(demo.equipped_tunic),
{
    if demo.equipped_tunic == 1 {
        "icons/oot/player_goron_tunic.png"
    } else if demo.equipped_tunic == 2 {
        "icons/oot/player_zora_tunic.png"
    } else {
        "icons/oot/player_kokiri_tunic.png"
    }
}

} // verus!
