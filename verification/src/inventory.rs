//! The gear/pack/map/status inventory menu state machine: which page and
//! control have focus, what is equipped, how many consumables remain, the
//! Status page options, and the status line shown to the player.
//!
//! Every operation is specified as a transition of [`InventoryView`], the
//! mathematical model of [`InventoryDemo`].

use vstd::prelude::*;
use crate::inventory_data::{
    binding_label, binding_next, clamp_index_delta, click_action_valid, detail_label,
    detail_next, focus_next, focus_previous, gear_detail, gear_item_detail, gear_item_name,
    gear_items_for_slot, gear_name, map_marker_count, map_status, map_status_text,
    move_pack_index, pack_row, pack_base, pack_item_base, pack_item_consumable, pack_item_name, pack_name,
    page_from_index, page_index, page_label, slot_name, slot_names, spec_clamp_index_delta,
    spec_move_pack_index, spec_wrap_index, status_row_count, style_label, style_next, tab_index,
    tab_page, wrap_index, ClickAction, DetailLevel, FocusArea,
    MenuToggleBinding, OpenCloseStyle, Page, MAP_MARKER_COUNT, PACK_ITEM_COUNT, STATUS_ROW_COUNT,
    STATUS_VISIBLE_ROWS,
};
use crate::menu::MenuControlKind;
use crate::text::{decimal, decimal_string};

verus! {

/// Revision counter after one change (wraps around like `u64::wrapping_add`).
pub open spec fn next_revision(r: u64) -> u64 {
    if r == u64::MAX {
        0
    } else {
        (r + 1) as u64
    }
}

/// The Status page's first visible row never goes past this row.
pub open spec fn max_status_scroll() -> int {
    STATUS_ROW_COUNT - STATUS_VISIBLE_ROWS
}

/// The index sum that a vertical move takes in `i32` fits there: from the
/// tab strip only the sign of `delta` counts, and a move up from a column's
/// first entry leaves for the tab strip without any sum.
pub open spec fn vertical_move_fits(v: InventoryView, delta: int) -> bool {
    if v.focus_area == FocusArea::Tabs {
        true
    } else {
        let (leaves, idx) = match v.page {
            Page::Gear => {
                let i = match v.focus_area {
                    FocusArea::Slots => v.selected_slot,
                    FocusArea::Items => v.selected_item,
                    _ => v.selected_action,
                };
                (delta < 0 && i == 0, i as int)
            },
            Page::Pack => (delta < 0 && v.selected_pack < 2, pack_row(v.selected_pack as int)),
            Page::MapPage => (delta < 0 && v.selected_map == 0, v.selected_map as int),
            Page::Status => (delta < 0 && v.selected_status == 0, v.selected_status as int),
        };
        leaves || idx + delta <= i32::MAX
    }
}

/// The index sum that a horizontal move takes in `i32` fits there (gear
/// columns move without any sum).
pub open spec fn horizontal_move_fits(v: InventoryView, delta: int) -> bool {
    if v.focus_area == FocusArea::Tabs {
        v.selected_tab + delta <= i32::MAX
    } else {
        match v.page {
            Page::Gear => true,
            Page::Pack => v.selected_pack % 2 + delta <= i32::MAX,
            Page::MapPage => v.selected_map + delta <= i32::MAX,
            Page::Status => v.selected_status + delta <= i32::MAX,
        }
    }
}

/// Model of the inventory menu.
#[verifier::ext_equal]
pub struct InventoryView {
    pub page: Page,
    pub focus_area: FocusArea,
    pub selected_slot: usize,
    pub selected_item: usize,
    pub selected_action: usize,
    pub selected_pack: usize,
    pub selected_map: usize,
    pub selected_status: usize,
    pub selected_tab: usize,
    pub input_hints_enabled: bool,
    pub compact_layout: bool,
    pub detail_level: DetailLevel,
    pub touch_select_then_tap: bool,
    pub menu_toggle_binding: MenuToggleBinding,
    pub open_style: OpenCloseStyle,
    pub status_scroll: usize,
    pub equipped_weapon: usize,
    pub equipped_feet: Option<usize>,
    pub equipped_charm: Option<usize>,
    pub pack_counts: Seq<u8>,
    pub iron_boots_active: bool,
    pub gear_action_popup_open: bool,
    pub status: Seq<char>,
    pub revision: u64,
}

/// Status-line text for using one unit of consumable `idx` when `remaining`
/// units are left afterwards.
pub open spec fn pack_use_text(idx: int, remaining: nat) -> Seq<char> {
    if idx == 0 {
        "Used Healing Tincture. "@ + decimal(remaining) + " left."@
    } else if idx == 1 {
        "Planted a Glow Seed. "@ + decimal(remaining) + " left."@
    } else if idx == 3 {
        "Ate a Travel Ration. "@ + decimal(remaining) + " left."@
    } else {
        "Item inspected."@
    }
}

/// Status-line text describing Pack entry `idx` given the pack counts.
pub open spec fn pack_status_text(idx: int, counts: Seq<u8>) -> Seq<char> {
    if idx == 0 {
        "Healing Tincture: "@ + decimal(counts[0] as nat) + " remaining."@
    } else if idx == 1 {
        "Glow Seed: "@ + decimal(counts[1] as nat) + " remaining."@
    } else if idx == 2 {
        "Old Key: quest item, safe from selling."@
    } else if idx == 3 {
        "Travel Ration: "@ + decimal(counts[3] as nat) + " remaining."@
    } else if idx == 4 {
        "River Pearl: trade good x"@ + decimal(counts[4] as nat) + "."@
    } else {
        "Sketch Map: field note linked to the Map page."@
    }
}

/// Caption under Pack entry `idx`: its description, with a count for stackables.
pub open spec fn pack_detail_text(idx: int, counts: Seq<u8>) -> Seq<char> {
    if idx == 0 || idx == 1 || idx == 3 || idx == 4 {
        pack_item_base(idx) + " x"@ + decimal(counts[idx] as nat)
    } else {
        pack_item_base(idx)
    }
}

pub open spec fn checked_text(enabled: bool) -> Seq<char> {
    if enabled {
        "[x] Enabled"@
    } else {
        "[ ] Disabled"@
    }
}

pub open spec fn status_row_label(i: int) -> Seq<char> {
    if i == 0 {
        "Mobility"@
    } else if i == 1 {
        "Feet slot"@
    } else if i == 2 {
        "[ ] Input hints"@
    } else if i == 3 {
        "Layout density"@
    } else if i == 4 {
        "Detail level"@
    } else if i == 5 {
        "Touch mode"@
    } else if i == 6 {
        "Menu toggle"@
    } else if i == 7 {
        "Open/close"@
    } else if i == 8 {
        "SFX hook"@
    } else if i == 9 {
        "Music hook"@
    } else if i == 10 {
        "Page switch"@
    } else if i == 11 {
        "Pointer swipe"@
    } else if i == 12 {
        "Drag cancel"@
    } else if i == 13 {
        "Touch scroll"@
    } else if i == 14 {
        "Sprite icons"@
    } else {
        "Component"@
    }
}

pub open spec fn status_row_kind(i: int) -> MenuControlKind {
    if i == 2 {
        MenuControlKind::OptionToggle
    } else if 3 <= i <= 7 {
        MenuControlKind::OptionChoice
    } else {
        MenuControlKind::Decoration
    }
}

/// Sprite for Status row `idx` of control kind `kind`.
pub open spec fn status_icon_path(idx: int, kind: MenuControlKind) -> Seq<char> {
    match kind {
        MenuControlKind::OptionToggle => "icons/status_checkbox.png"@,
        MenuControlKind::OptionChoice => "icons/status_radio.png"@,
        _ => if idx == 0 {
            "icons/status_mobility.png"@
        } else if idx == 1 {
            "icons/slot_feet.png"@
        } else if idx == 8 {
            "icons/status_sfx.png"@
        } else if idx == 9 {
            "icons/status_music.png"@
        } else if idx == 10 {
            "icons/status_page_switch.png"@
        } else if idx == 11 {
            "icons/status_swipe.png"@
        } else if idx == 12 {
            "icons/status_cancel.png"@
        } else if idx == 13 {
            "icons/status_scroll.png"@
        } else if idx == 14 {
            "icons/tab_pack.png"@
        } else {
            "icons/status_component.png"@
        },
    }
}

pub fn status_icon(idx: usize, kind: MenuControlKind) -> (s: &'static str)
    ensures
        s@ == status_icon_path(idx as int, kind),
{
    match kind {
        MenuControlKind::OptionToggle => "icons/status_checkbox.png",
        MenuControlKind::OptionChoice => "icons/status_radio.png",
        _ => if idx == 0 {
            "icons/status_mobility.png"
        } else if idx == 1 {
            "icons/slot_feet.png"
        } else if idx == 8 {
            "icons/status_sfx.png"
        } else if idx == 9 {
            "icons/status_music.png"
        } else if idx == 10 {
            "icons/status_page_switch.png"
        } else if idx == 11 {
            "icons/status_swipe.png"
        } else if idx == 12 {
            "icons/status_cancel.png"
        } else if idx == 13 {
            "icons/status_scroll.png"
        } else if idx == 14 {
            "icons/tab_pack.png"
        } else {
            "icons/status_component.png"
        },
    }
}

/// `[x] Enabled` or `[ ] Disabled`.
pub fn checked_label(enabled: bool) -> (s: String)
    ensures
        s@ == checked_text(enabled),
{
    if enabled {
        String::from_str("[x] Enabled")
    } else {
        String::from_str("[ ] Disabled")
    }
}

/// Status-line text for using consumable `idx` with `remaining` units left.
pub fn pack_use_message(idx: usize, remaining: u8) -> (s: String)
    ensures
        s@ == pack_use_text(idx as int, remaining as nat),
{
    let n = decimal_string(remaining as u64);
    if idx == 0 {
        String::from_str("Used Healing Tincture. ").concat(n.as_str()).concat(" left.")
    } else if idx == 1 {
        String::from_str("Planted a Glow Seed. ").concat(n.as_str()).concat(" left.")
    } else if idx == 3 {
        String::from_str("Ate a Travel Ration. ").concat(n.as_str()).concat(" left.")
    } else {
        String::from_str("Item inspected.")
    }
}

impl InventoryView {
    /// Every cursor names an existing entry, the pack holds six counts, the
    /// Status pane never scrolls past its last full page, and Iron Boots can
    /// only be active while they are worn.
    pub open spec fn wf(self) -> bool {
        &&& self.selected_slot < 3
        &&& self.selected_item < 3
        &&& self.selected_action < 3
        &&& self.selected_pack < PACK_ITEM_COUNT
        &&& self.selected_map < MAP_MARKER_COUNT
        &&& self.selected_status < STATUS_ROW_COUNT
        &&& self.selected_tab < 4
        &&& self.status_scroll <= max_status_scroll()
        &&& self.equipped_weapon < 3
        &&& (self.equipped_feet matches Some(i) ==> i < 3)
        &&& (self.equipped_charm matches Some(i) ==> i < 3)
        &&& self.pack_counts.len() == PACK_ITEM_COUNT
        &&& (self.iron_boots_active ==> self.equipped_feet == Some(0usize))
    }

    pub open spec fn bumped(self) -> InventoryView {
        InventoryView { revision: next_revision(self.revision), ..self }
    }

    pub open spec fn with_status(self, s: Seq<char>) -> InventoryView {
        InventoryView { status: s, ..self }
    }

    /// Text shown for gear slot `idx`: the equipped entry, `Empty`, or the
    /// active marker on worn Iron Boots.
    pub open spec fn slot_value(self, idx: int) -> Seq<char> {
        if idx == 0 {
            gear_item_name(0, self.equipped_weapon as int)
        } else if idx == 1 {
            match self.equipped_feet {
                Some(i) => if i == 0 && self.iron_boots_active {
                    "Iron Boots  [active]"@
                } else {
                    gear_item_name(1, i as int)
                },
                None => "Empty"@,
            }
        } else if idx == 2 {
            match self.equipped_charm {
                Some(i) => gear_item_name(2, i as int),
                None => "Empty"@,
            }
        } else {
            ""@
        }
    }

    /// Whether the gear entry under the cursor is the one worn in its slot.
    pub open spec fn selected_item_equipped(self) -> bool {
        if self.selected_slot == 0 {
            self.equipped_weapon == self.selected_item
        } else if self.selected_slot == 1 {
            self.equipped_feet == Some(self.selected_item)
        } else if self.selected_slot == 2 {
            self.equipped_charm == Some(self.selected_item)
        } else {
            false
        }
    }

    /// Label of gear action `i` for the entry under the cursor.
    pub open spec fn action_label(self, i: int) -> Seq<char> {
        if i == 0 {
            if self.selected_slot == 0 && self.equipped_weapon == self.selected_item {
                "Equipped"@
            } else if self.selected_item_equipped() {
                "Unequip"@
            } else {
                "Equip"@
            }
        } else if i == 1 {
            if self.selected_slot == 1 && self.equipped_feet == Some(0usize)
                && self.selected_item == 0 {
                "Toggle active"@
            } else {
                "Compare"@
            }
        } else {
            "Inspect"@
        }
    }

    /// Value column of Status row `i`.
    pub open spec fn status_row_value(self, i: int) -> Seq<char> {
        if i == 0 {
            if self.iron_boots_active {
                "Anchored"@
            } else {
                "Normal"@
            }
        } else if i == 1 {
            if self.equipped_feet == Some(0usize) {
                "Iron Boots"@
            } else {
                "Empty"@
            }
        } else if i == 2 {
            checked_text(self.input_hints_enabled)
        } else if i == 3 {
            if self.compact_layout {
                "Compact"@
            } else {
                "Cozy"@
            }
        } else if i == 4 {
            detail_label(self.detail_level)
        } else if i == 5 {
            if self.touch_select_then_tap {
                "Select + tap"@
            } else {
                "Instant tap"@
            }
        } else if i == 6 {
            binding_label(self.menu_toggle_binding)
        } else if i == 7 {
            style_label(self.open_style)
        } else if i == 8 {
            "Queued shell effects"@
        } else if i == 9 {
            "Host can duck/muffle on Opened"@
        } else if i == 10 {
            "Q/E, wheel, bumpers"@
        } else if i == 11 {
            "Drag left/right to change pages"@
        } else if i == 12 {
            "Press, drag off, release cancels"@
        } else if i == 13 {
            "Drag Status list vertically"@
        } else if i == 14 {
            "Controls use asset-backed sprites"@
        } else {
            "Lunex data-driven shell"@
        }
    }

    /// `label: value` of Status row `idx`, clamped to the last row.
    pub open spec fn status_row_message(self, idx: int) -> Seq<char> {
        let i = if idx > STATUS_ROW_COUNT - 1 { STATUS_ROW_COUNT - 1 } else { idx };
        status_row_label(i) + ": "@ + self.status_row_value(i)
    }

    pub open spec fn active_content_area(self) -> FocusArea {
        match self.page {
            Page::Gear => FocusArea::Slots,
            _ => FocusArea::Items,
        }
    }

    pub open spec fn selected_tab_page(self) -> Page {
        tab_page(if self.selected_tab > 3 { 3 } else { self.selected_tab as int })
    }

    // -----------------------------------------------------------------------
    // Transitions
    // -----------------------------------------------------------------------

    #[verifier::opaque]
    pub open spec fn after_goto_page(self, page: Page) -> InventoryView {
        if self.page != page {
            InventoryView {
                page: page,
                selected_tab: tab_index(page) as usize,
                gear_action_popup_open: false,
                status: page_label(page) + " page selected."@,
                ..self
            }.bumped()
        } else {
            InventoryView { selected_tab: tab_index(page) as usize, ..self }
        }
    }

    #[verifier::opaque]
    pub open spec fn after_next_page(self) -> InventoryView {
        self.after_goto_page(page_from_index(page_index(self.page) + 1))
    }

    #[verifier::opaque]
    pub open spec fn after_previous_page(self) -> InventoryView {
        self.after_goto_page(page_from_index(page_index(self.page) - 1))
    }

    #[verifier::opaque]
    pub open spec fn after_previous_focus_area(self) -> InventoryView {
        let area = if self.page == Page::Gear {
            focus_previous(self.focus_area)
        } else if self.focus_area == FocusArea::Tabs {
            FocusArea::Items
        } else {
            FocusArea::Tabs
        };
        InventoryView { focus_area: area, ..self }.bumped()
    }

    #[verifier::opaque]
    pub open spec fn after_next_focus_area(self) -> InventoryView {
        let area = if self.page == Page::Gear {
            focus_next(self.focus_area)
        } else if self.focus_area == FocusArea::Tabs {
            FocusArea::Items
        } else {
            FocusArea::Tabs
        };
        InventoryView { focus_area: area, ..self }.bumped()
    }

    /// Scrolls the Status pane just far enough to show the selected row.
    pub open spec fn after_ensure_status_visible(self) -> InventoryView {
        let sel = self.selected_status as int;
        let scroll = self.status_scroll as int;
        let s = if sel < scroll {
            sel
        } else if sel >= scroll + STATUS_VISIBLE_ROWS {
            sel + 1 - STATUS_VISIBLE_ROWS
        } else {
            scroll
        };
        let s2 = if s > max_status_scroll() { max_status_scroll() } else { s };
        InventoryView { status_scroll: s2 as usize, ..self }
    }

    #[verifier::opaque]
    pub open spec fn after_move_focus_vertical(self, delta: int) -> InventoryView {
        if self.focus_area == FocusArea::Tabs {
            if delta > 0 {
                InventoryView { focus_area: self.active_content_area(), ..self }.bumped()
            } else {
                self.bumped()
            }
        } else {
            let moved = match self.page {
                Page::Gear => match self.focus_area {
                    FocusArea::Slots => if delta < 0 && self.selected_slot == 0 {
                        InventoryView { focus_area: FocusArea::Tabs, ..self }
                    } else {
                        InventoryView {
                            selected_slot: spec_wrap_index(self.selected_slot as int, 3, delta)
                                as usize,
                            ..self
                        }
                    },
                    FocusArea::Items => if delta < 0 && self.selected_item == 0 {
                        InventoryView { focus_area: FocusArea::Tabs, ..self }
                    } else {
                        InventoryView {
                            selected_item: spec_wrap_index(self.selected_item as int, 3, delta)
                                as usize,
                            ..self
                        }
                    },
                    _ => if delta < 0 && self.selected_action == 0 {
                        InventoryView { focus_area: FocusArea::Tabs, ..self }
                    } else {
                        InventoryView {
                            selected_action: spec_wrap_index(
                                self.selected_action as int,
                                3,
                                delta,
                            ) as usize,
                            ..self
                        }
                    },
                },
                Page::Pack => if delta < 0 && self.selected_pack < 2 {
                    InventoryView { focus_area: FocusArea::Tabs, ..self }
                } else {
                    InventoryView {
                        focus_area: FocusArea::Items,
                        selected_pack: spec_move_pack_index(self.selected_pack as int, 0, delta)
                            as usize,
                        ..self
                    }
                },
                Page::MapPage => if delta < 0 && self.selected_map == 0 {
                    InventoryView { focus_area: FocusArea::Tabs, ..self }
                } else {
                    InventoryView {
                        focus_area: FocusArea::Items,
                        selected_map: spec_wrap_index(
                            self.selected_map as int,
                            MAP_MARKER_COUNT as int,
                            delta,
                        ) as usize,
                        ..self
                    }
                },
                Page::Status => if delta < 0 && self.selected_status == 0 {
                    InventoryView { focus_area: FocusArea::Tabs, ..self }
                } else {
                    InventoryView {
                        focus_area: FocusArea::Items,
                        selected_status: spec_clamp_index_delta(
                            self.selected_status as int,
                            STATUS_ROW_COUNT as int,
                            delta,
                        ) as usize,
                        ..self
                    }.after_ensure_status_visible()
                },
            };
            moved.bumped()
        }
    }

    #[verifier::opaque]
    pub open spec fn after_move_focus_horizontal(self, delta: int) -> InventoryView {
        if self.focus_area == FocusArea::Tabs {
            InventoryView {
                selected_tab: spec_wrap_index(self.selected_tab as int, 4, delta) as usize,
                ..self
            }.bumped()
        } else {
            let moved = match self.page {
                Page::Gear => if self.focus_area == FocusArea::Slots && delta > 0 {
                    InventoryView {
                        focus_area: FocusArea::Items,
                        selected_item: if self.selected_slot > 2 {
                            2
                        } else {
                            self.selected_slot
                        },
                        ..self
                    }
                } else if self.focus_area == FocusArea::Items && delta > 0 {
                    InventoryView {
                        focus_area: FocusArea::Actions,
                        selected_action: 0,
                        gear_action_popup_open: true,
                        ..self
                    }
                } else if self.focus_area == FocusArea::Items && delta < 0 {
                    InventoryView {
                        focus_area: FocusArea::Slots,
                        selected_slot: if self.selected_item > 2 {
                            2
                        } else {
                            self.selected_item
                        },
                        ..self
                    }
                } else if self.focus_area == FocusArea::Actions && delta < 0 {
                    InventoryView {
                        focus_area: FocusArea::Items,
                        gear_action_popup_open: false,
                        ..self
                    }
                } else {
                    self
                },
                Page::Pack => InventoryView {
                    focus_area: FocusArea::Items,
                    selected_pack: spec_move_pack_index(self.selected_pack as int, delta, 0)
                        as usize,
                    ..self
                },
                Page::MapPage => InventoryView {
                    focus_area: FocusArea::Items,
                    selected_map: spec_wrap_index(
                        self.selected_map as int,
                        MAP_MARKER_COUNT as int,
                        delta,
                    ) as usize,
                    ..self
                },
                Page::Status => InventoryView {
                    focus_area: FocusArea::Items,
                    selected_status: spec_clamp_index_delta(
                        self.selected_status as int,
                        STATUS_ROW_COUNT as int,
                        delta,
                    ) as usize,
                    ..self
                }.after_ensure_status_visible(),
            };
            moved.bumped()
        }
    }

    #[verifier::opaque]
    pub open spec fn after_back(self) -> InventoryView {
        let popup = if self.page == Page::Gear && self.focus_area == FocusArea::Actions {
            false
        } else {
            self.gear_action_popup_open
        };
        let area = if self.page == Page::Gear {
            match self.focus_area {
                FocusArea::Actions => FocusArea::Items,
                FocusArea::Items => FocusArea::Slots,
                _ => FocusArea::Tabs,
            }
        } else {
            FocusArea::Tabs
        };
        InventoryView {
            focus_area: area,
            gear_action_popup_open: popup,
            status: "Back."@,
            ..self
        }.bumped()
    }

    #[verifier::opaque]
    pub open spec fn after_toggle_input_hints(self) -> InventoryView {
        let on = !self.input_hints_enabled;
        InventoryView {
            input_hints_enabled: on,
            status: if on {
                "Input hints enabled."@
            } else {
                "Input hints hidden."@
            },
            ..self
        }.bumped()
    }

    #[verifier::opaque]
    pub open spec fn after_toggle_compact_layout(self) -> InventoryView {
        let on = !self.compact_layout;
        InventoryView {
            compact_layout: on,
            status: if on {
                "Compact layout selected."@
            } else {
                "Cozy layout selected."@
            },
            ..self
        }.bumped()
    }

    #[verifier::opaque]
    pub open spec fn after_cycle_detail_level(self) -> InventoryView {
        let d = detail_next(self.detail_level);
        InventoryView {
            detail_level: d,
            status: "Detail level: "@ + detail_label(d) + "."@,
            ..self
        }.bumped()
    }

    #[verifier::opaque]
    pub open spec fn after_toggle_touch_mode(self) -> InventoryView {
        let on = !self.touch_select_then_tap;
        InventoryView {
            touch_select_then_tap: on,
            status: if on {
                "Touch mode: select first, tap again to activate."@
            } else {
                "Touch mode: activate immediately."@
            },
            ..self
        }.bumped()
    }

    #[verifier::opaque]
    pub open spec fn after_cycle_menu_toggle_binding(self) -> InventoryView {
        let b = binding_next(self.menu_toggle_binding);
        InventoryView {
            menu_toggle_binding: b,
            status: "Menu toggle input: "@ + binding_label(b) + "."@,
            ..self
        }.bumped()
    }

    #[verifier::opaque]
    pub open spec fn after_cycle_open_style(self) -> InventoryView {
        let s = style_next(self.open_style);
        InventoryView {
            open_style: s,
            status: "Open/close style: "@ + style_label(s) + "."@,
            ..self
        }.bumped()
    }

    #[verifier::opaque]
    pub open spec fn after_activate_status_row(self, idx: int) -> InventoryView {
        if idx == 2 {
            self.after_toggle_input_hints()
        } else if idx == 3 {
            self.after_toggle_compact_layout()
        } else if idx == 4 {
            self.after_cycle_detail_level()
        } else if idx == 5 {
            self.after_toggle_touch_mode()
        } else if idx == 6 {
            self.after_cycle_menu_toggle_binding()
        } else if idx == 7 {
            self.after_cycle_open_style()
        } else {
            self.with_status(self.status_row_message(idx))
        }
    }

    /// Clamps the selected Status row into the rows visible at `scroll`.
    pub open spec fn selection_clamped_to_scroll(sel: int, scroll: int) -> int {
        let hi = if scroll + STATUS_VISIBLE_ROWS - 1 > STATUS_ROW_COUNT - 1 {
            STATUS_ROW_COUNT - 1
        } else {
            scroll + STATUS_VISIBLE_ROWS - 1
        };
        if sel < scroll {
            scroll
        } else if sel > hi {
            hi
        } else {
            sel
        }
    }

    #[verifier::opaque]
    pub open spec fn after_scroll_status(self, delta: int) -> InventoryView {
        let scroll = spec_clamp_index_delta(
            self.status_scroll as int,
            max_status_scroll() + 1,
            delta,
        );
        InventoryView {
            status_scroll: scroll as usize,
            selected_status: Self::selection_clamped_to_scroll(
                self.selected_status as int,
                scroll,
            ) as usize,
            focus_area: FocusArea::Items,
            ..self
        }.bumped()
    }

    #[verifier::opaque]
    pub open spec fn after_try_toggle_iron_boots(self) -> InventoryView {
        if self.equipped_feet == Some(0usize) {
            let on = !self.iron_boots_active;
            InventoryView {
                iron_boots_active: on,
                status: if on {
                    "Iron Boots active: anchored and heavy."@
                } else {
                    "Iron Boots inactive: normal movement restored."@
                },
                ..self
            }.bumped()
        } else {
            self.with_status("Equip Iron Boots in the Feet slot before toggling them."@).bumped()
        }
    }

    #[verifier::opaque]
    pub open spec fn after_equip_or_unequip_selected_item(self) -> InventoryView {
        let item = gear_item_name(self.selected_slot as int, self.selected_item as int);
        let sel = self.selected_item;
        let changed = if self.selected_slot == 0 {
            InventoryView {
                equipped_weapon: sel,
                status: item + " equipped as Weapon."@,
                ..self
            }
        } else if self.selected_slot == 1 {
            if self.equipped_feet == Some(sel) {
                InventoryView {
                    equipped_feet: None,
                    iron_boots_active: false,
                    status: item + " removed from Feet."@,
                    ..self
                }
            } else {
                InventoryView {
                    equipped_feet: Some(sel),
                    iron_boots_active: if sel != 0 {
                        false
                    } else {
                        self.iron_boots_active
                    },
                    status: item + " equipped to Feet."@,
                    ..self
                }
            }
        } else if self.selected_slot == 2 {
            if self.equipped_charm == Some(sel) {
                InventoryView {
                    equipped_charm: None,
                    status: item + " charm removed."@,
                    ..self
                }
            } else {
                InventoryView {
                    equipped_charm: Some(sel),
                    status: item + " charm equipped."@,
                    ..self
                }
            }
        } else {
            self
        };
        changed.bumped()
    }

    #[verifier::opaque]
    pub open spec fn after_activate_action(self, action_idx: int) -> InventoryView {
        let item = gear_item_name(self.selected_slot as int, self.selected_item as int);
        if action_idx == 0 {
            self.after_equip_or_unequip_selected_item()
        } else if action_idx == 1 {
            if self.selected_slot == 1 && self.selected_item == 0 {
                self.after_try_toggle_iron_boots()
            } else {
                self.with_status(
                    "Compare "@ + item + " with "@ + self.slot_value(self.selected_slot as int)
                        + "."@,
                ).bumped()
            }
        } else {
            self.with_status(
                item + ": "@ + gear_item_detail(
                    self.selected_slot as int,
                    self.selected_item as int,
                ) + "."@,
            ).bumped()
        }
    }

    #[verifier::opaque]
    pub open spec fn after_consume_pack_item(self, idx: int) -> InventoryView {
        let v = InventoryView { selected_pack: idx as usize, ..self };
        let used = if pack_item_consumable(idx) {
            if v.pack_counts[idx] > 0 {
                let remaining = (v.pack_counts[idx] - 1) as u8;
                InventoryView {
                    pack_counts: v.pack_counts.update(idx, remaining),
                    status: pack_use_text(idx, remaining as nat),
                    ..v
                }
            } else {
                v.with_status(pack_item_name(idx) + " is empty."@)
            }
        } else {
            v.with_status(pack_status_text(idx, v.pack_counts))
        };
        used.bumped()
    }

    #[verifier::opaque]
    pub open spec fn after_activate_focused(self) -> InventoryView {
        if self.focus_area == FocusArea::Tabs {
            self.after_goto_page(self.selected_tab_page())
        } else {
            let acted = match self.page {
                Page::Gear => match self.focus_area {
                    FocusArea::Slots => InventoryView {
                        focus_area: FocusArea::Items,
                        status: "Choose gear for "@ + slot_name(self.selected_slot as int)
                            + " slot."@,
                        ..self
                    },
                    FocusArea::Items => InventoryView {
                        focus_area: FocusArea::Actions,
                        selected_action: 0,
                        gear_action_popup_open: true,
                        status: gear_item_name(
                            self.selected_slot as int,
                            self.selected_item as int,
                        ) + " selected; choose an action."@,
                        ..self
                    },
                    _ => self.after_activate_action(self.selected_action as int),
                },
                Page::Pack => self.after_consume_pack_item(self.selected_pack as int),
                Page::MapPage => self.with_status(map_status_text(self.selected_map as int)),
                Page::Status => self.after_activate_status_row(self.selected_status as int),
            };
            acted.bumped()
        }
    }

    /// The cursor-related part of the state that pointer hover may change.
    pub open spec fn nav_key(self) -> (
        Page,
        FocusArea,
        usize,
        usize,
        usize,
        usize,
        usize,
        usize,
        usize,
        bool,
    ) {
        (
            self.page,
            self.focus_area,
            self.selected_tab,
            self.selected_slot,
            self.selected_item,
            self.selected_action,
            self.selected_pack,
            self.selected_map,
            self.selected_status,
            self.gear_action_popup_open,
        )
    }

    /// Where hovering `action` moves the cursor (before any revision change).
    #[verifier::opaque]
    pub open spec fn hover_target(self, action: ClickAction) -> InventoryView {
        match action {
            ClickAction::Goto(page) => InventoryView {
                focus_area: FocusArea::Tabs,
                selected_tab: tab_index(page) as usize,
                ..self
            },
            ClickAction::FocusArea(area) => InventoryView {
                focus_area: area,
                gear_action_popup_open: if area == FocusArea::Actions {
                    true
                } else {
                    self.gear_action_popup_open
                },
                ..self
            },
            ClickAction::SelectSlot(idx) => InventoryView {
                page: Page::Gear,
                focus_area: FocusArea::Slots,
                selected_slot: idx,
                gear_action_popup_open: false,
                ..self
            },
            ClickAction::SelectItem(idx) => InventoryView {
                page: Page::Gear,
                focus_area: FocusArea::Items,
                selected_item: idx,
                ..self
            },
            ClickAction::Action(idx) => InventoryView {
                page: Page::Gear,
                focus_area: FocusArea::Actions,
                selected_action: idx,
                gear_action_popup_open: true,
                ..self
            },
            ClickAction::PackItem(idx) => InventoryView {
                page: Page::Pack,
                focus_area: FocusArea::Items,
                selected_pack: idx,
                ..self
            },
            ClickAction::MapMarker(idx) => InventoryView {
                page: Page::MapPage,
                focus_area: FocusArea::Items,
                selected_map: idx,
                ..self
            },
            ClickAction::StatusRow(idx) => InventoryView {
                page: Page::Status,
                focus_area: FocusArea::Items,
                selected_status: idx,
                ..self
            },
            ClickAction::StatusScrollTo(slot) => {
                let scroll = if slot > max_status_scroll() {
                    max_status_scroll()
                } else {
                    slot as int
                };
                InventoryView {
                    page: Page::Status,
                    focus_area: FocusArea::Items,
                    status_scroll: scroll as usize,
                    selected_status: Self::selection_clamped_to_scroll(
                        self.selected_status as int,
                        scroll,
                    ) as usize,
                    ..self
                }
            },
            _ => InventoryView { page: Page::Status, focus_area: FocusArea::Items, ..self },
        }
    }

    /// The mouse wheel turned `up` or down: it scrolls the Status pane while
    /// Status is shown and turns pages everywhere else.
    pub open spec fn after_wheel(self, up: bool) -> InventoryView {
        if self.page == Page::Status {
            self.after_scroll_status(if up { -1 } else { 1 })
        } else if up {
            self.after_previous_page()
        } else {
            self.after_next_page()
        }
    }

    /// A vertical drag on the Status pane: dragging the scrollbar moves the
    /// way the thumb goes, dragging the content moves the opposite way.
    pub open spec fn after_drag_scroll(self, on_scrollbar: bool, moved_down: bool) -> InventoryView {
        self.after_scroll_status(if on_scrollbar == moved_down { 1 } else { -1 })
    }

    pub open spec fn after_hover(self, action: ClickAction) -> InventoryView {
        let moved = self.hover_target(action);
        if moved.nav_key() != self.nav_key() {
            moved.bumped()
        } else {
            moved
        }
    }

    #[verifier::opaque]
    pub open spec fn after_click(self, action: ClickAction) -> InventoryView {
        match action {
            ClickAction::Goto(page) => InventoryView {
                focus_area: FocusArea::Tabs,
                selected_tab: tab_index(page) as usize,
                ..self
            }.after_goto_page(page),
            ClickAction::FocusArea(area) => InventoryView {
                focus_area: area,
                gear_action_popup_open: if area == FocusArea::Actions {
                    true
                } else {
                    self.gear_action_popup_open
                },
                ..self
            }.bumped(),
            ClickAction::SelectSlot(idx) => InventoryView {
                page: Page::Gear,
                selected_slot: idx,
                selected_item: if idx == 0 {
                    self.equipped_weapon
                } else if idx == 1 {
                    match self.equipped_feet {
                        Some(i) => i,
                        None => 0,
                    }
                } else if idx == 2 {
                    match self.equipped_charm {
                        Some(i) => i,
                        None => 0,
                    }
                } else {
                    0
                },
                focus_area: FocusArea::Items,
                gear_action_popup_open: false,
                status: slot_name(idx as int) + " slot selected; choose compatible gear."@,
                ..self
            }.bumped(),
            ClickAction::SelectItem(idx) => InventoryView {
                page: Page::Gear,
                focus_area: FocusArea::Actions,
                selected_item: idx,
                selected_action: 0,
                gear_action_popup_open: true,
                status: gear_item_name(self.selected_slot as int, idx as int)
                    + " selected; choose an action."@,
                ..self
            }.bumped(),
            ClickAction::Action(idx) => InventoryView {
                page: Page::Gear,
                focus_area: FocusArea::Actions,
                selected_action: idx,
                ..self
            }.after_activate_action(idx as int).bumped(),
            ClickAction::PackItem(idx) => InventoryView {
                page: Page::Pack,
                focus_area: FocusArea::Items,
                ..self
            }.after_consume_pack_item(idx as int),
            ClickAction::MapMarker(idx) => InventoryView {
                page: Page::MapPage,
                selected_map: idx,
                status: map_status_text(idx as int),
                ..self
            }.bumped(),
            ClickAction::StatusRow(idx) => InventoryView {
                page: Page::Status,
                focus_area: FocusArea::Items,
                selected_status: idx,
                ..self
            }.after_activate_status_row(idx as int).bumped(),
            ClickAction::StatusScrollTo(slot) => {
                let moved = self.hover_target(action);
                moved.with_status(
                    "Status scroll: row "@ + decimal((moved.status_scroll + 1) as nat) + "."@,
                ).bumped()
            },
            ClickAction::ToggleInputHints => self.after_toggle_input_hints(),
            ClickAction::ToggleCompactLayout => self.after_toggle_compact_layout(),
            ClickAction::CycleDetailLevel => self.after_cycle_detail_level(),
            ClickAction::ToggleTouchMode => self.after_toggle_touch_mode(),
            ClickAction::CycleOpenStyle => self.after_cycle_open_style(),
        }
    }
}

/// The gear/pack/map/status inventory menu.
#[derive(Clone, Debug)]
pub struct InventoryDemo {
    pub page: Page,
    pub focus_area: FocusArea,
    pub selected_slot: usize,
    pub selected_item: usize,
    pub selected_action: usize,
    pub selected_pack: usize,
    pub selected_map: usize,
    pub selected_status: usize,
    pub selected_tab: usize,
    pub input_hints_enabled: bool,
    pub compact_layout: bool,
    pub detail_level: DetailLevel,
    pub touch_select_then_tap: bool,
    pub menu_toggle_binding: MenuToggleBinding,
    pub open_style: OpenCloseStyle,
    pub status_scroll: usize,
    pub equipped_weapon: usize,
    pub equipped_feet: Option<usize>,
    pub equipped_charm: Option<usize>,
    pub pack_counts: [u8; 6],
    pub iron_boots_active: bool,
    pub gear_action_popup_open: bool,
    pub status: String,
    pub revision: u64,
}

impl View for InventoryDemo {
    type V = InventoryView;

    open spec fn view(&self) -> InventoryView {
        InventoryView {
            page: self.page,
            focus_area: self.focus_area,
            selected_slot: self.selected_slot,
            selected_item: self.selected_item,
            selected_action: self.selected_action,
            selected_pack: self.selected_pack,
            selected_map: self.selected_map,
            selected_status: self.selected_status,
            selected_tab: self.selected_tab,
            input_hints_enabled: self.input_hints_enabled,
            compact_layout: self.compact_layout,
            detail_level: self.detail_level,
            touch_select_then_tap: self.touch_select_then_tap,
            menu_toggle_binding: self.menu_toggle_binding,
            open_style: self.open_style,
            status_scroll: self.status_scroll,
            equipped_weapon: self.equipped_weapon,
            equipped_feet: self.equipped_feet,
            equipped_charm: self.equipped_charm,
            pack_counts: self.pack_counts@,
            iron_boots_active: self.iron_boots_active,
            gear_action_popup_open: self.gear_action_popup_open,
            status: self.status@,
            revision: self.revision,
        }
    }
}

/// The starting state: Gear page, Feet slot under the cursor, Travel Sword
/// worn, nothing on Feet or Charm, and a stocked pack.
pub open spec fn initial_inventory() -> InventoryView {
    InventoryView {
        page: Page::Gear,
        focus_area: FocusArea::Slots,
        selected_slot: 1,
        selected_item: 0,
        selected_action: 0,
        selected_pack: 0,
        selected_map: 0,
        selected_status: 0,
        selected_tab: 3,
        input_hints_enabled: true,
        compact_layout: false,
        detail_level: DetailLevel::Normal,
        touch_select_then_tap: true,
        menu_toggle_binding: MenuToggleBinding::EscapeOrStart,
        open_style: OpenCloseStyle::OotPageFold,
        status_scroll: 0,
        equipped_weapon: 0,
        equipped_feet: None,
        equipped_charm: None,
        pack_counts: seq![3u8, 5u8, 1u8, 8u8, 2u8, 1u8],
        iron_boots_active: false,
        gear_action_popup_open: false,
        status: "Select a gear item to open its action menu."@,
        revision: 0,
    }
}

impl Default for InventoryDemo {
    fn default() -> (d: InventoryDemo)
        ensures
            d@ == initial_inventory(),
            d@.wf(),
    {
        InventoryDemo::new()
    }
}

impl InventoryDemo {
    /// The pages in ring order.
    pub fn pages() -> (ps: [Page; 4])
        ensures
            forall|i: int| 0 <= i < 4 ==> ps@[i] == page_from_index(i),
    {
        [Page::Gear, Page::Pack, Page::MapPage, Page::Status]
    }

    /// The pages in tab strip order.
    pub fn tab_pages() -> (ps: [Page; 4])
        ensures
            forall|i: int| 0 <= i < 4 ==> ps@[i] == tab_page(i),
    {
        [Page::Status, Page::MapPage, Page::Pack, Page::Gear]
    }

    /// Where `page` sits in the tab strip.
    pub fn tab_index_for_page(page: Page) -> (i: usize)
        ensures
            i == tab_index(page),
            tab_page(i as int) == page,
    {
        match page {
            Page::Status => 0,
            Page::MapPage => 1,
            Page::Pack => 2,
            Page::Gear => 3,
        }
    }

    pub fn new() -> (d: InventoryDemo)
        ensures
            d@ == initial_inventory(),
            d@.wf(),
    {
        let d = InventoryDemo {
            page: Page::Gear,
            focus_area: FocusArea::Slots,
            selected_slot: 1,
            selected_item: 0,
            selected_action: 0,
            selected_pack: 0,
            selected_map: 0,
            selected_status: 0,
            selected_tab: InventoryDemo::tab_index_for_page(Page::Gear),
            input_hints_enabled: true,
            compact_layout: false,
            detail_level: DetailLevel::Normal,
            touch_select_then_tap: true,
            menu_toggle_binding: MenuToggleBinding::EscapeOrStart,
            open_style: OpenCloseStyle::from_menu_style(
                crate::menu::MenuOpenCloseStyle::OotPageFold,
            ),
            status_scroll: 0,
            equipped_weapon: 0,
            equipped_feet: None,
            equipped_charm: None,
            pack_counts: [3, 5, 1, 8, 2, 1],
            iron_boots_active: false,
            gear_action_popup_open: false,
            status: String::from_str("Select a gear item to open its action menu."),
            revision: 0,
        };
        assert(d@.pack_counts =~= seq![3u8, 5u8, 1u8, 8u8, 2u8, 1u8]);
        d
    }

    /// Marks the menu as changed so renderers rebuild it.
    pub fn bump(&mut self)
        ensures
            final(self)@ == old(self)@.bumped(),
    {
        self.revision = self.revision.wrapping_add(1);
    }

    /// Names of the three gear slots.
    pub fn slots(&self) -> (names: [&'static str; 3])
        ensures
            forall|i: int| 0 <= i < 3 ==> (#[trigger] names@[i])@ == slot_name(i),
    {
        slot_names()
    }

    /// Text shown for gear slot `idx`.
    pub fn slot_value(&self, idx: usize) -> (s: String)
        requires
            self@.wf(),
        ensures
            s@ == self@.slot_value(idx as int),
    {
        if idx == 0 {
            String::from_str(gear_name(0, self.equipped_weapon))
        } else if idx == 1 {
            match self.equipped_feet {
                Some(i) => if i == 0 && self.iron_boots_active {
                    String::from_str("Iron Boots  [active]")
                } else {
                    String::from_str(gear_name(1, i))
                },
                None => String::from_str("Empty"),
            }
        } else if idx == 2 {
            match self.equipped_charm {
                Some(i) => String::from_str(gear_name(2, i)),
                None => String::from_str("Empty"),
            }
        } else {
            String::from_str("")
        }
    }

    /// Names of the gear entries offered for the selected slot.
    pub fn items(&self) -> (names: [&'static str; 3])
        ensures
            forall|i: int|
                0 <= i < 3 ==> (#[trigger] names@[i])@ == gear_item_name(
                    self.selected_slot as int,
                    i,
                ),
    {
        let items = gear_items_for_slot(self.selected_slot);
        [items[0].0, items[1].0, items[2].0]
    }

    /// Description of gear entry `idx` of the selected slot.
    pub fn item_detail(&self, idx: usize) -> (s: &'static str)
        requires
            idx < 3,
        ensures
            s@ == gear_item_detail(self.selected_slot as int, idx as int),
    {
        gear_detail(self.selected_slot, idx)
    }

    /// Labels of the three gear actions for the entry under the cursor.
    pub fn actions(&self) -> (labels: [&'static str; 3])
        ensures
            forall|i: int| 0 <= i < 3 ==> (#[trigger] labels@[i])@ == self@.action_label(i),
    {
        let first = if self.selected_slot == 0 && self.equipped_weapon == self.selected_item {
            "Equipped"
        } else if self.is_selected_item_equipped() {
            "Unequip"
        } else {
            "Equip"
        };
        let second = if self.selected_slot == 1 && self.equipped_feet == Some(0usize)
            && self.selected_item == 0 {
            "Toggle active"
        } else {
            "Compare"
        };
        [first, second, "Inspect"]
    }

    pub fn is_selected_item_equipped(&self) -> (b: bool)
        ensures
            b == self@.selected_item_equipped(),
    {
        if self.selected_slot == 0 {
            self.equipped_weapon == self.selected_item
        } else if self.selected_slot == 1 {
            self.equipped_feet == Some(self.selected_item)
        } else if self.selected_slot == 2 {
            self.equipped_charm == Some(self.selected_item)
        } else {
            false
        }
    }

}

impl InventoryDemo {
    pub fn goto_page(&mut self, page: Page)
        requires
            old(self)@.wf(),
        ensures
            final(self)@ == old(self)@.after_goto_page(page),
            final(self)@.wf(),
    {
        reveal(InventoryView::after_goto_page);
        if self.page != page {
            self.page = page;
            self.selected_tab = InventoryDemo::tab_index_for_page(page);
            self.gear_action_popup_open = false;
            self.status = String::from_str(page.label()).concat(" page selected.");
            self.bump();
        } else {
            self.selected_tab = InventoryDemo::tab_index_for_page(page);
        }
    }

    /// Turns to the page before the current one on the ring.
    pub fn previous_page(&mut self)
        requires
            old(self)@.wf(),
        ensures
            final(self)@ == old(self)@.after_previous_page(),
            final(self)@.wf(),
    {
        reveal(InventoryView::after_previous_page);
        let next = Page::from_index(self.page.index() - 1);
        self.goto_page(next);
    }

    /// Turns to the page after the current one on the ring.
    pub fn next_page(&mut self)
        requires
            old(self)@.wf(),
        ensures
            final(self)@ == old(self)@.after_next_page(),
            final(self)@.wf(),
    {
        reveal(InventoryView::after_next_page);
        let next = Page::from_index(self.page.index() + 1);
        self.goto_page(next);
    }

    pub fn previous_focus_area(&mut self)
        requires
            old(self)@.wf(),
        ensures
            final(self)@ == old(self)@.after_previous_focus_area(),
            final(self)@.wf(),
    {
        reveal(InventoryView::after_previous_focus_area);
        self.focus_area = if self.page == Page::Gear {
            self.focus_area.previous()
        } else if self.focus_area == FocusArea::Tabs {
            FocusArea::Items
        } else {
            FocusArea::Tabs
        };
        self.bump();
    }

    pub fn next_focus_area(&mut self)
        requires
            old(self)@.wf(),
        ensures
            final(self)@ == old(self)@.after_next_focus_area(),
            final(self)@.wf(),
    {
        reveal(InventoryView::after_next_focus_area);
        self.focus_area = if self.page == Page::Gear {
            self.focus_area.next()
        } else if self.focus_area == FocusArea::Tabs {
            FocusArea::Items
        } else {
            FocusArea::Tabs
        };
        self.bump();
    }

    /// The page named by the tab under the tab cursor.
    pub fn selected_tab_page(&self) -> (p: Page)
        ensures
            p == self@.selected_tab_page(),
    {
        let tabs = InventoryDemo::tab_pages();
        let i = if self.selected_tab > 3 { 3 } else { self.selected_tab };
        tabs[i]
    }

    /// The content column that takes focus when leaving the tab strip.
    pub fn active_content_area(&self) -> (a: FocusArea)
        ensures
            a == self@.active_content_area(),
    {
        match self.page {
            Page::Gear => FocusArea::Slots,
            _ => FocusArea::Items,
        }
    }

    /// Scrolls the Status pane just far enough to show the selected row.
    #[verifier::rlimit(40)]
    pub fn ensure_status_visible(&mut self)
        requires
            old(self)@.wf(),
        ensures
            final(self)@ == old(self)@.after_ensure_status_visible(),
            final(self)@.wf(),
            final(self).status_scroll <= final(self).selected_status < final(self).status_scroll
                + STATUS_VISIBLE_ROWS,
    {
        let count = status_row_count();
        let max_start = count - STATUS_VISIBLE_ROWS;
        if self.selected_status < self.status_scroll {
            self.status_scroll = self.selected_status;
        } else if self.selected_status >= self.status_scroll + STATUS_VISIBLE_ROWS {
            self.status_scroll = self.selected_status + 1 - STATUS_VISIBLE_ROWS;
        }
        if self.status_scroll > max_start {
            self.status_scroll = max_start;
        }
    }

    /// Up/down navigation (`delta < 0` is up).
    #[verifier::rlimit(60)]
    pub fn move_focus_vertical(&mut self, delta: i32)
        requires
            old(self)@.wf(),
            vertical_move_fits(old(self)@, delta as int),
        ensures
            final(self)@ == old(self)@.after_move_focus_vertical(delta as int),
            final(self)@.wf(),
    {
        reveal(InventoryView::after_move_focus_vertical);
        if self.focus_area == FocusArea::Tabs {
            if delta > 0 {
                self.focus_area = self.active_content_area();
            }
            self.bump();
            return;
        }
        match self.page {
            Page::Gear => match self.focus_area {
                FocusArea::Slots => {
                    if delta < 0 && self.selected_slot == 0 {
                        self.focus_area = FocusArea::Tabs;
                    } else {
                        self.selected_slot = wrap_index(self.selected_slot, 3, delta);
                    }
                },
                FocusArea::Items => {
                    if delta < 0 && self.selected_item == 0 {
                        self.focus_area = FocusArea::Tabs;
                    } else {
                        self.selected_item = wrap_index(self.selected_item, 3, delta);
                    }
                },
                _ => {
                    if delta < 0 && self.selected_action == 0 {
                        self.focus_area = FocusArea::Tabs;
                    } else {
                        self.selected_action = wrap_index(self.selected_action, 3, delta);
                    }
                },
            },
            Page::Pack => {
                if delta < 0 && self.selected_pack < 2 {
                    self.focus_area = FocusArea::Tabs;
                } else {
                    self.focus_area = FocusArea::Items;
                    self.selected_pack = move_pack_index(self.selected_pack, 0, delta);
                }
            },
            Page::MapPage => {
                if delta < 0 && self.selected_map == 0 {
                    self.focus_area = FocusArea::Tabs;
                } else {
                    self.focus_area = FocusArea::Items;
                    self.selected_map = wrap_index(self.selected_map, map_marker_count(), delta);
                }
            },
            Page::Status => {
                if delta < 0 && self.selected_status == 0 {
                    self.focus_area = FocusArea::Tabs;
                } else {
                    self.focus_area = FocusArea::Items;
                    self.selected_status = clamp_index_delta(
                        self.selected_status,
                        status_row_count(),
                        delta,
                    );
                    self.ensure_status_visible();
                }
            },
        }
        self.bump();
    }

    /// Left/right navigation (`delta < 0` is left).
    pub fn move_focus_horizontal(&mut self, delta: i32)
        requires
            old(self)@.wf(),
            horizontal_move_fits(old(self)@, delta as int),
        ensures
            final(self)@ == old(self)@.after_move_focus_horizontal(delta as int),
            final(self)@.wf(),
    {
        reveal(InventoryView::after_move_focus_horizontal);
        if self.focus_area == FocusArea::Tabs {
            self.selected_tab = wrap_index(self.selected_tab, 4, delta);
            self.bump();
            return;
        }
        match self.page {
            Page::Gear => {
                if self.focus_area == FocusArea::Slots && delta > 0 {
                    self.focus_area = FocusArea::Items;
                    self.selected_item = if self.selected_slot > 2 {
                        2
                    } else {
                        self.selected_slot
                    };
                } else if self.focus_area == FocusArea::Items && delta > 0 {
                    self.focus_area = FocusArea::Actions;
                    self.selected_action = 0;
                    self.gear_action_popup_open = true;
                } else if self.focus_area == FocusArea::Items && delta < 0 {
                    self.focus_area = FocusArea::Slots;
                    self.selected_slot = if self.selected_item > 2 {
                        2
                    } else {
                        self.selected_item
                    };
                } else if self.focus_area == FocusArea::Actions && delta < 0 {
                    self.focus_area = FocusArea::Items;
                    self.gear_action_popup_open = false;
                }
            },
            Page::Pack => {
                self.focus_area = FocusArea::Items;
                self.selected_pack = move_pack_index(self.selected_pack, delta, 0);
            },
            Page::MapPage => {
                self.focus_area = FocusArea::Items;
                self.selected_map = wrap_index(self.selected_map, map_marker_count(), delta);
            },
            Page::Status => {
                self.focus_area = FocusArea::Items;
                self.selected_status = clamp_index_delta(
                    self.selected_status,
                    status_row_count(),
                    delta,
                );
                self.ensure_status_visible();
            },
        }
        self.bump();
    }

    /// Backs out one column toward the tab strip.
    pub fn back(&mut self)
        requires
            old(self)@.wf(),
        ensures
            final(self)@ == old(self)@.after_back(),
            final(self)@.wf(),
    {
        reveal(InventoryView::after_back);
        self.focus_area = if self.page == Page::Gear {
            match self.focus_area {
                FocusArea::Actions => {
                    self.gear_action_popup_open = false;
                    FocusArea::Items
                },
                FocusArea::Items => FocusArea::Slots,
                _ => FocusArea::Tabs,
            }
        } else {
            FocusArea::Tabs
        };
        self.status = String::from_str("Back.");
        self.bump();
    }

    pub fn toggle_input_hints(&mut self)
        requires
            old(self)@.wf(),
        ensures
            final(self)@ == old(self)@.after_toggle_input_hints(),
            final(self)@.wf(),
    {
        reveal(InventoryView::after_toggle_input_hints);
        self.input_hints_enabled = !self.input_hints_enabled;
        self.status = if self.input_hints_enabled {
            String::from_str("Input hints enabled.")
        } else {
            String::from_str("Input hints hidden.")
        };
        self.bump();
    }

    pub fn toggle_compact_layout(&mut self)
        requires
            old(self)@.wf(),
        ensures
            final(self)@ == old(self)@.after_toggle_compact_layout(),
            final(self)@.wf(),
    {
        reveal(InventoryView::after_toggle_compact_layout);
        self.compact_layout = !self.compact_layout;
        self.status = if self.compact_layout {
            String::from_str("Compact layout selected.")
        } else {
            String::from_str("Cozy layout selected.")
        };
        self.bump();
    }

    pub fn cycle_detail_level(&mut self)
        requires
            old(self)@.wf(),
        ensures
            final(self)@ == old(self)@.after_cycle_detail_level(),
            final(self)@.wf(),
    {
        reveal(InventoryView::after_cycle_detail_level);
        self.detail_level = self.detail_level.next();
        self.status = String::from_str("Detail level: ").concat(self.detail_level.label()).concat(
            ".",
        );
        self.bump();
    }

    pub fn toggle_touch_mode(&mut self)
        requires
            old(self)@.wf(),
        ensures
            final(self)@ == old(self)@.after_toggle_touch_mode(),
            final(self)@.wf(),
    {
        reveal(InventoryView::after_toggle_touch_mode);
        self.touch_select_then_tap = !self.touch_select_then_tap;
        self.status = if self.touch_select_then_tap {
            String::from_str("Touch mode: select first, tap again to activate.")
        } else {
            String::from_str("Touch mode: activate immediately.")
        };
        self.bump();
    }

    pub fn cycle_menu_toggle_binding(&mut self)
        requires
            old(self)@.wf(),
        ensures
            final(self)@ == old(self)@.after_cycle_menu_toggle_binding(),
            final(self)@.wf(),
    {
        reveal(InventoryView::after_cycle_menu_toggle_binding);
        self.menu_toggle_binding = self.menu_toggle_binding.next();
        self.status = String::from_str("Menu toggle input: ").concat(
            self.menu_toggle_binding.label(),
        ).concat(".");
        self.bump();
    }

    pub fn cycle_open_style(&mut self)
        requires
            old(self)@.wf(),
        ensures
            final(self)@ == old(self)@.after_cycle_open_style(),
            final(self)@.wf(),
    {
        reveal(InventoryView::after_cycle_open_style);
        self.open_style = self.open_style.next();
        self.status = String::from_str("Open/close style: ").concat(self.open_style.label()).concat(
            ".",
        );
        self.bump();
    }

    /// Scrolls the Status pane by `delta` rows, keeping the selection on screen.
    pub fn scroll_status(&mut self, delta: i32)
        requires
            old(self)@.wf(),
            old(self).status_scroll + delta <= i32::MAX,
        ensures
            final(self)@ == old(self)@.after_scroll_status(delta as int),
            final(self)@.wf(),
            final(self).status_scroll <= final(self).selected_status < final(self).status_scroll
                + STATUS_VISIBLE_ROWS,
    {
        reveal(InventoryView::after_scroll_status);
        let count = status_row_count();
        let max_start = count - STATUS_VISIBLE_ROWS;
        self.status_scroll = clamp_index_delta(self.status_scroll, max_start + 1, delta);
        let hi = if self.status_scroll + STATUS_VISIBLE_ROWS - 1 > count - 1 {
            count - 1
        } else {
            self.status_scroll + STATUS_VISIBLE_ROWS - 1
        };
        if self.selected_status < self.status_scroll {
            self.selected_status = self.status_scroll;
        } else if self.selected_status > hi {
            self.selected_status = hi;
        }
        self.focus_area = FocusArea::Items;
        self.bump();
    }

    pub fn try_toggle_iron_boots(&mut self)
        requires
            old(self)@.wf(),
        ensures
            final(self)@ == old(self)@.after_try_toggle_iron_boots(),
            final(self)@.wf(),
    {
        reveal(InventoryView::after_try_toggle_iron_boots);
        if self.equipped_feet == Some(0usize) {
            self.iron_boots_active = !self.iron_boots_active;
            self.status = if self.iron_boots_active {
                String::from_str("Iron Boots active: anchored and heavy.")
            } else {
                String::from_str("Iron Boots inactive: normal movement restored.")
            };
        } else {
            self.status = String::from_str(
                "Equip Iron Boots in the Feet slot before toggling them.",
            );
        }
        self.bump();
    }

    /// Equips the gear entry under the cursor in its slot, or removes it when
    /// it is already worn (the weapon slot is never left empty).
    pub fn equip_or_unequip_selected_item(&mut self)
        requires
            old(self)@.wf(),
        ensures
            final(self)@ == old(self)@.after_equip_or_unequip_selected_item(),
            final(self)@.wf(),
    {
        reveal(InventoryView::after_equip_or_unequip_selected_item);
        let item = gear_name(self.selected_slot, self.selected_item);
        if self.selected_slot == 0 {
            self.equipped_weapon = self.selected_item;
            self.status = String::from_str(item).concat(" equipped as Weapon.");
        } else if self.selected_slot == 1 {
            if self.equipped_feet == Some(self.selected_item) {
                self.equipped_feet = None;
                self.iron_boots_active = false;
                self.status = String::from_str(item).concat(" removed from Feet.");
            } else {
                self.equipped_feet = Some(self.selected_item);
                if self.selected_item != 0 {
                    self.iron_boots_active = false;
                }
                self.status = String::from_str(item).concat(" equipped to Feet.");
            }
        } else if self.selected_slot == 2 {
            if self.equipped_charm == Some(self.selected_item) {
                self.equipped_charm = None;
                self.status = String::from_str(item).concat(" charm removed.");
            } else {
                self.equipped_charm = Some(self.selected_item);
                self.status = String::from_str(item).concat(" charm equipped.");
            }
        }
        self.bump();
    }

    /// Runs gear action `action_idx` (equip/unequip, toggle or compare, inspect).
    pub fn activate_action(&mut self, action_idx: usize)
        requires
            old(self)@.wf(),
        ensures
            final(self)@ == old(self)@.after_activate_action(action_idx as int),
            final(self)@.wf(),
    {
        reveal(InventoryView::after_activate_action);
        if action_idx == 0 {
            self.equip_or_unequip_selected_item();
        } else if action_idx == 1 {
            if self.selected_slot == 1 && self.selected_item == 0 {
                self.try_toggle_iron_boots();
            } else {
                let item = gear_name(self.selected_slot, self.selected_item);
                let equipped = self.slot_value(self.selected_slot);
                self.status = String::from_str("Compare ").concat(item).concat(" with ").concat(
                    equipped.as_str(),
                ).concat(".");
                self.bump();
            }
        } else {
            let item = gear_name(self.selected_slot, self.selected_item);
            let detail = self.item_detail(self.selected_item);
            self.status = String::from_str(item).concat(": ").concat(detail).concat(".");
            self.bump();
        }
    }

    /// Uses one unit of a consumable Pack entry, or describes any other entry.
    /// `idx` names one of the Pack page's entries, as its controls carry.
    #[verifier::rlimit(40)]
    pub fn consume_pack_item(&mut self, idx: usize)
        requires
            old(self)@.wf(),
            idx < PACK_ITEM_COUNT,
        ensures
            final(self)@ == old(self)@.after_consume_pack_item(idx as int),
            final(self)@.wf(),
    {
        reveal(InventoryView::after_consume_pack_item);
        self.selected_pack = idx;
        if idx == 0 || idx == 1 || idx == 3 {
            if self.pack_counts[idx] > 0 {
                let remaining = self.pack_counts[idx] - 1;
                self.pack_counts[idx] = remaining;
                self.status = pack_use_message(idx, remaining);
            } else {
                self.status = String::from_str(pack_name(idx)).concat(" is empty.");
            }
        } else {
            self.status = pack_status(idx, self);
        }
        self.bump();
    }
}

/// Label column of Status row `i`.
pub fn status_label(i: usize) -> (s: &'static str)
    ensures
        s@ == status_row_label(i as int),
{
    if i == 0 {
        "Mobility"
    } else if i == 1 {
        "Feet slot"
    } else if i == 2 {
        "[ ] Input hints"
    } else if i == 3 {
        "Layout density"
    } else if i == 4 {
        "Detail level"
    } else if i == 5 {
        "Touch mode"
    } else if i == 6 {
        "Menu toggle"
    } else if i == 7 {
        "Open/close"
    } else if i == 8 {
        "SFX hook"
    } else if i == 9 {
        "Music hook"
    } else if i == 10 {
        "Page switch"
    } else if i == 11 {
        "Pointer swipe"
    } else if i == 12 {
        "Drag cancel"
    } else if i == 13 {
        "Touch scroll"
    } else if i == 14 {
        "Sprite icons"
    } else {
        "Component"
    }
}

/// Control kind of Status row `i`.
pub fn status_kind(i: usize) -> (k: MenuControlKind)
    ensures
        k == status_row_kind(i as int),
{
    if i == 2 {
        MenuControlKind::OptionToggle
    } else if 3 <= i && i <= 7 {
        MenuControlKind::OptionChoice
    } else {
        MenuControlKind::Decoration
    }
}

impl InventoryDemo {
    /// Value column of Status row `i`.
    pub fn status_value(&self, i: usize) -> (s: String)
        ensures
            s@ == self@.status_row_value(i as int),
    {
        if i == 0 {
            String::from_str(if self.iron_boots_active { "Anchored" } else { "Normal" })
        } else if i == 1 {
            String::from_str(
                if self.equipped_feet == Some(0usize) {
                    "Iron Boots"
                } else {
                    "Empty"
                },
            )
        } else if i == 2 {
            checked_label(self.input_hints_enabled)
        } else if i == 3 {
            String::from_str(if self.compact_layout { "Compact" } else { "Cozy" })
        } else if i == 4 {
            String::from_str(self.detail_level.label())
        } else if i == 5 {
            String::from_str(
                if self.touch_select_then_tap {
                    "Select + tap"
                } else {
                    "Instant tap"
                },
            )
        } else if i == 6 {
            String::from_str(self.menu_toggle_binding.label())
        } else if i == 7 {
            String::from_str(self.open_style.label())
        } else if i == 8 {
            String::from_str("Queued shell effects")
        } else if i == 9 {
            String::from_str("Host can duck/muffle on Opened")
        } else if i == 10 {
            String::from_str("Q/E, wheel, bumpers")
        } else if i == 11 {
            String::from_str("Drag left/right to change pages")
        } else if i == 12 {
            String::from_str("Press, drag off, release cancels")
        } else if i == 13 {
            String::from_str("Drag Status list vertically")
        } else if i == 14 {
            String::from_str("Controls use asset-backed sprites")
        } else {
            String::from_str("Lunex data-driven shell")
        }
    }

    /// Activates Status row `idx`: option rows change their option, other rows
    /// describe themselves in the status line.
    pub fn activate_status_row(&mut self, idx: usize)
        requires
            old(self)@.wf(),
        ensures
            final(self)@ == old(self)@.after_activate_status_row(idx as int),
            final(self)@.wf(),
    {
        reveal(InventoryView::after_activate_status_row);
        if idx == 2 {
            self.toggle_input_hints();
        } else if idx == 3 {
            self.toggle_compact_layout();
        } else if idx == 4 {
            self.cycle_detail_level();
        } else if idx == 5 {
            self.toggle_touch_mode();
        } else if idx == 6 {
            self.cycle_menu_toggle_binding();
        } else if idx == 7 {
            self.cycle_open_style();
        } else {
            self.status = status_row_message(idx, self);
        }
    }

    /// Enter / South: activates whatever has focus.
    pub fn activate_focused(&mut self)
        requires
            old(self)@.wf(),
        ensures
            final(self)@ == old(self)@.after_activate_focused(),
            final(self)@.wf(),
    {
        reveal(InventoryView::after_activate_focused);
        if self.focus_area == FocusArea::Tabs {
            let page = self.selected_tab_page();
            self.goto_page(page);
            return;
        }
        match self.page {
            Page::Gear => match self.focus_area {
                FocusArea::Slots => {
                    self.focus_area = FocusArea::Items;
                    let names = self.slots();
                    self.status = String::from_str("Choose gear for ").concat(
                        names[self.selected_slot],
                    ).concat(" slot.");
                },
                FocusArea::Items => {
                    self.focus_area = FocusArea::Actions;
                    self.selected_action = 0;
                    self.gear_action_popup_open = true;
                    let names = self.items();
                    self.status = String::from_str(names[self.selected_item]).concat(
                        " selected; choose an action.",
                    );
                },
                _ => {
                    let a = self.selected_action;
                    self.activate_action(a);
                },
            },
            Page::Pack => {
                let p = self.selected_pack;
                self.consume_pack_item(p);
            },
            Page::MapPage => {
                self.status = String::from_str(map_status(self.selected_map));
            },
            Page::Status => {
                let r = self.selected_status;
                self.activate_status_row(r);
            },
        }
        self.bump();
    }

    /// Pointer hover: moves the cursor onto `action`'s control without
    /// activating it; the revision changes only when the cursor moved.
    ///
    /// Only actions that the menu's own controls carry are accepted
    /// (`click_action_valid`, which every control of `page_content` meets,
    /// `law_offered_actions_are_valid`): the menu's invariant keeps each
    /// cursor on its table, and an index past a table would take a cursor
    /// off it. No control of the menu ever carries such an index.
    pub fn hover(&mut self, action: ClickAction)
        requires
            old(self)@.wf(),
            click_action_valid(action),
        ensures
            final(self)@ == old(self)@.after_hover(action),
            final(self)@.wf(),
    {
        let before_page = self.page;
        let before_focus = self.focus_area;
        let before_tab = self.selected_tab;
        let before_slot = self.selected_slot;
        let before_item = self.selected_item;
        let before_action = self.selected_action;
        let before_pack = self.selected_pack;
        let before_map = self.selected_map;
        let before_status = self.selected_status;
        let before_popup = self.gear_action_popup_open;
        self.move_cursor_to(action);
        let changed = before_page != self.page || before_focus != self.focus_area || before_tab
            != self.selected_tab || before_slot != self.selected_slot || before_item
            != self.selected_item || before_action != self.selected_action || before_pack
            != self.selected_pack || before_map != self.selected_map || before_status
            != self.selected_status || before_popup != self.gear_action_popup_open;
        if changed {
            self.bump();
        }
    }

    /// Moves the cursor to `action`'s control (the state change of a hover).
    fn move_cursor_to(&mut self, action: ClickAction)
        requires
            old(self)@.wf(),
            click_action_valid(action),
        ensures
            final(self)@ == old(self)@.hover_target(action),
            final(self)@.wf(),
    {
        match action {
            ClickAction::Goto(_) | ClickAction::FocusArea(_) | ClickAction::SelectSlot(_)
            | ClickAction::SelectItem(_) | ClickAction::Action(_) => self.move_cursor_gear(action),
            _ => self.move_cursor_content(action),
        }
    }

    fn move_cursor_gear(&mut self, action: ClickAction)
        requires
            old(self)@.wf(),
            click_action_valid(action),
            action is Goto || action is FocusArea || action is SelectSlot || action is SelectItem
                || action is Action,
        ensures
            final(self)@ == old(self)@.hover_target(action),
            final(self)@.wf(),
    {
        reveal(InventoryView::hover_target);
        match action {
            ClickAction::Goto(page) => {
                self.focus_area = FocusArea::Tabs;
                self.selected_tab = InventoryDemo::tab_index_for_page(page);
            },
            ClickAction::FocusArea(area) => {
                self.focus_area = area;
                if area == FocusArea::Actions {
                    self.gear_action_popup_open = true;
                }
            },
            ClickAction::SelectSlot(idx) => {
                self.page = Page::Gear;
                self.focus_area = FocusArea::Slots;
                self.selected_slot = idx;
                self.gear_action_popup_open = false;
            },
            ClickAction::SelectItem(idx) => {
                self.page = Page::Gear;
                self.focus_area = FocusArea::Items;
                self.selected_item = idx;
            },
            _ => {
                let idx = match action {
                    ClickAction::Action(i) => i,
                    _ => 0,
                };
                self.page = Page::Gear;
                self.focus_area = FocusArea::Actions;
                self.selected_action = idx;
                self.gear_action_popup_open = true;
            },
        }
    }

    fn move_cursor_content(&mut self, action: ClickAction)
        requires
            old(self)@.wf(),
            click_action_valid(action),
            !(action is Goto || action is FocusArea || action is SelectSlot || action is SelectItem
                || action is Action),
        ensures
            final(self)@ == old(self)@.hover_target(action),
            final(self)@.wf(),
    {
        reveal(InventoryView::hover_target);
        match action {
            ClickAction::PackItem(idx) => {
                self.page = Page::Pack;
                self.focus_area = FocusArea::Items;
                self.selected_pack = idx;
            },
            ClickAction::MapMarker(idx) => {
                self.page = Page::MapPage;
                self.focus_area = FocusArea::Items;
                self.selected_map = idx;
            },
            ClickAction::StatusRow(idx) => {
                self.page = Page::Status;
                self.focus_area = FocusArea::Items;
                self.selected_status = idx;
            },
            ClickAction::StatusScrollTo(slot) => {
                self.page = Page::Status;
                self.focus_area = FocusArea::Items;
                self.scroll_status_to(slot);
            },
            _ => {
                self.page = Page::Status;
                self.focus_area = FocusArea::Items;
            },
        }
    }

    /// Scrolls the Status pane so `slot` is the first visible row (at most the
    /// last full page) and pulls the selection into view.
    fn scroll_status_to(&mut self, slot: usize)
        requires
            old(self)@.wf(),
        ensures
            final(self)@ == (InventoryView {
                status_scroll: (if slot > max_status_scroll() {
                    max_status_scroll()
                } else {
                    slot as int
                }) as usize,
                selected_status: InventoryView::selection_clamped_to_scroll(
                    old(self).selected_status as int,
                    if slot > max_status_scroll() {
                        max_status_scroll()
                    } else {
                        slot as int
                    },
                ) as usize,
                ..old(self)@
            }),
            final(self)@.wf(),
    {
        let count = status_row_count();
        let max_start = count - STATUS_VISIBLE_ROWS;
        self.status_scroll = if slot > max_start { max_start } else { slot };
        let hi = if self.status_scroll + STATUS_VISIBLE_ROWS - 1 > count - 1 {
            count - 1
        } else {
            self.status_scroll + STATUS_VISIBLE_ROWS - 1
        };
        if self.selected_status < self.status_scroll {
            self.selected_status = self.status_scroll;
        } else if self.selected_status > hi {
            self.selected_status = hi;
        }
    }

    /// Pointer click / tap activation of `action`'s control.
    ///
    /// Only actions that the menu's own controls carry are accepted
    /// (`click_action_valid`, which every control of `page_content` meets,
    /// `law_offered_actions_are_valid`): the menu's invariant keeps each
    /// cursor on its table, and an index past a table would take a cursor
    /// off it. No control of the menu ever carries such an index.
    pub fn click(&mut self, action: ClickAction)
        requires
            old(self)@.wf(),
            click_action_valid(action),
        ensures
            final(self)@ == old(self)@.after_click(action),
            final(self)@.wf(),
    {
        match action {
            ClickAction::Goto(page) => self.click_goto(page),
            ClickAction::FocusArea(area) => self.click_focus_area(area),
            ClickAction::SelectSlot(idx) => self.click_slot(idx),
            ClickAction::SelectItem(idx) => self.click_item(idx),
            ClickAction::Action(idx) => self.click_action(idx),
            ClickAction::PackItem(idx) => self.click_pack_item(idx),
            ClickAction::MapMarker(idx) => self.click_map_marker(idx),
            ClickAction::StatusRow(idx) => self.click_status_row(idx),
            ClickAction::StatusScrollTo(slot) => self.click_scroll_to(slot),
            _ => self.click_option(action),
        }
    }

    fn click_goto(&mut self, page: Page)
        requires
            old(self)@.wf(),
        ensures
            final(self)@ == old(self)@.after_click(ClickAction::Goto(page)),
            final(self)@.wf(),
    {
        reveal(InventoryView::after_click);
        self.focus_area = FocusArea::Tabs;
        self.selected_tab = InventoryDemo::tab_index_for_page(page);
        self.goto_page(page);
    }

    fn click_focus_area(&mut self, area: FocusArea)
        requires
            old(self)@.wf(),
        ensures
            final(self)@ == old(self)@.after_click(ClickAction::FocusArea(area)),
            final(self)@.wf(),
    {
        reveal(InventoryView::after_click);
        self.focus_area = area;
        if area == FocusArea::Actions {
            self.gear_action_popup_open = true;
        }
        self.bump();
    }

    fn click_action(&mut self, idx: usize)
        requires
            old(self)@.wf(),
            idx < 3,
        ensures
            final(self)@ == old(self)@.after_click(ClickAction::Action(idx)),
            final(self)@.wf(),
    {
        reveal(InventoryView::after_click);
        self.page = Page::Gear;
        self.focus_area = FocusArea::Actions;
        self.selected_action = idx;
        self.activate_action(idx);
        self.bump();
    }

    fn click_pack_item(&mut self, idx: usize)
        requires
            old(self)@.wf(),
            idx < PACK_ITEM_COUNT,
        ensures
            final(self)@ == old(self)@.after_click(ClickAction::PackItem(idx)),
            final(self)@.wf(),
    {
        reveal(InventoryView::after_click);
        self.page = Page::Pack;
        self.focus_area = FocusArea::Items;
        self.consume_pack_item(idx);
    }

    fn click_map_marker(&mut self, idx: usize)
        requires
            old(self)@.wf(),
            idx < MAP_MARKER_COUNT,
        ensures
            final(self)@ == old(self)@.after_click(ClickAction::MapMarker(idx)),
            final(self)@.wf(),
    {
        reveal(InventoryView::after_click);
        self.page = Page::MapPage;
        self.selected_map = idx;
        self.status = String::from_str(map_status(idx));
        self.bump();
    }

    fn click_status_row(&mut self, idx: usize)
        requires
            old(self)@.wf(),
            idx < STATUS_ROW_COUNT,
        ensures
            final(self)@ == old(self)@.after_click(ClickAction::StatusRow(idx)),
            final(self)@.wf(),
    {
        reveal(InventoryView::after_click);
        self.page = Page::Status;
        self.focus_area = FocusArea::Items;
        self.selected_status = idx;
        self.activate_status_row(idx);
        self.bump();
    }

    fn click_option(&mut self, action: ClickAction)
        requires
            old(self)@.wf(),
            action is ToggleInputHints || action is ToggleCompactLayout || action is CycleDetailLevel
                || action is ToggleTouchMode || action is CycleOpenStyle,
        ensures
            final(self)@ == old(self)@.after_click(action),
            final(self)@.wf(),
    {
        reveal(InventoryView::after_click);
        match action {
            ClickAction::ToggleInputHints => self.toggle_input_hints(),
            ClickAction::ToggleCompactLayout => self.toggle_compact_layout(),
            ClickAction::CycleDetailLevel => self.cycle_detail_level(),
            ClickAction::ToggleTouchMode => self.toggle_touch_mode(),
            _ => self.cycle_open_style(),
        }
    }

    fn click_slot(&mut self, idx: usize)
        requires
            old(self)@.wf(),
            idx < 3,
        ensures
            final(self)@ == old(self)@.after_click(ClickAction::SelectSlot(idx)),
            final(self)@.wf(),
    {
        reveal(InventoryView::after_click);
        self.page = Page::Gear;
        self.selected_slot = idx;
        self.selected_item = if idx == 0 {
            self.equipped_weapon
        } else if idx == 1 {
            match self.equipped_feet {
                Some(i) => i,
                None => 0,
            }
        } else if idx == 2 {
            match self.equipped_charm {
                Some(i) => i,
                None => 0,
            }
        } else {
            0
        };
        self.focus_area = FocusArea::Items;
        self.gear_action_popup_open = false;
        let names = self.slots();
        self.status = String::from_str(names[idx]).concat(" slot selected; choose compatible gear.");
        self.bump();
    }

    fn click_item(&mut self, idx: usize)
        requires
            old(self)@.wf(),
            idx < 3,
        ensures
            final(self)@ == old(self)@.after_click(ClickAction::SelectItem(idx)),
            final(self)@.wf(),
    {
        reveal(InventoryView::after_click);
        self.page = Page::Gear;
        self.focus_area = FocusArea::Actions;
        self.selected_item = idx;
        self.selected_action = 0;
        self.gear_action_popup_open = true;
        let names = self.items();
        self.status = String::from_str(names[idx]).concat(" selected; choose an action.");
        self.bump();
    }

    fn click_scroll_to(&mut self, slot: usize)
        requires
            old(self)@.wf(),
        ensures
            final(self)@ == old(self)@.after_click(ClickAction::StatusScrollTo(slot)),
            final(self)@.wf(),
    {
        reveal(InventoryView::after_click);
        self.move_cursor_to(ClickAction::StatusScrollTo(slot));
        let row = decimal_string((self.status_scroll + 1) as u64);
        self.status = String::from_str("Status scroll: row ").concat(row.as_str()).concat(".");
        self.bump();
    }
}

/// Sprite for gear action `idx`.
pub fn action_icon(idx: usize, demo: &InventoryDemo) -> (s: &'static str)
    ensures
        s@ == (if idx == 0 && demo@.selected_item_equipped() {
            "icons/action_unequip.png"@
        } else if idx == 0 {
            "icons/action_equip.png"@
        } else if idx == 1 && demo.selected_slot == 1 && demo.selected_item == 0 {
            "icons/action_toggle.png"@
        } else if idx == 1 {
            "icons/action_compare.png"@
        } else {
            "icons/action_inspect.png"@
        }),
{
    if idx == 0 && demo.is_selected_item_equipped() {
        "icons/action_unequip.png"
    } else if idx == 0 {
        "icons/action_equip.png"
    } else if idx == 1 && demo.selected_slot == 1 && demo.selected_item == 0 {
        "icons/action_toggle.png"
    } else if idx == 1 {
        "icons/action_compare.png"
    } else {
        "icons/action_inspect.png"
    }
}

/// Caption under Pack entry `idx`.
/// `idx` names one of the Pack page's entries.
pub fn pack_detail(idx: usize, demo: &InventoryDemo) -> (s: String)
    requires
        idx < PACK_ITEM_COUNT,
    ensures
        s@ == pack_detail_text(idx as int, demo.pack_counts@),
{
    let base = pack_base(idx);
    if idx == 0 || idx == 1 || idx == 3 || idx == 4 {
        let n = decimal_string(demo.pack_counts[idx] as u64);
        String::from_str(base).concat(" x").concat(n.as_str())
    } else {
        String::from_str(base)
    }
}

/// Status-line text describing Pack entry `idx`.
pub fn pack_status(idx: usize, demo: &InventoryDemo) -> (s: String)
    ensures
        s@ == pack_status_text(idx as int, demo.pack_counts@),
{
    if idx == 0 {
        let n = decimal_string(demo.pack_counts[0] as u64);
        String::from_str("Healing Tincture: ").concat(n.as_str()).concat(" remaining.")
    } else if idx == 1 {
        let n = decimal_string(demo.pack_counts[1] as u64);
        String::from_str("Glow Seed: ").concat(n.as_str()).concat(" remaining.")
    } else if idx == 2 {
        String::from_str("Old Key: quest item, safe from selling.")
    } else if idx == 3 {
        let n = decimal_string(demo.pack_counts[3] as u64);
        String::from_str("Travel Ration: ").concat(n.as_str()).concat(" remaining.")
    } else if idx == 4 {
        let n = decimal_string(demo.pack_counts[4] as u64);
        String::from_str("River Pearl: trade good x").concat(n.as_str()).concat(".")
    } else {
        String::from_str("Sketch Map: field note linked to the Map page.")
    }
}

/// The Status page rows as (label, value, control kind), top to bottom.
pub fn status_rows(demo: &InventoryDemo) -> (rows: Vec<(&'static str, String, MenuControlKind)>)
    ensures
        rows.len() == STATUS_ROW_COUNT,
        forall|i: int|
            0 <= i < STATUS_ROW_COUNT ==> (#[trigger] rows@[i]).0@ == status_row_label(i)
                && rows@[i].1@ == demo@.status_row_value(i) && rows@[i].2
                == status_row_kind(i),
{
    let mut rows: Vec<(&'static str, String, MenuControlKind)> = Vec::new();
    let mut i: usize = 0;
    while i < STATUS_ROW_COUNT
        invariant
            i <= STATUS_ROW_COUNT,
            rows.len() == i,
            forall|j: int|
                0 <= j < i ==> (#[trigger] rows@[j]).0@ == status_row_label(j)
                    && rows@[j].1@ == demo@.status_row_value(j) && rows@[j].2
                    == status_row_kind(j),
        decreases STATUS_ROW_COUNT - i,
    {
        rows.push((status_label(i), demo.status_value(i), status_kind(i)));
        i = i + 1;
    }
    rows
}

/// `label: value` of Status row `idx` (clamped to the last row).
pub fn status_row_message(idx: usize, demo: &InventoryDemo) -> (s: String)
    ensures
        s@ == demo@.status_row_message(idx as int),
{
    let i = if idx > STATUS_ROW_COUNT - 1 { STATUS_ROW_COUNT - 1 } else { idx };
    let value = demo.status_value(i);
    String::from_str(status_label(i)).concat(": ").concat(value.as_str())
}

impl InventoryDemo {
    /// The mouse wheel turned `up` or down: the Status pane scrolls while
    /// Status is shown, other pages turn.
    pub fn scroll_wheel(&mut self, up: bool)
        requires
            old(self)@.wf(),
        ensures
            final(self)@ == old(self)@.after_wheel(up),
            final(self)@.wf(),
    {
        if self.page == Page::Status {
            if up {
                self.scroll_status(-1);
            } else {
                self.scroll_status(1);
            }
        } else if up {
            self.previous_page();
        } else {
            self.next_page();
        }
    }

    /// A vertical drag across the Status pane scrolls it by one row: with
    /// the scrollbar thumb, down goes deeper; with the content, up does.
    pub fn drag_scroll_status(&mut self, on_scrollbar: bool, moved_down: bool)
        requires
            old(self)@.wf(),
        ensures
            final(self)@ == old(self)@.after_drag_scroll(on_scrollbar, moved_down),
            final(self)@.wf(),
    {
        if on_scrollbar == moved_down {
            self.scroll_status(1);
        } else {
            self.scroll_status(-1);
        }
    }

    /// A tap released on the control it started on. Under select-then-tap,
    /// a tap on a control other than the one last tapped only selects it and
    /// is remembered; a second tap on it activates it. Otherwise every tap
    /// activates. Returns the control to remember for the next tap.
    ///
    /// Only actions that the menu's own controls carry are accepted
    /// (`click_action_valid`, which every control of `page_content` meets,
    /// `law_offered_actions_are_valid`): the menu's invariant keeps each
    /// cursor on its table, and an index past a table would take a cursor
    /// off it. No control of the menu ever carries such an index.
    pub fn tap(&mut self, action: ClickAction, last_touch: Option<ClickAction>) -> (remember:
        Option<ClickAction>)
        requires
            old(self)@.wf(),
            click_action_valid(action),
        ensures
            final(self)@.wf(),
            old(self).touch_select_then_tap && last_touch != Some(action) ==> final(self)@ == old(
                self,
            )@.after_hover(action) && remember == Some(action),
            !(old(self).touch_select_then_tap && last_touch != Some(action)) ==> final(self)@
                == old(self)@.after_click(action) && remember is None,
    {
        if self.touch_select_then_tap && last_touch != Some(action) {
            self.hover(action);
            Some(action)
        } else {
            self.click(action);
            None
        }
    }

    /// The pointer now rests over `hovered` (the control under it, if any).
    /// The cursor follows only when the control under the pointer changed
    /// since `last` and no press is being dragged; moving over empty space
    /// leaves the cursor where it is. Returns the control to remember as
    /// last hovered.
    pub fn pointer_hover(
        &mut self,
        hovered: Option<ClickAction>,
        last: Option<ClickAction>,
        dragging: bool,
    ) -> (remember: Option<ClickAction>)
        requires
            old(self)@.wf(),
            hovered matches Some(a) ==> click_action_valid(a),
        ensures
            final(self)@.wf(),
            hovered != last && !dragging ==> remember == hovered && final(self)@ == (match hovered {
                Some(a) => old(self)@.after_hover(a),
                None => old(self)@,
            }),
            !(hovered != last && !dragging) ==> remember == last && final(self)@ == old(self)@,
    {
        if hovered != last && !dragging {
            if let Some(action) = hovered {
                self.hover(action);
            }
            hovered
        } else {
            last
        }
    }

    /// A press went down over `hovered`: the cursor moves onto the pressed
    /// control before any release decides what the press does.
    pub fn pointer_press(&mut self, hovered: Option<ClickAction>)
        requires
            old(self)@.wf(),
            hovered matches Some(a) ==> click_action_valid(a),
        ensures
            final(self)@.wf(),
            final(self)@ == (match hovered {
                Some(a) => old(self)@.after_hover(a),
                None => old(self)@,
            }),
    {
        if let Some(action) = hovered {
            self.hover(action);
        }
    }

    /// A press dragged off its control was released: nothing activates.
    pub fn cancel_drag(&mut self)
        requires
            old(self)@.wf(),
        ensures
            final(self)@ == old(self)@.with_status("Canceled drag."@).bumped(),
            final(self)@.wf(),
    {
        self.status = String::from_str("Canceled drag.");
        self.bump();
    }
}

} // verus!
