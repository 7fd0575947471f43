//! The mock Ambition inventory: item counts owned by the host, one held-item
//! slot and one body slot, a 6x4 item grid with page-turn edge buttons, and a
//! scrollable description of the selected item.

use vstd::prelude::*;
use crate::mock_data::{
    equip_slot_label, kind_is_unique, mock_item, mock_item_description, mock_item_glyph,
    mock_item_kind, mock_item_name, mock_item_short, mock_item_start_count, mock_page_from_index,
    mock_page_index, mock_page_label, mock_page_subtitle, EquipSlot, ItemKind, MockAction,
    MockPage, PageTurn, DETAIL_VISIBLE_LINES, DETAIL_WRAP_COLS, ITEM_COUNT, ITEM_GRID_COLS,
    ITEM_GRID_ROWS,
};
use crate::inventory::next_revision;
use crate::text::{decimal, decimal_string};
use crate::wrap::{wrap_text, wrapped};

verus! {

/// Model of the mock inventory.
#[verifier::ext_equal]
pub struct MockView {
    pub page: MockPage,
    pub selected: MockAction,
    pub counts: Seq<u32>,
    pub held_item: Option<usize>,
    pub body_item: Option<usize>,
    pub detail_scroll: usize,
    pub status: Seq<char>,
    pub revision: u64,
}

/// The face physically to the viewer's left inside the cube: the next ring index.
pub open spec fn page_left_of(p: MockPage) -> MockPage {
    mock_page_from_index(mock_page_index(p) + 1)
}

/// The face physically to the viewer's right inside the cube: the previous ring index.
pub open spec fn page_right_of(p: MockPage) -> MockPage {
    mock_page_from_index(mock_page_index(p) - 1)
}

pub open spec fn turn_target(p: MockPage, dir: PageTurn) -> MockPage {
    match dir {
        PageTurn::ViewerLeft => page_left_of(p),
        PageTurn::ViewerRight => page_right_of(p),
    }
}

pub open spec fn default_action(p: MockPage) -> MockAction {
    match p {
        MockPage::Items => MockAction::Item(1),
        _ => MockAction::Placeholder(0),
    }
}

/// Actions carried by the mock menu's controls: item actions name an item.
pub open spec fn mock_action_valid(a: MockAction) -> bool {
    a matches MockAction::Item(i) ==> i < ITEM_COUNT
}

pub open spec fn clamp_int(x: int, lo: int, hi: int) -> int {
    if x < lo {
        lo
    } else if x > hi {
        hi
    } else {
        x
    }
}

/// Starting counts: every item holds its table start count.
pub open spec fn starter_counts() -> Seq<u32> {
    Seq::new(ITEM_COUNT as nat, |i: int| mock_item_start_count(i))
}

/// The starting state of the mock inventory.
pub open spec fn starter_view() -> MockView {
    MockView {
        page: MockPage::Items,
        selected: MockAction::Item(1),
        counts: starter_counts(),
        held_item: None,
        body_item: None,
        detail_scroll: 0,
        status: "Dummy game is paused. This is the Ambition mock inventory shell."@,
        revision: 0,
    }
}

impl MockView {
    /// Counts cover the item table, unique items are held at most once, and each
    /// slot holds nothing or one owned item of that slot.
    pub open spec fn wf(self) -> bool {
        &&& self.counts.len() == ITEM_COUNT
        &&& forall|i: int|
            0 <= i < ITEM_COUNT && kind_is_unique(mock_item_kind(i)) ==> #[trigger] self.counts[i]
                <= 1
        &&& (self.held_item matches Some(i) ==> i < ITEM_COUNT && mock_item_kind(i as int)
            == ItemKind::Equippable(EquipSlot::HeldItem) && self.counts[i as int] > 0)
        &&& (self.body_item matches Some(i) ==> i < ITEM_COUNT && mock_item_kind(i as int)
            == ItemKind::Equippable(EquipSlot::Body) && self.counts[i as int] > 0)
    }

    pub open spec fn bumped(self) -> MockView {
        MockView { revision: next_revision(self.revision), ..self }
    }

    pub open spec fn count(self, idx: int) -> u32 {
        if 0 <= idx < ITEM_COUNT {
            self.counts[idx]
        } else {
            0
        }
    }

    pub open spec fn has(self, idx: int) -> bool {
        self.count(idx) > 0
    }

    pub open spec fn equipped_in(self, slot: EquipSlot) -> Option<usize> {
        match slot {
            EquipSlot::HeldItem => self.held_item,
            EquipSlot::Body => self.body_item,
        }
    }

    pub open spec fn with_equipped(self, slot: EquipSlot, idx: Option<usize>) -> MockView {
        match slot {
            EquipSlot::HeldItem => MockView { held_item: idx, ..self },
            EquipSlot::Body => MockView { body_item: idx, ..self },
        }
    }

    pub open spec fn is_equipped(self, idx: int) -> bool {
        0 <= idx < ITEM_COUNT && match mock_item_kind(idx) {
            ItemKind::Equippable(slot) => self.equipped_in(slot) == Some(idx as usize),
            _ => false,
        }
    }

    pub open spec fn selected_index(self) -> int {
        match self.selected {
            MockAction::Item(i) => if i > ITEM_COUNT - 1 {
                ITEM_COUNT - 1
            } else {
                i as int
            },
            _ => 0,
        }
    }

    /// Status text describing what activating `action` would do.
    pub open spec fn describe(self, action: MockAction) -> Seq<char> {
        match action {
            MockAction::EdgeLeft => "Turn left to "@ + mock_page_label(page_left_of(self.page))
                + "."@,
            MockAction::EdgeRight => "Turn right to "@ + mock_page_label(page_right_of(self.page))
                + "."@,
            MockAction::Item(idx) => {
                let name = mock_item_name(idx as int);
                if !self.has(idx as int) {
                    name + " is visible but not acquired."@
                } else if self.is_equipped(idx as int) {
                    name + " is equipped. Activate to unequip."@
                } else {
                    match mock_item_kind(idx as int) {
                        ItemKind::Equippable(slot) => "Equip "@ + name + " to the "@
                            + equip_slot_label(slot) + " slot."@,
                        ItemKind::Consumable => "Use "@ + name + ". Count: "@ + decimal(
                            self.count(idx as int) as nat,
                        ) + "."@,
                        ItemKind::KeyItem => name + " is a key item with no direct action."@,
                        ItemKind::Reserved => "Reserved slot."@,
                    }
                }
            },
            MockAction::DetailScrollUp => "Scroll item description up."@,
            MockAction::DetailScrollDown => "Scroll item description down."@,
            MockAction::Placeholder(_) => mock_page_label(self.page) + " placeholder action."@,
        }
    }

    /// The description lines of item `idx`: its name, its wrapped
    /// description, a blank line, and the wrapped description of its action.
    pub open spec fn detail_lines(self, idx: int) -> Seq<Seq<char>> {
        seq![mock_item_name(idx)] + wrapped(mock_item_description(idx), DETAIL_WRAP_COLS as nat)
            + seq![Seq::<char>::empty()] + wrapped(
            self.describe(MockAction::Item(idx as usize)),
            DETAIL_WRAP_COLS as nat,
        )
    }

    pub open spec fn face_status(p: MockPage) -> Seq<char> {
        mock_page_label(p) + " face: "@ + mock_page_subtitle(p) + "."@
    }

    pub open spec fn after_goto_page(self, page: MockPage) -> MockView {
        if self.page != page {
            MockView {
                page: page,
                selected: default_action(page),
                detail_scroll: 0,
                status: Self::face_status(page),
                ..self
            }.bumped()
        } else {
            self
        }
    }

    pub open spec fn after_turn_page(self, dir: PageTurn) -> MockView {
        self.after_goto_page(turn_target(self.page, dir))
    }

    pub open spec fn after_turn_page_from_edge(self, dir: PageTurn) -> MockView {
        let target = turn_target(self.page, dir);
        if self.page != target {
            MockView {
                page: target,
                selected: match dir {
                    PageTurn::ViewerLeft => MockAction::EdgeRight,
                    PageTurn::ViewerRight => MockAction::EdgeLeft,
                },
                detail_scroll: 0,
                status: Self::face_status(target),
                ..self
            }.bumped()
        } else {
            self
        }
    }

    pub open spec fn after_grant(self, idx: int, n: u32) -> MockView {
        if 0 <= idx < ITEM_COUNT {
            let sum = self.counts[idx] + n;
            let next = if sum > u32::MAX {
                u32::MAX as int
            } else {
                sum
            };
            let capped = if kind_is_unique(mock_item_kind(idx)) && next > 1 {
                1
            } else {
                next
            };
            MockView { counts: self.counts.update(idx, capped as u32), ..self }
        } else {
            self
        }
    }

    pub open spec fn after_activate_item(self, idx: int) -> MockView {
        if !(0 <= idx < ITEM_COUNT) {
            self
        } else if !self.has(idx) {
            self.with_status(mock_item_name(idx) + " is not owned, so activation is ignored."@).bumped()
        } else {
            let name = mock_item_name(idx);
            let done = match mock_item_kind(idx) {
                ItemKind::Equippable(slot) => if self.equipped_in(slot) == Some(idx as usize) {
                    self.with_equipped(slot, None).with_status(
                        "Unequipped "@ + name + " from the "@ + equip_slot_label(slot) + " slot."@,
                    )
                } else {
                    let base = "Equipped "@ + name + " to the "@ + equip_slot_label(slot)
                        + " slot"@;
                    self.with_equipped(slot, Some(idx as usize)).with_status(
                        match self.equipped_in(slot) {
                            Some(old) => base + ", replacing "@ + mock_item_name(old as int) + "."@,
                            None => base + "."@,
                        },
                    )
                },
                ItemKind::Consumable => {
                    let left = (self.counts[idx] - 1) as u32;
                    MockView {
                        counts: self.counts.update(idx, left),
                        status: "Used "@ + name + ". Remaining: "@ + decimal(left as nat) + "."@,
                        ..self
                    }
                },
                ItemKind::KeyItem => self.with_status(
                    name + " is a key item; it has no direct inventory action."@,
                ),
                ItemKind::Reserved => self.with_status("Reserved slot has no action."@),
            };
            done.bumped()
        }
    }

    pub open spec fn with_status(self, s: Seq<char>) -> MockView {
        MockView { status: s, ..self }
    }

    pub open spec fn after_scroll_detail(self, delta: int) -> MockView {
        let len = self.detail_lines(self.selected_index()).len();
        let max_start = if len > DETAIL_VISIBLE_LINES {
            len - DETAIL_VISIBLE_LINES
        } else {
            0
        };
        let scroll = if delta < 0 {
            if self.detail_scroll + delta < 0 {
                0
            } else {
                self.detail_scroll + delta
            }
        } else {
            let s = if self.detail_scroll + delta > usize::MAX {
                usize::MAX as int
            } else {
                self.detail_scroll + delta
            };
            if s > max_start {
                max_start
            } else {
                s
            }
        };
        MockView {
            detail_scroll: scroll as usize,
            status: "Scrolled selected item description."@,
            ..self
        }.bumped()
    }

    pub open spec fn after_hover(self, action: MockAction) -> MockView {
        let moved = if self.selected != action {
            MockView { selected: action, detail_scroll: 0, ..self }
        } else {
            self
        };
        moved.with_status(self.describe(action)).bumped()
    }

    pub open spec fn after_move_spatial(self, dx: int, dy: int) -> MockView {
        if self.page != MockPage::Items {
            if dx < 0 {
                self.after_turn_page_from_edge(PageTurn::ViewerLeft)
            } else if dx > 0 {
                self.after_turn_page_from_edge(PageTurn::ViewerRight)
            } else {
                self
            }
        } else if self.selected == MockAction::EdgeLeft && dx < 0 && dy == 0 {
            self.after_turn_page_from_edge(PageTurn::ViewerLeft)
        } else if self.selected == MockAction::EdgeRight && dx > 0 && dy == 0 {
            self.after_turn_page_from_edge(PageTurn::ViewerRight)
        } else {
            let idx = self.selected_index();
            let row = idx / ITEM_GRID_COLS as int;
            let col = idx % ITEM_GRID_COLS as int;
            if dx < 0 && col == 0 {
                MockView {
                    selected: MockAction::EdgeLeft,
                    status: "Left page button: rotate to the next face on the left."@,
                    ..self
                }.bumped()
            } else if dx > 0 && col == ITEM_GRID_COLS - 1 {
                MockView {
                    selected: MockAction::EdgeRight,
                    status: "Right page button: rotate to the next face on the right."@,
                    ..self
                }.bumped()
            } else {
                let next_col = clamp_int(col + dx, 0, ITEM_GRID_COLS - 1);
                let next_row = clamp_int(row + dy, 0, ITEM_GRID_ROWS - 1);
                let next = next_row * ITEM_GRID_COLS as int + next_col;
                if next != idx || !(self.selected is Item) {
                    MockView {
                        selected: MockAction::Item(next as usize),
                        detail_scroll: 0,
                        status: mock_item_name(next) + " selected."@,
                        ..self
                    }.bumped()
                } else {
                    self
                }
            }
        }
    }

    /// Label of grid cell `idx`: a marker (`*` when equipped, else the
    /// item's glyph), its short name, then `--` when not owned or the count
    /// of a consumable.
    pub open spec fn slot_label(self, idx: int) -> Seq<char> {
        let prefix = if self.is_equipped(idx) {
            "*"@
        } else {
            mock_item_glyph(idx)
        };
        let count = self.count(idx);
        if count == 0 {
            prefix + "\n"@ + mock_item_short(idx) + "\n--"@
        } else if mock_item_kind(idx) == ItemKind::Consumable {
            prefix + "\n"@ + mock_item_short(idx) + "\nx"@ + decimal(count as nat)
        } else {
            prefix + "\n"@ + mock_item_short(idx)
        }
    }

    /// Hint of grid cell `idx`: what activating it would do.
    pub open spec fn slot_detail(self, idx: int) -> Seq<char> {
        if self.count(idx) == 0 {
            "not owned"@
        } else if self.is_equipped(idx) {
            "equipped"@
        } else {
            match mock_item_kind(idx) {
                ItemKind::Equippable(slot) => match self.equipped_in(slot) {
                    Some(old) => if old < ITEM_COUNT {
                        "replaces "@ + mock_item_short(old as int)
                    } else {
                        "equip"@
                    },
                    None => "equip"@,
                },
                ItemKind::Consumable => "use"@,
                ItemKind::KeyItem => "key item"@,
                ItemKind::Reserved => "reserved"@,
            }
        }
    }

    /// The page of description lines in view for the selected item, with a
    /// position marker when the description is longer than one page.
    pub open spec fn selected_detail(self) -> Seq<Seq<char>> {
        let lines = self.detail_lines(self.selected_index());
        let total = lines.len() as int;
        let visible = if total < DETAIL_VISIBLE_LINES {
            total
        } else {
            DETAIL_VISIBLE_LINES as int
        };
        let max_start = total - visible;
        let start = if self.detail_scroll < max_start {
            self.detail_scroll as int
        } else {
            max_start
        };
        let shown = lines.subrange(start, start + visible);
        if total > visible {
            shown.push(
                "["@ + decimal((start + 1) as nat) + "/"@ + decimal((max_start + 1) as nat)
                    + "] PgUp/PgDn"@,
            )
        } else {
            shown
        }
    }

    /// Status line after the host paused (`open`) or unpaused the dummy game.
    pub open spec fn after_pause_toggled(self, open: bool) -> MockView {
        self.with_status(
            if open {
                "Paused dummy game. Reconstructing OoT-style cube shell."@
            } else {
                "Unpaused dummy game. Cube shell is collapsing; press P/Esc to bring it back."@
            },
        ).bumped()
    }

    pub open spec fn after_click(self, action: MockAction) -> MockView {
        let v = MockView { selected: action, ..self };
        match action {
            MockAction::EdgeLeft => v.after_turn_page_from_edge(PageTurn::ViewerLeft),
            MockAction::EdgeRight => v.after_turn_page_from_edge(PageTurn::ViewerRight),
            MockAction::Item(idx) => v.after_activate_item(idx as int),
            MockAction::DetailScrollUp => v.after_scroll_detail(-1),
            MockAction::DetailScrollDown => v.after_scroll_detail(1),
            MockAction::Placeholder(idx) => v.with_status(
                mock_page_label(self.page) + " placeholder option "@ + decimal(idx as nat)
                    + " activated. Real Ambition data stays host-owned."@,
            ).bumped(),
        }
    }
}

impl MockAction {
    /// Whether an item action names an item of the table.
    pub fn is_valid(self) -> (b: bool)
        ensures
            b == mock_action_valid(self),
    {
        match self {
            MockAction::Item(i) => i < ITEM_COUNT,
            _ => true,
        }
    }
}

/// The mock inventory shell.
#[derive(Clone, Debug)]
pub struct MockDemo {
    pub page: MockPage,
    pub selected: MockAction,
    pub counts: [u32; 24],
    pub held_item: Option<usize>,
    pub body_item: Option<usize>,
    pub detail_scroll: usize,
    pub status: String,
    pub revision: u64,
}

impl View for MockDemo {
    type V = MockView;

    open spec fn view(&self) -> MockView {
        MockView {
            page: self.page,
            selected: self.selected,
            counts: self.counts@,
            held_item: self.held_item,
            body_item: self.body_item,
            detail_scroll: self.detail_scroll,
            status: self.status@,
            revision: self.revision,
        }
    }
}

impl MockDemo {
    pub fn page_on_viewer_left(page: MockPage) -> (p: MockPage)
        ensures
            p == page_left_of(page),
    {
        MockPage::from_index(page.index() + 1)
    }

    pub fn page_on_viewer_right(page: MockPage) -> (p: MockPage)
        ensures
            p == page_right_of(page),
    {
        MockPage::from_index(page.index() - 1)
    }

    pub fn default_action_for_page(page: MockPage) -> (a: MockAction)
        ensures
            a == default_action(page),
    {
        match page {
            MockPage::Items => MockAction::Item(1),
            _ => MockAction::Placeholder(0),
        }
    }

    fn face_status(page: MockPage) -> (s: String)
        ensures
            s@ == MockView::face_status(page),
    {
        String::from_str(page.label()).concat(" face: ").concat(page.subtitle()).concat(".")
    }

    /// Shows `page`, selecting its default control; nothing changes when it is
    /// already shown.
    pub fn goto_page(&mut self, page: MockPage)
        requires
            old(self)@.wf(),
        ensures
            final(self)@ == old(self)@.after_goto_page(page),
            final(self)@.wf(),
    {
        if self.page != page {
            self.page = page;
            self.selected = Self::default_action_for_page(page);
            self.detail_scroll = 0;
            self.status = Self::face_status(page);
            self.bump();
        }
    }

    /// Rotates the cube one face towards the viewer's left or right.
    pub fn turn_page(&mut self, direction: PageTurn)
        requires
            old(self)@.wf(),
        ensures
            final(self)@ == old(self)@.after_turn_page(direction),
            final(self)@.wf(),
    {
        let target = match direction {
            PageTurn::ViewerLeft => Self::page_on_viewer_left(self.page),
            PageTurn::ViewerRight => Self::page_on_viewer_right(self.page),
        };
        self.goto_page(target);
    }

    /// Rotates the cube from an edge button; the cursor lands on the edge
    /// button facing back the way it came.
    pub fn turn_page_from_edge(&mut self, direction: PageTurn)
        requires
            old(self)@.wf(),
        ensures
            final(self)@ == old(self)@.after_turn_page_from_edge(direction),
            final(self)@.wf(),
    {
        let target = match direction {
            PageTurn::ViewerLeft => Self::page_on_viewer_left(self.page),
            PageTurn::ViewerRight => Self::page_on_viewer_right(self.page),
        };
        if self.page != target {
            self.page = target;
            self.selected = match direction {
                PageTurn::ViewerLeft => MockAction::EdgeRight,
                PageTurn::ViewerRight => MockAction::EdgeLeft,
            };
            self.detail_scroll = 0;
            self.status = Self::face_status(target);
            self.bump();
        }
    }

    pub fn bump(&mut self)
        ensures
            final(self)@ == old(self)@.bumped(),
    {
        self.revision = self.revision.wrapping_add(1);
    }

    /// How many of item `idx` the host holds (0 for indices past the table).
    pub fn count(&self, idx: usize) -> (n: u32)
        ensures
            n == self@.count(idx as int),
    {
        if idx < ITEM_COUNT {
            self.counts[idx]
        } else {
            0
        }
    }

    pub fn has(&self, idx: usize) -> (b: bool)
        ensures
            b == self@.has(idx as int),
    {
        self.count(idx) > 0
    }

    /// Adds `n` of item `idx` (saturating); unique items stay at one.
    pub fn grant(&mut self, idx: usize, n: u32)
        requires
            old(self)@.wf(),
        ensures
            final(self)@ == old(self)@.after_grant(idx as int, n),
            final(self)@.wf(),
    {
        if idx >= ITEM_COUNT {
            return;
        }
        let item = mock_item(idx);
        let next = self.counts[idx].saturating_add(n);
        let capped = if item.kind.is_unique() && next > 1 { 1 } else { next };
        self.counts[idx] = capped;
    }

    /// The state the host starts from.
    pub fn starter() -> (d: MockDemo)
        ensures
            d@ == starter_view(),
            d@.wf(),
    {
        let mut state = MockDemo {
            page: MockPage::Items,
            selected: MockAction::Item(1),
            counts: [0; 24],
            held_item: None,
            body_item: None,
            detail_scroll: 0,
            status: String::from_str(
                "Dummy game is paused. This is the Ambition mock inventory shell.",
            ),
            revision: 0,
        };
        let mut idx: usize = 0;
        while idx < ITEM_COUNT
            invariant
                idx <= ITEM_COUNT,
                state@.wf(),
                state.page == MockPage::Items,
                state.selected == MockAction::Item(1),
                state.held_item is None,
                state.body_item is None,
                state.detail_scroll == 0,
                state.revision == 0,
                state.status@ == "Dummy game is paused. This is the Ambition mock inventory shell."@,
                forall|i: int| 0 <= i < idx ==> state.counts@[i] == mock_item_start_count(i),
                forall|i: int| idx <= i < ITEM_COUNT ==> state.counts@[i] == 0,
            decreases ITEM_COUNT - idx,
        {
            let item = mock_item(idx);
            if item.start_count > 0 {
                state.grant(idx, item.start_count);
            }
            idx = idx + 1;
        }
        assert(state@.counts =~= starter_counts());
        state
    }

    pub fn equipped_in(&self, slot: EquipSlot) -> (r: Option<usize>)
        ensures
            r == self@.equipped_in(slot),
    {
        match slot {
            EquipSlot::HeldItem => self.held_item,
            EquipSlot::Body => self.body_item,
        }
    }

    fn set_equipped_in(&mut self, slot: EquipSlot, idx: Option<usize>)
        ensures
            final(self)@ == old(self)@.with_equipped(slot, idx),
    {
        match slot {
            EquipSlot::HeldItem => self.held_item = idx,
            EquipSlot::Body => self.body_item = idx,
        }
    }

    pub fn is_equipped(&self, idx: usize) -> (b: bool)
        ensures
            b == self@.is_equipped(idx as int),
    {
        if idx >= ITEM_COUNT {
            return false;
        }
        let item = mock_item(idx);
        match item.kind {
            ItemKind::Equippable(slot) => self.equipped_in(slot) == Some(idx),
            _ => false,
        }
    }

    /// Index of the item under the cursor (0 when an edge button or other
    /// control is selected).
    pub fn selected_index(&self) -> (i: usize)
        ensures
            i == self@.selected_index(),
    {
        match self.selected {
            MockAction::Item(idx) => if idx > ITEM_COUNT - 1 {
                ITEM_COUNT - 1
            } else {
                idx
            },
            _ => 0,
        }
    }

    /// Status text describing what activating `action` would do.
    pub fn describe_action(&self, action: MockAction) -> (s: String)
        requires
            mock_action_valid(action),
        ensures
            s@ == self@.describe(action),
    {
        match action {
            MockAction::EdgeLeft => String::from_str("Turn left to ").concat(
                Self::page_on_viewer_left(self.page).label(),
            ).concat("."),
            MockAction::EdgeRight => String::from_str("Turn right to ").concat(
                Self::page_on_viewer_right(self.page).label(),
            ).concat("."),
            MockAction::Item(idx) => {
                let item = mock_item(idx);
                if !self.has(idx) {
                    String::from_str(item.name).concat(" is visible but not acquired.")
                } else if self.is_equipped(idx) {
                    String::from_str(item.name).concat(" is equipped. Activate to unequip.")
                } else {
                    match item.kind {
                        ItemKind::Equippable(slot) => String::from_str("Equip ").concat(
                            item.name,
                        ).concat(" to the ").concat(slot.label()).concat(" slot."),
                        ItemKind::Consumable => {
                            let n = decimal_string(self.count(idx) as u64);
                            String::from_str("Use ").concat(item.name).concat(". Count: ").concat(
                                n.as_str(),
                            ).concat(".")
                        },
                        ItemKind::KeyItem => String::from_str(item.name).concat(
                            " is a key item with no direct action.",
                        ),
                        ItemKind::Reserved => String::from_str("Reserved slot."),
                    }
                }
            },
            MockAction::DetailScrollUp => String::from_str("Scroll item description up."),
            MockAction::DetailScrollDown => String::from_str("Scroll item description down."),
            MockAction::Placeholder(_) => String::from_str(self.page.label()).concat(
                " placeholder action.",
            ),
        }
    }

    /// Activates item `idx`: unowned items are ignored, equippable items
    /// toggle in their slot (replacing what the slot held), consumables are
    /// used once, key items and reserved slots only report.
    pub fn activate_item(&mut self, idx: usize)
        requires
            old(self)@.wf(),
        ensures
            final(self)@ == old(self)@.after_activate_item(idx as int),
            final(self)@.wf(),
    {
        if idx >= ITEM_COUNT {
            return;
        }
        let item = mock_item(idx);
        if !self.has(idx) {
            self.status = String::from_str(item.name).concat(
                " is not owned, so activation is ignored.",
            );
            self.bump();
            return;
        }
        match item.kind {
            ItemKind::Equippable(slot) => {
                if self.equipped_in(slot) == Some(idx) {
                    self.set_equipped_in(slot, None);
                    self.status = String::from_str("Unequipped ").concat(item.name).concat(
                        " from the ",
                    ).concat(slot.label()).concat(" slot.");
                } else {
                    let previous = self.equipped_in(slot);
                    self.set_equipped_in(slot, Some(idx));
                    let base = String::from_str("Equipped ").concat(item.name).concat(
                        " to the ",
                    ).concat(slot.label()).concat(" slot");
                    self.status = match previous {
                        Some(old) => base.concat(", replacing ").concat(mock_item(old).name).concat(
                            ".",
                        ),
                        None => base.concat("."),
                    };
                }
            },
            ItemKind::Consumable => {
                let left = self.counts[idx].saturating_sub(1);
                self.counts[idx] = left;
                let n = decimal_string(left as u64);
                self.status = String::from_str("Used ").concat(item.name).concat(
                    ". Remaining: ",
                ).concat(n.as_str()).concat(".");
            },
            ItemKind::KeyItem => {
                self.status = String::from_str(item.name).concat(
                    " is a key item; it has no direct inventory action.",
                );
            },
            ItemKind::Reserved => {
                self.status = String::from_str("Reserved slot has no action.");
            },
        }
        self.bump();
    }

    /// Scrolls the selected item's description by `delta` lines, keeping the
    /// last page of lines in view.
    pub fn scroll_detail(&mut self, delta: i32)
        requires
            old(self)@.wf(),
        ensures
            final(self)@ == old(self)@.after_scroll_detail(delta as int),
            final(self)@.wf(),
    {
        let lines = detail_lines(self, self.selected_index());
        let max_start = lines.len().saturating_sub(DETAIL_VISIBLE_LINES);
        if delta < 0 {
            let back: usize = if delta == i32::MIN {
                2147483648usize
            } else {
                (-delta) as usize
            };
            self.detail_scroll = self.detail_scroll.saturating_sub(back);
        } else {
            let s = self.detail_scroll.saturating_add(delta as usize);
            self.detail_scroll = if s > max_start {
                max_start
            } else {
                s
            };
        }
        self.status = String::from_str("Scrolled selected item description.");
        self.bump();
    }

    /// Moves the cursor on the item grid. Off the Items face a horizontal
    /// move turns the cube; from an edge button a move outwards turns it;
    /// leaving the grid sideways lands on the edge button of that side.
    pub fn move_spatial(&mut self, dx: i32, dy: i32)
        requires
            old(self)@.wf(),
        ensures
            final(self)@ == old(self)@.after_move_spatial(dx as int, dy as int),
            final(self)@.wf(),
    {
        if self.page != MockPage::Items {
            if dx < 0 {
                self.turn_page_from_edge(PageTurn::ViewerLeft);
            } else if dx > 0 {
                self.turn_page_from_edge(PageTurn::ViewerRight);
            }
            return;
        }
        if self.selected == MockAction::EdgeLeft && dx < 0 && dy == 0 {
            self.turn_page_from_edge(PageTurn::ViewerLeft);
            return;
        }
        if self.selected == MockAction::EdgeRight && dx > 0 && dy == 0 {
            self.turn_page_from_edge(PageTurn::ViewerRight);
            return;
        }
        let idx = self.selected_index();
        let row = idx / ITEM_GRID_COLS;
        let col = idx % ITEM_GRID_COLS;
        if dx < 0 && col == 0 {
            self.selected = MockAction::EdgeLeft;
            self.status = String::from_str(
                "Left page button: rotate to the next face on the left.",
            );
            self.bump();
            return;
        }
        if dx > 0 && col == ITEM_GRID_COLS - 1 {
            self.selected = MockAction::EdgeRight;
            self.status = String::from_str(
                "Right page button: rotate to the next face on the right.",
            );
            self.bump();
            return;
        }
        let wide_col: i64 = col as i64 + dx as i64;
        let wide_row: i64 = row as i64 + dy as i64;
        let next_col: usize = if wide_col < 0 {
            0
        } else if wide_col > (ITEM_GRID_COLS - 1) as i64 {
            ITEM_GRID_COLS - 1
        } else {
            wide_col as usize
        };
        let next_row: usize = if wide_row < 0 {
            0
        } else if wide_row > (ITEM_GRID_ROWS - 1) as i64 {
            ITEM_GRID_ROWS - 1
        } else {
            wide_row as usize
        };
        let next = next_row * ITEM_GRID_COLS + next_col;
        let on_item = match self.selected {
            MockAction::Item(_) => true,
            _ => false,
        };
        if next != idx || !on_item {
            self.selected = MockAction::Item(next);
            self.detail_scroll = 0;
            self.status = String::from_str(mock_item(next).name).concat(" selected.");
            self.bump();
        }
    }

    /// Points at `action`: it becomes the selection (resetting the
    /// description scroll when it changes) and the status describes it.
    pub fn hover(&mut self, action: MockAction)
        requires
            old(self)@.wf(),
            mock_action_valid(action),
        ensures
            final(self)@ == old(self)@.after_hover(action),
            final(self)@.wf(),
    {
        if self.selected != action {
            self.selected = action;
            self.detail_scroll = 0;
        }
        self.status = self.describe_action(action);
        self.bump();
    }

    /// Selects and performs `action`.
    pub fn click(&mut self, action: MockAction)
        requires
            old(self)@.wf(),
        ensures
            final(self)@ == old(self)@.after_click(action),
            final(self)@.wf(),
    {
        self.selected = action;
        match action {
            MockAction::EdgeLeft => self.turn_page_from_edge(PageTurn::ViewerLeft),
            MockAction::EdgeRight => self.turn_page_from_edge(PageTurn::ViewerRight),
            MockAction::Item(idx) => self.activate_item(idx),
            MockAction::DetailScrollUp => self.scroll_detail(-1),
            MockAction::DetailScrollDown => self.scroll_detail(1),
            MockAction::Placeholder(idx) => {
                let n = decimal_string(idx as u64);
                self.status = String::from_str(self.page.label()).concat(
                    " placeholder option ",
                ).concat(n.as_str()).concat(" activated. Real Ambition data stays host-owned.");
                self.bump();
            },
        }
    }

    /// Performs the selected action.
    pub fn activate_selected(&mut self)
        requires
            old(self)@.wf(),
        ensures
            final(self)@ == old(self)@.after_click(old(self)@.selected),
            final(self)@.wf(),
    {
        let action = self.selected;
        self.click(action);
    }

    /// The host paused (`open`) or unpaused the dummy game; the status line
    /// says which.
    pub fn pause_toggled(&mut self, open: bool)
        requires
            old(self)@.wf(),
        ensures
            final(self)@ == old(self)@.after_pause_toggled(open),
            final(self)@.wf(),
    {
        self.status = if open {
            String::from_str("Paused dummy game. Reconstructing OoT-style cube shell.")
        } else {
            String::from_str(
                "Unpaused dummy game. Cube shell is collapsing; press P/Esc to bring it back.",
            )
        };
        self.bump();
    }
}

/// The three faces drawn: left neighbour, active face, right neighbour.
pub fn visible_face_pages(active: MockPage) -> (ps: [MockPage; 3])
    ensures
        ps@[0] == page_left_of(active),
        ps@[1] == active,
        ps@[2] == page_right_of(active),
{
    [MockDemo::page_on_viewer_left(active), active, MockDemo::page_on_viewer_right(active)]
}

/// Description lines of item `idx` (name, wrapped description, blank
/// line, wrapped action description).
pub fn detail_lines(demo: &MockDemo, idx: usize) -> (lines: Vec<String>)
    requires
        idx < ITEM_COUNT,
    ensures
        lines.deep_view() == demo@.detail_lines(idx as int),
{
    let item = mock_item(idx);
    let mut lines: Vec<String> = Vec::new();
    lines.push(String::from_str(item.name));
    let mut desc = wrap_text(item.description, DETAIL_WRAP_COLS);
    lines.append(&mut desc);
    lines.push(String::new());
    let action = demo.describe_action(MockAction::Item(idx));
    let mut act = wrap_text(action.as_str(), DETAIL_WRAP_COLS);
    lines.append(&mut act);
    assert(lines.deep_view() =~= demo@.detail_lines(idx as int));
    lines
}

/// Label of grid cell `idx` (see [`MockView::slot_label`]).
pub fn item_slot_label(demo: &MockDemo, idx: usize) -> (s: String)
    requires
        idx < ITEM_COUNT,
    ensures
        s@ == demo@.slot_label(idx as int),
{
    let item = mock_item(idx);
    let prefix = if demo.is_equipped(idx) {
        "*"
    } else {
        item.glyph
    };
    let count = demo.count(idx);
    let head = String::from_str(prefix).concat("\n").concat(item.short);
    if count == 0 {
        head.concat("\n--")
    } else if item.kind == ItemKind::Consumable {
        let n = decimal_string(count as u64);
        head.concat("\nx").concat(n.as_str())
    } else {
        head
    }
}

/// Hint of grid cell `idx` (see [`MockView::slot_detail`]).
pub fn item_slot_detail(demo: &MockDemo, idx: usize) -> (s: String)
    requires
        idx < ITEM_COUNT,
    ensures
        s@ == demo@.slot_detail(idx as int),
{
    let item = mock_item(idx);
    if demo.count(idx) == 0 {
        String::from_str("not owned")
    } else if demo.is_equipped(idx) {
        String::from_str("equipped")
    } else {
        match item.kind {
            ItemKind::Equippable(slot) => match demo.equipped_in(slot) {
                Some(old) => if old < ITEM_COUNT {
                    String::from_str("replaces ").concat(mock_item(old).short)
                } else {
                    String::from_str("equip")
                },
                None => String::from_str("equip"),
            },
            ItemKind::Consumable => String::from_str("use"),
            ItemKind::KeyItem => String::from_str("key item"),
            ItemKind::Reserved => String::from_str("reserved"),
        }
    }
}

/// The description lines in view for the selected item (see
/// [`MockView::selected_detail`]).
pub fn selected_detail_lines(demo: &MockDemo) -> (out: Vec<String>)
    ensures
        out.deep_view() == demo@.selected_detail(),
{
    let lines = detail_lines(demo, demo.selected_index());
    let total = lines.len();
    let visible = if total < DETAIL_VISIBLE_LINES {
        total
    } else {
        DETAIL_VISIBLE_LINES
    };
    let max_start = total - visible;
    let start = if demo.detail_scroll < max_start {
        demo.detail_scroll
    } else {
        max_start
    };
    let mut out: Vec<String> = Vec::new();
    let mut k: usize = start;
    while k < start + visible
        invariant
            start <= k <= start + visible,
            start + visible <= total,
            total == lines.len(),
            out.deep_view() == lines.deep_view().subrange(start as int, k as int),
        decreases start + visible - k,
    {
        let line = lines[k].clone();
        let ghost prev = out.deep_view();
        proof {
            assert(line@ == lines.deep_view()[k as int]);
        }
        out.push(line);
        assert(out.deep_view() =~= prev.push(line@));
        k = k + 1;
        assert(out.deep_view() =~= lines.deep_view().subrange(start as int, k as int));
    }
    if total > visible {
        let a = decimal_string((start + 1) as u64);
        let b = decimal_string((max_start + 1) as u64);
        out.push(
            String::from_str("[").concat(a.as_str()).concat("/").concat(b.as_str()).concat(
                "] PgUp/PgDn",
            ),
        );
    }
    out
}

impl Default for MockDemo {
    fn default() -> (d: MockDemo)
        ensures
            d@ == starter_view(),
            d@.wf(),
    {
        MockDemo::starter()
    }
}

} // verus!
