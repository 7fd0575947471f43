//! Pages, focus areas, options and the fixed content of the gear/pack/map
//! inventory menu, together with the index arithmetic used to move through it.

use vstd::prelude::*;
use crate::menu::MenuOpenCloseStyle;

verus! {

/// Number of Status rows that fit in the Status scroll pane.
pub const STATUS_VISIBLE_ROWS: usize = 5;

/// Number of rows in the Status page list.
pub const STATUS_ROW_COUNT: usize = 16;

/// Number of entries in the Pack page grid.
pub const PACK_ITEM_COUNT: usize = 6;

/// Number of markers on the Map page.
pub const MAP_MARKER_COUNT: usize = 3;

// ---------------------------------------------------------------------------
// Index arithmetic
// ---------------------------------------------------------------------------

/// `current + delta` wrapped into `0..len`; `0` when `len` is zero.
pub open spec fn spec_wrap_index(current: int, len: int, delta: int) -> int {
    if len == 0 {
        0
    } else {
        (current + delta) % len
    }
}

/// `current + delta` clamped into `0..len`; `0` when `len` is zero.
pub open spec fn spec_clamp_index_delta(current: int, len: int, delta: int) -> int {
    if len == 0 {
        0
    } else if current + delta < 0 {
        0
    } else if current + delta > len - 1 {
        len - 1
    } else {
        current + delta
    }
}

/// Moves an index around a ring of `len` entries by `delta` steps.
pub fn wrap_index(current: usize, len: usize, delta: i32) -> (r: usize)
    requires
        current <= i32::MAX,
        len <= i32::MAX,
        i32::MIN <= current + delta <= i32::MAX,
    ensures
        r == spec_wrap_index(current as int, len as int, delta as int),
        len > 0 ==> r < len,
{
    if len == 0 {
        return 0;
    }
    let sum: i32 = current as i32 + delta;
    match sum.checked_rem_euclid(len as i32) {
        Some(m) => m as usize,
        None => 0,
    }
}

/// Moves an index by `delta` steps, stopping at the first and last entry.
pub fn clamp_index_delta(current: usize, len: usize, delta: i32) -> (r: usize)
    requires
        current <= i32::MAX,
        len <= i32::MAX,
        i32::MIN <= current + delta <= i32::MAX,
    ensures
        r == spec_clamp_index_delta(current as int, len as int, delta as int),
        len > 0 ==> r < len,
{
    if len == 0 {
        return 0;
    }
    let sum: i32 = current as i32 + delta;
    let hi: i32 = len as i32 - 1;
    if sum < 0 {
        0
    } else if sum > hi {
        hi as usize
    } else {
        sum as usize
    }
}

/// The Pack page lays its entries out in rows of this many columns.
pub open spec fn pack_columns() -> int {
    2
}

/// Pack grid movement: column and row wrap independently; landing past the
/// last entry of a short final row jumps to the same column of the top row.
pub open spec fn spec_move_pack_index(current: int, dx: int, dy: int) -> int {
    let len = PACK_ITEM_COUNT as int;
    let columns = pack_columns();
    let rows = (len + columns - 1) / columns;
    let col = current % columns;
    let row0 = current / columns;
    let row = if row0 > rows - 1 { rows - 1 } else { row0 };
    let next_col = (col + dx) % columns;
    let next_row = (row + dy) % rows;
    let next = next_row * columns + next_col;
    if next >= len {
        next_col
    } else {
        next
    }
}

/// Row of the Pack grid that entry `current` sits on (the last row for
/// entries past the end).
pub open spec fn pack_row(current: int) -> int {
    let rows = (PACK_ITEM_COUNT as int + pack_columns() - 1) / pack_columns();
    if current / pack_columns() > rows - 1 {
        rows - 1
    } else {
        current / pack_columns()
    }
}

/// Moves the Pack grid cursor by `dx` columns and `dy` rows. The column and
/// row sums are taken in `i32`, so they must fit there.
pub fn move_pack_index(current: usize, dx: i32, dy: i32) -> (r: usize)
    requires
        current <= i32::MAX,
        current % 2 + dx <= i32::MAX,
        pack_row(current as int) + dy <= i32::MAX,
    ensures
        r == spec_move_pack_index(current as int, dx as int, dy as int),
        r < PACK_ITEM_COUNT,
{
    let len: i32 = PACK_ITEM_COUNT as i32;
    let columns: i32 = 2;
    let rows: i32 = (len + columns - 1) / columns;
    let cur: i32 = current as i32;
    let col: i32 = cur % columns;
    let row0: i32 = cur / columns;
    let row: i32 = if row0 > rows - 1 { rows - 1 } else { row0 };
    let next_col: i32 = match (col + dx).checked_rem_euclid(columns) {
        Some(m) => m,
        None => 0,
    };
    let next_row: i32 = match (row + dy).checked_rem_euclid(rows) {
        Some(m) => m,
        None => 0,
    };
    let next: i32 = next_row * columns + next_col;
    if next >= len {
        next_col as usize
    } else {
        next as usize
    }
}

// ---------------------------------------------------------------------------
// Pages
// ---------------------------------------------------------------------------

/// One face of the cube menu.
#[derive(Clone, Copy, Debug, PartialEq, Eq, Structural)]
pub enum Page {
    Gear,
    Pack,
    MapPage,
    Status,
}

/// Position of a page on the cube ring.
pub open spec fn page_index(p: Page) -> int {
    match p {
        Page::Gear => 0,
        Page::Pack => 1,
        Page::MapPage => 2,
        Page::Status => 3,
    }
}

/// The page at ring position `idx`, taken modulo four.
pub open spec fn page_from_index(idx: int) -> Page {
    let m = idx % 4;
    if m == 0 {
        Page::Gear
    } else if m == 1 {
        Page::Pack
    } else if m == 2 {
        Page::MapPage
    } else {
        Page::Status
    }
}

pub open spec fn page_label(p: Page) -> Seq<char> {
    match p {
        Page::Gear => "Gear"@,
        Page::Pack => "Pack"@,
        Page::MapPage => "Map"@,
        Page::Status => "Status"@,
    }
}

/// Position of a page in the tab strip, which lists pages in reverse ring
/// order: Status, Map, Pack, Gear.
pub open spec fn tab_index(p: Page) -> int {
    match p {
        Page::Status => 0,
        Page::MapPage => 1,
        Page::Pack => 2,
        Page::Gear => 3,
    }
}

/// The page shown at tab strip position `i` (clamped to the last tab).
pub open spec fn tab_page(i: int) -> Page {
    if i <= 0 {
        Page::Status
    } else if i == 1 {
        Page::MapPage
    } else if i == 2 {
        Page::Pack
    } else {
        Page::Gear
    }
}

impl Page {
    pub fn index(self) -> (r: i32)
        ensures
            r == page_index(self),
    {
        match self {
            Page::Gear => 0,
            Page::Pack => 1,
            Page::MapPage => 2,
            Page::Status => 3,
        }
    }

    pub fn from_index(idx: i32) -> (p: Page)
        ensures
            p == page_from_index(idx as int),
    {
        match idx.checked_rem_euclid(4) {
            Some(0) => Page::Gear,
            Some(1) => Page::Pack,
            Some(2) => Page::MapPage,
            _ => Page::Status,
        }
    }

    pub fn label(self) -> (s: &'static str)
        ensures
            s@ == page_label(self),
    {
        match self {
            Page::Gear => "Gear",
            Page::Pack => "Pack",
            Page::MapPage => "Map",
            Page::Status => "Status",
        }
    }

    /// Sprite shown on this page's tab.
    pub fn icon(self) -> (s: &'static str)
        ensures
            s@ == page_icon(self),
    {
        match self {
            Page::Gear => "icons/tab_gear.png",
            Page::Pack => "icons/tab_pack.png",
            Page::MapPage => "icons/tab_map.png",
            Page::Status => "icons/tab_status.png",
        }
    }
}

pub open spec fn page_icon(p: Page) -> Seq<char> {
    match p {
        Page::Gear => "icons/tab_gear.png"@,
        Page::Pack => "icons/tab_pack.png"@,
        Page::MapPage => "icons/tab_map.png"@,
        Page::Status => "icons/tab_status.png"@,
    }
}

// ---------------------------------------------------------------------------
// Focus areas and options
// ---------------------------------------------------------------------------

/// Column of the menu that currently owns keyboard/gamepad focus.
#[derive(Clone, Copy, Debug, PartialEq, Eq, Structural)]
pub enum FocusArea {
    Tabs,
    Slots,
    Items,
    Actions,
}

pub open spec fn focus_previous(a: FocusArea) -> FocusArea {
    match a {
        FocusArea::Tabs => FocusArea::Actions,
        FocusArea::Slots => FocusArea::Tabs,
        FocusArea::Items => FocusArea::Slots,
        FocusArea::Actions => FocusArea::Items,
    }
}

pub open spec fn focus_next(a: FocusArea) -> FocusArea {
    match a {
        FocusArea::Tabs => FocusArea::Slots,
        FocusArea::Slots => FocusArea::Items,
        FocusArea::Items => FocusArea::Actions,
        FocusArea::Actions => FocusArea::Tabs,
    }
}

pub open spec fn focus_label(a: FocusArea) -> Seq<char> {
    match a {
        FocusArea::Tabs => "Menu"@,
        FocusArea::Slots => "Slots"@,
        FocusArea::Items => "Items"@,
        FocusArea::Actions => "Actions"@,
    }
}

impl FocusArea {
    pub fn previous(self) -> (a: FocusArea)
        ensures
            a == focus_previous(self),
    {
        match self {
            FocusArea::Tabs => FocusArea::Actions,
            FocusArea::Slots => FocusArea::Tabs,
            FocusArea::Items => FocusArea::Slots,
            FocusArea::Actions => FocusArea::Items,
        }
    }

    pub fn next(self) -> (a: FocusArea)
        ensures
            a == focus_next(self),
    {
        match self {
            FocusArea::Tabs => FocusArea::Slots,
            FocusArea::Slots => FocusArea::Items,
            FocusArea::Items => FocusArea::Actions,
            FocusArea::Actions => FocusArea::Tabs,
        }
    }

    pub fn label(self) -> (s: &'static str)
        ensures
            s@ == focus_label(self),
    {
        match self {
            FocusArea::Tabs => "Menu",
            FocusArea::Slots => "Slots",
            FocusArea::Items => "Items",
            FocusArea::Actions => "Actions",
        }
    }
}

/// How much descriptive text the menu shows.
#[derive(Clone, Copy, Debug, PartialEq, Eq, Structural)]
pub enum DetailLevel {
    Minimal,
    Normal,
    Verbose,
}

pub open spec fn detail_next(d: DetailLevel) -> DetailLevel {
    match d {
        DetailLevel::Minimal => DetailLevel::Normal,
        DetailLevel::Normal => DetailLevel::Verbose,
        DetailLevel::Verbose => DetailLevel::Minimal,
    }
}

pub open spec fn detail_label(d: DetailLevel) -> Seq<char> {
    match d {
        DetailLevel::Minimal => "Minimal"@,
        DetailLevel::Normal => "Normal"@,
        DetailLevel::Verbose => "Verbose"@,
    }
}

impl DetailLevel {
    pub fn label(self) -> (s: &'static str)
        ensures
            s@ == detail_label(self),
    {
        match self {
            DetailLevel::Minimal => "Minimal",
            DetailLevel::Normal => "Normal",
            DetailLevel::Verbose => "Verbose",
        }
    }

    pub fn next(self) -> (d: DetailLevel)
        ensures
            d == detail_next(self),
    {
        match self {
            DetailLevel::Minimal => DetailLevel::Normal,
            DetailLevel::Normal => DetailLevel::Verbose,
            DetailLevel::Verbose => DetailLevel::Minimal,
        }
    }
}

/// Which keyboard key (besides gamepad Start) opens and closes the menu.
#[derive(Clone, Copy, Debug, PartialEq, Eq, Structural)]
pub enum MenuToggleBinding {
    EscapeOrStart,
    POrStart,
}

pub open spec fn binding_next(b: MenuToggleBinding) -> MenuToggleBinding {
    match b {
        MenuToggleBinding::EscapeOrStart => MenuToggleBinding::POrStart,
        MenuToggleBinding::POrStart => MenuToggleBinding::EscapeOrStart,
    }
}

pub open spec fn binding_label(b: MenuToggleBinding) -> Seq<char> {
    match b {
        MenuToggleBinding::EscapeOrStart => "Escape / Start"@,
        MenuToggleBinding::POrStart => "P / Start"@,
    }
}

impl MenuToggleBinding {
    pub fn label(self) -> (s: &'static str)
        ensures
            s@ == binding_label(self),
    {
        match self {
            MenuToggleBinding::EscapeOrStart => "Escape / Start",
            MenuToggleBinding::POrStart => "P / Start",
        }
    }

    pub fn next(self) -> (b: MenuToggleBinding)
        ensures
            b == binding_next(self),
    {
        match self {
            MenuToggleBinding::EscapeOrStart => MenuToggleBinding::POrStart,
            MenuToggleBinding::POrStart => MenuToggleBinding::EscapeOrStart,
        }
    }
}

/// Open/close animation style selected on the Status page.
#[derive(Clone, Copy, Debug, PartialEq, Eq, Structural)]
pub enum OpenCloseStyle {
    SmoothScale,
    OotPageFold,
}

pub open spec fn style_next(s: OpenCloseStyle) -> OpenCloseStyle {
    match s {
        OpenCloseStyle::SmoothScale => OpenCloseStyle::OotPageFold,
        OpenCloseStyle::OotPageFold => OpenCloseStyle::SmoothScale,
    }
}

pub open spec fn style_label(s: OpenCloseStyle) -> Seq<char> {
    match s {
        OpenCloseStyle::SmoothScale => "Smooth scale"@,
        OpenCloseStyle::OotPageFold => "OoT page fold"@,
    }
}

pub open spec fn style_from_menu(s: MenuOpenCloseStyle) -> OpenCloseStyle {
    match s {
        MenuOpenCloseStyle::SmoothScale => OpenCloseStyle::SmoothScale,
        MenuOpenCloseStyle::OotPageFold => OpenCloseStyle::OotPageFold,
    }
}

pub open spec fn style_to_menu(s: OpenCloseStyle) -> MenuOpenCloseStyle {
    match s {
        OpenCloseStyle::SmoothScale => MenuOpenCloseStyle::SmoothScale,
        OpenCloseStyle::OotPageFold => MenuOpenCloseStyle::OotPageFold,
    }
}

impl OpenCloseStyle {
    pub fn label(self) -> (s: &'static str)
        ensures
            s@ == style_label(self),
    {
        match self {
            OpenCloseStyle::SmoothScale => "Smooth scale",
            OpenCloseStyle::OotPageFold => "OoT page fold",
        }
    }

    pub fn next(self) -> (s: OpenCloseStyle)
        ensures
            s == style_next(self),
    {
        match self {
            OpenCloseStyle::SmoothScale => OpenCloseStyle::OotPageFold,
            OpenCloseStyle::OotPageFold => OpenCloseStyle::SmoothScale,
        }
    }

    /// The demo style matching a library shell style.
    pub fn from_menu_style(value: MenuOpenCloseStyle) -> (s: OpenCloseStyle)
        ensures
            s == style_from_menu(value),
    {
        match value {
            MenuOpenCloseStyle::SmoothScale => OpenCloseStyle::SmoothScale,
            MenuOpenCloseStyle::OotPageFold => OpenCloseStyle::OotPageFold,
        }
    }

    /// The library shell style matching this demo style.
    pub fn to_menu_style(self) -> (s: MenuOpenCloseStyle)
        ensures
            s == style_to_menu(self),
    {
        match self {
            OpenCloseStyle::SmoothScale => MenuOpenCloseStyle::SmoothScale,
            OpenCloseStyle::OotPageFold => MenuOpenCloseStyle::OotPageFold,
        }
    }
}

// ---------------------------------------------------------------------------
// Actions attached to controls
// ---------------------------------------------------------------------------

/// What a pointer press or hover on a control asks the menu to do.
#[derive(Clone, Copy, Debug, PartialEq, Eq, Structural)]
pub enum ClickAction {
    Goto(Page),
    FocusArea(FocusArea),
    SelectSlot(usize),
    SelectItem(usize),
    Action(usize),
    PackItem(usize),
    MapMarker(usize),
    StatusRow(usize),
    StatusScrollTo(usize),
    ToggleInputHints,
    ToggleCompactLayout,
    CycleDetailLevel,
    ToggleTouchMode,
    CycleOpenStyle,
}

/// The actions that the menu's own controls carry: every index names an
/// existing slot, item, action, pack entry, marker or status row. Hover,
/// click and tap accept these alone, so that every cursor stays on its
/// table (the menu's invariant); a control list built by `page_content`
/// never carries any other action, and no other source of actions exists.
pub open spec fn click_action_valid(a: ClickAction) -> bool {
    match a {
        ClickAction::SelectSlot(i) => i < 3,
        ClickAction::SelectItem(i) => i < 3,
        ClickAction::Action(i) => i < 3,
        ClickAction::PackItem(i) => i < PACK_ITEM_COUNT,
        ClickAction::MapMarker(i) => i < MAP_MARKER_COUNT,
        ClickAction::StatusRow(i) => i < STATUS_ROW_COUNT,
        _ => true,
    }
}

impl ClickAction {
    /// Whether every index this action carries names an existing control.
    pub fn is_valid(self) -> (b: bool)
        ensures
            b == click_action_valid(self),
    {
        match self {
            ClickAction::SelectSlot(i) => i < 3,
            ClickAction::SelectItem(i) => i < 3,
            ClickAction::Action(i) => i < 3,
            ClickAction::PackItem(i) => i < PACK_ITEM_COUNT,
            ClickAction::MapMarker(i) => i < MAP_MARKER_COUNT,
            ClickAction::StatusRow(i) => i < STATUS_ROW_COUNT,
            _ => true,
        }
    }
}

// ---------------------------------------------------------------------------
// Fixed content
// ---------------------------------------------------------------------------

pub open spec fn slot_name(slot: int) -> Seq<char> {
    if slot == 0 {
        "Weapon"@
    } else if slot == 1 {
        "Feet"@
    } else {
        "Charm"@
    }
}

/// Names of the three gear slots.
pub fn slot_names() -> (names: [&'static str; 3])
    ensures
        forall|i: int| 0 <= i < 3 ==> (#[trigger] names@[i])@ == slot_name(i),
{
    ["Weapon", "Feet", "Charm"]
}

pub open spec fn gear_item_name(slot: int, idx: int) -> Seq<char> {
    if slot == 0 {
        if idx == 0 {
            "Travel Sword"@
        } else if idx == 1 {
            "Hook Spear"@
        } else {
            "Ember Staff"@
        }
    } else if slot == 1 {
        if idx == 0 {
            "Iron Boots"@
        } else if idx == 1 {
            "Feather Boots"@
        } else {
            "Climbing Spikes"@
        }
    } else {
        if idx == 0 {
            "Compass Charm"@
        } else if idx == 1 {
            "River Charm"@
        } else {
            "Guard Charm"@
        }
    }
}

pub open spec fn gear_item_detail(slot: int, idx: int) -> Seq<char> {
    if slot == 0 {
        if idx == 0 {
            "Reliable blade / balanced reach"@
        } else if idx == 1 {
            "Long reach / pulls light foes"@
        } else {
            "Fire channel / slow recovery"@
        }
    } else if slot == 1 {
        if idx == 0 {
            "Heavy footing / current resist"@
        } else if idx == 1 {
            "Light steps / jump control"@
        } else {
            "Wall contact / ledge grip"@
        }
    } else {
        if idx == 0 {
            "Nearby secrets shimmer on map"@
        } else if idx == 1 {
            "Smoother swimming / water sense"@
        } else {
            "Small armor bonus while grounded"@
        }
    }
}

/// Name of gear entry `idx` offered for `slot`.
pub fn gear_name(slot: usize, idx: usize) -> (s: &'static str)
    requires
        idx < 3,
    ensures
        s@ == gear_item_name(slot as int, idx as int),
{
    if slot == 0 {
        if idx == 0 {
            "Travel Sword"
        } else if idx == 1 {
            "Hook Spear"
        } else {
            "Ember Staff"
        }
    } else if slot == 1 {
        if idx == 0 {
            "Iron Boots"
        } else if idx == 1 {
            "Feather Boots"
        } else {
            "Climbing Spikes"
        }
    } else {
        if idx == 0 {
            "Compass Charm"
        } else if idx == 1 {
            "River Charm"
        } else {
            "Guard Charm"
        }
    }
}

/// One-line description of gear entry `idx` offered for `slot`.
pub fn gear_detail(slot: usize, idx: usize) -> (s: &'static str)
    requires
        idx < 3,
    ensures
        s@ == gear_item_detail(slot as int, idx as int),
{
    if slot == 0 {
        if idx == 0 {
            "Reliable blade / balanced reach"
        } else if idx == 1 {
            "Long reach / pulls light foes"
        } else {
            "Fire channel / slow recovery"
        }
    } else if slot == 1 {
        if idx == 0 {
            "Heavy footing / current resist"
        } else if idx == 1 {
            "Light steps / jump control"
        } else {
            "Wall contact / ledge grip"
        }
    } else {
        if idx == 0 {
            "Nearby secrets shimmer on map"
        } else if idx == 1 {
            "Smoother swimming / water sense"
        } else {
            "Small armor bonus while grounded"
        }
    }
}

/// The three (name, description) gear entries offered for `slot`.
pub fn gear_items_for_slot(slot: usize) -> (items: [(&'static str, &'static str); 3])
    ensures
        forall|i: int|
            0 <= i < 3 ==> (#[trigger] items@[i]).0@ == gear_item_name(slot as int, i)
                && items@[i].1@ == gear_item_detail(slot as int, i),
{
    [
        (gear_name(slot, 0), gear_detail(slot, 0)),
        (gear_name(slot, 1), gear_detail(slot, 1)),
        (gear_name(slot, 2), gear_detail(slot, 2)),
    ]
}

pub open spec fn pack_item_name(idx: int) -> Seq<char> {
    if idx == 0 {
        "Healing Tincture"@
    } else if idx == 1 {
        "Glow Seed"@
    } else if idx == 2 {
        "Old Key"@
    } else if idx == 3 {
        "Travel Ration"@
    } else if idx == 4 {
        "River Pearl"@
    } else {
        "Sketch Map"@
    }
}

pub open spec fn pack_item_base(idx: int) -> Seq<char> {
    if idx == 0 {
        "Restores health"@
    } else if idx == 1 {
        "Drops a cavern light"@
    } else if idx == 2 {
        "Quest item / locked"@
    } else if idx == 3 {
        "Restores stamina"@
    } else if idx == 4 {
        "Trade good"@
    } else {
        "Field note"@
    }
}

/// Pack entries drawn with emphasis.
pub open spec fn pack_item_important(idx: int) -> bool {
    idx == 0 || idx == 2
}

/// Pack entries that are used up one at a time when activated.
pub open spec fn pack_item_consumable(idx: int) -> bool {
    idx == 0 || idx == 1 || idx == 3
}

pub fn pack_name(idx: usize) -> (s: &'static str)
    ensures
        s@ == pack_item_name(idx as int),
{
    if idx == 0 {
        "Healing Tincture"
    } else if idx == 1 {
        "Glow Seed"
    } else if idx == 2 {
        "Old Key"
    } else if idx == 3 {
        "Travel Ration"
    } else if idx == 4 {
        "River Pearl"
    } else {
        "Sketch Map"
    }
}

pub fn pack_base(idx: usize) -> (s: &'static str)
    ensures
        s@ == pack_item_base(idx as int),
{
    if idx == 0 {
        "Restores health"
    } else if idx == 1 {
        "Drops a cavern light"
    } else if idx == 2 {
        "Quest item / locked"
    } else if idx == 3 {
        "Restores stamina"
    } else if idx == 4 {
        "Trade good"
    } else {
        "Field note"
    }
}

/// The six (name, description, emphasized) Pack entries.
pub fn pack_items() -> (items: [(&'static str, &'static str, bool); 6])
    ensures
        forall|i: int|
            0 <= i < 6 ==> (#[trigger] items@[i]).0@ == pack_item_name(i) && items@[i].1@
                == pack_item_base(i) && items@[i].2 == pack_item_important(i),
{
    [
        (pack_name(0), pack_base(0), true),
        (pack_name(1), pack_base(1), false),
        (pack_name(2), pack_base(2), true),
        (pack_name(3), pack_base(3), false),
        (pack_name(4), pack_base(4), false),
        (pack_name(5), pack_base(5), false),
    ]
}

pub open spec fn map_marker_name(idx: int) -> Seq<char> {
    if idx == 0 {
        "Gate"@
    } else if idx == 1 {
        "Falls"@
    } else {
        "Forge"@
    }
}

pub open spec fn map_status_text(idx: int) -> Seq<char> {
    if idx == 0 {
        "Gate marker selected: route back to town."@
    } else if idx == 1 {
        "Falls marker selected: strong current suggests heavy footing."@
    } else {
        "Forge marker selected: upgrade and repair location."@
    }
}

/// Name of Map marker `idx`.
pub fn map_marker(idx: usize) -> (s: &'static str)
    ensures
        s@ == map_marker_name(idx as int),
{
    if idx == 0 {
        "Gate"
    } else if idx == 1 {
        "Falls"
    } else {
        "Forge"
    }
}

pub fn map_marker_count() -> (n: usize)
    ensures
        n == MAP_MARKER_COUNT,
{
    MAP_MARKER_COUNT
}

/// Status line for activating Map marker `idx`.
pub fn map_status(idx: usize) -> (s: &'static str)
    ensures
        s@ == map_status_text(idx as int),
{
    if idx == 0 {
        "Gate marker selected: route back to town."
    } else if idx == 1 {
        "Falls marker selected: strong current suggests heavy footing."
    } else {
        "Forge marker selected: upgrade and repair location."
    }
}

pub fn status_row_count() -> (n: usize)
    ensures
        n == STATUS_ROW_COUNT,
{
    STATUS_ROW_COUNT
}

// ---------------------------------------------------------------------------
// Sprite paths
// ---------------------------------------------------------------------------

pub open spec fn slot_icon_path(slot: int) -> Seq<char> {
    if slot == 0 {
        "icons/slot_weapon.png"@
    } else if slot == 1 {
        "icons/slot_feet.png"@
    } else {
        "icons/slot_charm.png"@
    }
}

pub fn slot_icon(slot: usize) -> (s: &'static str)
    ensures
        s@ == slot_icon_path(slot as int),
{
    if slot == 0 {
        "icons/slot_weapon.png"
    } else if slot == 1 {
        "icons/slot_feet.png"
    } else {
        "icons/slot_charm.png"
    }
}

pub open spec fn gear_icon_path(slot: int, idx: int) -> Seq<char> {
    if slot == 0 {
        if idx == 0 {
            "icons/gear_sword.png"@
        } else if idx == 1 {
            "icons/gear_spear.png"@
        } else {
            "icons/gear_staff.png"@
        }
    } else if slot == 1 {
        if idx == 0 {
            "icons/gear_iron_boots.png"@
        } else if idx == 1 {
            "icons/gear_feather_boots.png"@
        } else {
            "icons/gear_climbing_spikes.png"@
        }
    } else if slot == 2 && idx == 0 {
        "icons/charm_compass.png"@
    } else if slot == 2 && idx == 1 {
        "icons/charm_river.png"@
    } else {
        "icons/charm_guard.png"@
    }
}

pub fn gear_icon(slot: usize, idx: usize) -> (s: &'static str)
    ensures
        s@ == gear_icon_path(slot as int, idx as int),
{
    if slot == 0 {
        if idx == 0 {
            "icons/gear_sword.png"
        } else if idx == 1 {
            "icons/gear_spear.png"
        } else {
            "icons/gear_staff.png"
        }
    } else if slot == 1 {
        if idx == 0 {
            "icons/gear_iron_boots.png"
        } else if idx == 1 {
            "icons/gear_feather_boots.png"
        } else {
            "icons/gear_climbing_spikes.png"
        }
    } else if slot == 2 && idx == 0 {
        "icons/charm_compass.png"
    } else if slot == 2 && idx == 1 {
        "icons/charm_river.png"
    } else {
        "icons/charm_guard.png"
    }
}

pub open spec fn pack_icon_path(idx: int) -> Seq<char> {
    if idx == 0 {
        "icons/pack_tincture.png"@
    } else if idx == 1 {
        "icons/pack_glow_seed.png"@
    } else if idx == 2 {
        "icons/pack_key.png"@
    } else if idx == 3 {
        "icons/pack_ration.png"@
    } else if idx == 4 {
        "icons/pack_pearl.png"@
    } else {
        "icons/pack_sketch_map.png"@
    }
}

pub fn pack_icon(idx: usize) -> (s: &'static str)
    ensures
        s@ == pack_icon_path(idx as int),
{
    if idx == 0 {
        "icons/pack_tincture.png"
    } else if idx == 1 {
        "icons/pack_glow_seed.png"
    } else if idx == 2 {
        "icons/pack_key.png"
    } else if idx == 3 {
        "icons/pack_ration.png"
    } else if idx == 4 {
        "icons/pack_pearl.png"
    } else {
        "icons/pack_sketch_map.png"
    }
}

pub open spec fn map_icon_path(idx: int) -> Seq<char> {
    if idx == 0 {
        "icons/map_gate.png"@
    } else if idx == 1 {
        "icons/map_falls.png"@
    } else {
        "icons/map_forge.png"@
    }
}

pub fn map_icon(idx: usize) -> (s: &'static str)
    ensures
        s@ == map_icon_path(idx as int),
{
    if idx == 0 {
        "icons/map_gate.png"
    } else if idx == 1 {
        "icons/map_falls.png"
    } else {
        "icons/map_forge.png"
    }
}

} // verus!
