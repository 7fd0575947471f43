//! Content of the Ocarina-style pause menu: its four pages, the three
//! C-buttons, and the fixed tables of items, equipment, map markers, quest
//! icons and songs shown for an adult Link.

use vstd::prelude::*;

verus! {

/// The pause menu is shown for adult Link: child-only entries stay visible
/// but disabled.
pub const LINK_IS_ADULT: bool = true;

pub const OOT_ITEM_COUNT: usize = 24;

pub const EQUIP_SLOT_COUNT: usize = 4;

pub const EQUIP_CHOICE_COUNT: usize = 3;

pub const OOT_MAP_MARKER_COUNT: usize = 8;

/// Six medallions followed by three spiritual stones.
pub const QUEST_ICON_COUNT: usize = 9;

pub const SONG_COUNT: usize = 12;

/// Whether the current Link may use an entry with the given adult flag.
pub open spec fn usable_now(adult_usable: bool) -> bool {
    if LINK_IS_ADULT {
        adult_usable
    } else {
        true
    }
}

/// One face of the pause cube, in the game's page-ring order.
#[derive(Clone, Copy, Debug, PartialEq, Eq, Hash, Structural)]
pub enum OotPage {
    Items,
    MapPage,
    Quest,
    Equipment,
}

pub open spec fn oot_page_index(p: OotPage) -> int {
    match p {
        OotPage::Items => 0,
        OotPage::MapPage => 1,
        OotPage::Quest => 2,
        OotPage::Equipment => 3,
    }
}

pub open spec fn oot_page_from_index(i: int) -> OotPage {
    let m = i % 4;
    if m == 0 {
        OotPage::Items
    } else if m == 1 {
        OotPage::MapPage
    } else if m == 2 {
        OotPage::Quest
    } else {
        OotPage::Equipment
    }
}

pub open spec fn oot_page_label(p: OotPage) -> Seq<char> {
    match p {
        OotPage::Items => "Select Item"@,
        OotPage::Equipment => "Equipment"@,
        OotPage::MapPage => "Map"@,
        OotPage::Quest => "Quest Status"@,
    }
}

impl OotPage {
    pub fn index(self) -> (i: i32)
        ensures
            i == oot_page_index(self),
    {
        match self {
            OotPage::Items => 0,
            OotPage::MapPage => 1,
            OotPage::Quest => 2,
            OotPage::Equipment => 3,
        }
    }

    /// The page at ring position `idx`, taken modulo four.
    pub fn from_index(idx: i32) -> (p: OotPage)
        ensures
            p == oot_page_from_index(idx as int),
    {
        match idx.checked_rem_euclid(4) {
            Some(0) => OotPage::Items,
            Some(1) => OotPage::MapPage,
            Some(2) => OotPage::Quest,
            _ => OotPage::Equipment,
        }
    }

    pub fn label(self) -> (s: &'static str)
        ensures
            s@ == oot_page_label(self),
    {
        match self {
            OotPage::Items => "Select Item",
            OotPage::Equipment => "Equipment",
            OotPage::MapPage => "Map",
            OotPage::Quest => "Quest Status",
        }
    }
}

/// The three yellow C-buttons items can be assigned to.
#[derive(Clone, Copy, Debug, PartialEq, Eq, Hash, Structural)]
pub enum CButton {
    Left,
    Down,
    Right,
}

pub open spec fn c_button_index(b: CButton) -> int {
    match b {
        CButton::Left => 0,
        CButton::Down => 1,
        CButton::Right => 2,
    }
}

pub open spec fn c_button_label(b: CButton) -> Seq<char> {
    match b {
        CButton::Left => "Left"@,
        CButton::Down => "Down"@,
        CButton::Right => "Right"@,
    }
}

impl CButton {
    pub fn label(self) -> (s: &'static str)
        ensures
            s@ == c_button_label(self),
    {
        match self {
            CButton::Left => "Left",
            CButton::Down => "Down",
            CButton::Right => "Right",
        }
    }

    pub fn index(self) -> (i: usize)
        ensures
            i == c_button_index(self),
    {
        match self {
            CButton::Left => 0,
            CButton::Down => 1,
            CButton::Right => 2,
        }
    }
}

/// The magic arrows, which are equipped through the bow.
#[derive(Clone, Copy, Debug, PartialEq, Eq, Hash, Structural)]
pub enum ArrowKind {
    Fire,
    Ice,
    Light,
}

pub open spec fn arrow_label(k: ArrowKind) -> Seq<char> {
    match k {
        ArrowKind::Fire => "Fire Arrow"@,
        ArrowKind::Ice => "Ice Arrow"@,
        ArrowKind::Light => "Light Arrow"@,
    }
}

pub open spec fn arrow_glow_icon(k: ArrowKind) -> Seq<char> {
    match k {
        ArrowKind::Fire => "icons/oot/fire_arrow.png"@,
        ArrowKind::Ice => "icons/oot/ice_arrow.png"@,
        ArrowKind::Light => "icons/oot/light_arrow.png"@,
    }
}

impl ArrowKind {
    pub fn label(self) -> (s: &'static str)
        ensures
            s@ == arrow_label(self),
    {
        match self {
            ArrowKind::Fire => "Fire Arrow",
            ArrowKind::Ice => "Ice Arrow",
            ArrowKind::Light => "Light Arrow",
        }
    }

    pub fn glow_icon(self) -> (s: &'static str)
        ensures
            s@ == arrow_glow_icon(self),
    {
        match self {
            ArrowKind::Fire => "icons/oot/fire_arrow.png",
            ArrowKind::Ice => "icons/oot/ice_arrow.png",
            ArrowKind::Light => "icons/oot/light_arrow.png",
        }
    }
}

/// What a C-button holds for the purpose of keeping assignments unique: the
/// bow and the magic arrows share one family, every other item is its own.
#[derive(Clone, Copy, Debug, PartialEq, Eq, Hash, Structural)]
pub enum CSlotFamily {
    Bow,
    Item(usize),
}

pub open spec fn spec_bow_item_index() -> usize {
    3
}

pub open spec fn spec_arrow_kind(item_idx: usize) -> Option<ArrowKind> {
    if item_idx == 4 {
        Some(ArrowKind::Fire)
    } else if item_idx == 10 {
        Some(ArrowKind::Ice)
    } else if item_idx == 16 {
        Some(ArrowKind::Light)
    } else {
        None
    }
}

pub open spec fn spec_c_slot_family(item_idx: usize) -> CSlotFamily {
    if item_idx == spec_bow_item_index() || spec_arrow_kind(item_idx) is Some {
        CSlotFamily::Bow
    } else {
        CSlotFamily::Item(item_idx)
    }
}

/// Slot of the Fairy Bow in the item grid.
pub fn bow_item_index() -> (i: usize)
    ensures
        i == spec_bow_item_index(),
{
    3
}

/// The magic arrow at item slot `item_idx`, if it holds one.
pub fn arrow_kind(item_idx: usize) -> (k: Option<ArrowKind>)
    ensures
        k == spec_arrow_kind(item_idx),
{
    if item_idx == 4 {
        Some(ArrowKind::Fire)
    } else if item_idx == 10 {
        Some(ArrowKind::Ice)
    } else if item_idx == 16 {
        Some(ArrowKind::Light)
    } else {
        None
    }
}

pub fn c_slot_family(item_idx: usize) -> (f: CSlotFamily)
    ensures
        f == spec_c_slot_family(item_idx),
{
    if item_idx == bow_item_index() || arrow_kind(item_idx).is_some() {
        CSlotFamily::Bow
    } else {
        CSlotFamily::Item(item_idx)
    }
}

/// The item the Items page opens on: the Fairy Bow, the central item adult
/// Link can assign.
pub fn default_item_action_index() -> (i: usize)
    ensures
        i == spec_bow_item_index(),
{
    bow_item_index()
}

pub open spec fn oot_item_name(idx: int) -> Seq<char> {
    if idx == 0 {
        "Deku Stick"@
    } else if idx == 1 {
        "Deku Nut"@
    } else if idx == 2 {
        "Bomb"@
    } else if idx == 3 {
        "Fairy Bow"@
    } else if idx == 4 {
        "Fire Arrow"@
    } else if idx == 5 {
        "Din's Fire"@
    } else if idx == 6 {
        "Fairy Slingshot"@
    } else if idx == 7 {
        "Ocarina of Time"@
    } else if idx == 8 {
        "Bombchu"@
    } else if idx == 9 {
        "Longshot"@
    } else if idx == 10 {
        "Ice Arrow"@
    } else if idx == 11 {
        "Farore's Wind"@
    } else if idx == 12 {
        "Boomerang"@
    } else if idx == 13 {
        "Lens of Truth"@
    } else if idx == 14 {
        "Magic Bean"@
    } else if idx == 15 {
        "Megaton Hammer"@
    } else if idx == 16 {
        "Light Arrow"@
    } else if idx == 17 {
        "Nayru's Love"@
    } else if idx == 18 {
        "Bottle"@
    } else if idx == 19 {
        "Bottle"@
    } else if idx == 20 {
        "Bottle"@
    } else if idx == 21 {
        "Bottle"@
    } else if idx == 22 {
        "Claim Check"@
    } else if idx == 23 {
        "Mask"@
    } else {
        Seq::empty()
    }
}

pub open spec fn oot_item_short(idx: int) -> Seq<char> {
    if idx == 0 {
        "Stick"@
    } else if idx == 1 {
        "Nut"@
    } else if idx == 2 {
        "Bomb"@
    } else if idx == 3 {
        "Bow"@
    } else if idx == 4 {
        "Fire"@
    } else if idx == 5 {
        "Din"@
    } else if idx == 6 {
        "Shot"@
    } else if idx == 7 {
        "Ocarina"@
    } else if idx == 8 {
        "Bombchu"@
    } else if idx == 9 {
        "Long"@
    } else if idx == 10 {
        "Ice"@
    } else if idx == 11 {
        "Farore"@
    } else if idx == 12 {
        "Boom"@
    } else if idx == 13 {
        "Lens"@
    } else if idx == 14 {
        "Bean"@
    } else if idx == 15 {
        "Hammer"@
    } else if idx == 16 {
        "Light"@
    } else if idx == 17 {
        "Nayru"@
    } else if idx == 18 {
        "Fairy"@
    } else if idx == 19 {
        "Milk"@
    } else if idx == 20 {
        "Fire"@
    } else if idx == 21 {
        "Poe"@
    } else if idx == 22 {
        "Check"@
    } else if idx == 23 {
        "Mask"@
    } else {
        Seq::empty()
    }
}

pub open spec fn oot_item_icon(idx: int) -> Seq<char> {
    if idx == 0 {
        "icons/oot/deku_stick.png"@
    } else if idx == 1 {
        "icons/oot/deku_nut.png"@
    } else if idx == 2 {
        "icons/oot/bomb.png"@
    } else if idx == 3 {
        "icons/oot/bow.png"@
    } else if idx == 4 {
        "icons/oot/fire_arrow.png"@
    } else if idx == 5 {
        "icons/oot/dins_fire.png"@
    } else if idx == 6 {
        "icons/oot/slingshot.png"@
    } else if idx == 7 {
        "icons/oot/ocarina.png"@
    } else if idx == 8 {
        "icons/oot/bombchu.png"@
    } else if idx == 9 {
        "icons/oot/longshot.png"@
    } else if idx == 10 {
        "icons/oot/ice_arrow.png"@
    } else if idx == 11 {
        "icons/oot/farores_wind.png"@
    } else if idx == 12 {
        "icons/oot/boomerang.png"@
    } else if idx == 13 {
        "icons/oot/lens.png"@
    } else if idx == 14 {
        "icons/oot/beans.png"@
    } else if idx == 15 {
        "icons/oot/hammer.png"@
    } else if idx == 16 {
        "icons/oot/light_arrow.png"@
    } else if idx == 17 {
        "icons/oot/nayrus_love.png"@
    } else if idx == 18 {
        "icons/oot/bottle.png"@
    } else if idx == 19 {
        "icons/oot/milk.png"@
    } else if idx == 20 {
        "icons/oot/bottle.png"@
    } else if idx == 21 {
        "icons/oot/poe.png"@
    } else if idx == 22 {
        "icons/oot/claim_check.png"@
    } else if idx == 23 {
        "icons/oot/mask.png"@
    } else {
        Seq::empty()
    }
}

pub open spec fn oot_item_detail(idx: int) -> Option<Seq<char>> {
    if idx == 0 {
        Some("x99"@)
    } else if idx == 1 {
        Some("x99"@)
    } else if idx == 2 {
        Some("x99"@)
    } else if idx == 3 {
        Some("x50"@)
    } else if idx == 4 {
        None
    } else if idx == 5 {
        None
    } else if idx == 6 {
        Some("x50"@)
    } else if idx == 7 {
        None
    } else if idx == 8 {
        Some("x50"@)
    } else if idx == 9 {
        None
    } else if idx == 10 {
        None
    } else if idx == 11 {
        None
    } else if idx == 12 {
        None
    } else if idx == 13 {
        None
    } else if idx == 14 {
        Some("x10"@)
    } else if idx == 15 {
        None
    } else if idx == 16 {
        None
    } else if idx == 17 {
        None
    } else if idx == 18 {
        Some("Fairy"@)
    } else if idx == 19 {
        Some("Milk"@)
    } else if idx == 20 {
        Some("Fire"@)
    } else if idx == 21 {
        Some("Poe"@)
    } else if idx == 22 {
        None
    } else if idx == 23 {
        None
    } else {
        None
    }
}

pub open spec fn oot_item_important(idx: int) -> bool {
    if idx == 0 {
        false
    } else if idx == 1 {
        false
    } else if idx == 2 {
        false
    } else if idx == 3 {
        true
    } else if idx == 4 {
        true
    } else if idx == 5 {
        true
    } else if idx == 6 {
        true
    } else if idx == 7 {
        true
    } else if idx == 8 {
        false
    } else if idx == 9 {
        true
    } else if idx == 10 {
        true
    } else if idx == 11 {
        true
    } else if idx == 12 {
        true
    } else if idx == 13 {
        true
    } else if idx == 14 {
        false
    } else if idx == 15 {
        true
    } else if idx == 16 {
        true
    } else if idx == 17 {
        true
    } else if idx == 18 {
        true
    } else if idx == 19 {
        true
    } else if idx == 20 {
        true
    } else if idx == 21 {
        true
    } else if idx == 22 {
        false
    } else if idx == 23 {
        false
    } else {
        false
    }
}

pub open spec fn oot_item_adult_usable(idx: int) -> bool {
    if idx == 0 {
        false
    } else if idx == 1 {
        true
    } else if idx == 2 {
        true
    } else if idx == 3 {
        true
    } else if idx == 4 {
        true
    } else if idx == 5 {
        true
    } else if idx == 6 {
        false
    } else if idx == 7 {
        true
    } else if idx == 8 {
        true
    } else if idx == 9 {
        true
    } else if idx == 10 {
        true
    } else if idx == 11 {
        true
    } else if idx == 12 {
        false
    } else if idx == 13 {
        true
    } else if idx == 14 {
        false
    } else if idx == 15 {
        true
    } else if idx == 16 {
        true
    } else if idx == 17 {
        true
    } else if idx == 18 {
        true
    } else if idx == 19 {
        true
    } else if idx == 20 {
        true
    } else if idx == 21 {
        true
    } else if idx == 22 {
        true
    } else if idx == 23 {
        false
    } else {
        false
    }
}

pub open spec fn equip_slot_name(idx: int) -> Seq<char> {
    if idx == 0 {
        "Sword"@
    } else if idx == 1 {
        "Shield"@
    } else if idx == 2 {
        "Tunic"@
    } else if idx == 3 {
        "Boots"@
    } else {
        Seq::empty()
    }
}

pub open spec fn equip_choice_name(idx: int) -> Seq<char> {
    if idx == 0 {
        "Kokiri Sword"@
    } else if idx == 1 {
        "Master Sword"@
    } else if idx == 2 {
        "Biggoron Sword"@
    } else if idx == 3 {
        "Deku Shield"@
    } else if idx == 4 {
        "Hylian Shield"@
    } else if idx == 5 {
        "Mirror Shield"@
    } else if idx == 6 {
        "Kokiri Tunic"@
    } else if idx == 7 {
        "Goron Tunic"@
    } else if idx == 8 {
        "Zora Tunic"@
    } else if idx == 9 {
        "Kokiri Boots"@
    } else if idx == 10 {
        "Iron Boots"@
    } else if idx == 11 {
        "Hover Boots"@
    } else {
        Seq::empty()
    }
}

pub open spec fn equip_choice_short(idx: int) -> Seq<char> {
    if idx == 0 {
        "Kok"@
    } else if idx == 1 {
        "Mas"@
    } else if idx == 2 {
        "Big"@
    } else if idx == 3 {
        "Deku"@
    } else if idx == 4 {
        "Hyl"@
    } else if idx == 5 {
        "Mir"@
    } else if idx == 6 {
        "Kok"@
    } else if idx == 7 {
        "Gor"@
    } else if idx == 8 {
        "Zora"@
    } else if idx == 9 {
        "Kok"@
    } else if idx == 10 {
        "Iron"@
    } else if idx == 11 {
        "Hover"@
    } else {
        Seq::empty()
    }
}

pub open spec fn equip_choice_icon(idx: int) -> Seq<char> {
    if idx == 0 {
        "icons/oot/kokiri_sword.png"@
    } else if idx == 1 {
        "icons/oot/master_sword.png"@
    } else if idx == 2 {
        "icons/oot/biggoron_sword.png"@
    } else if idx == 3 {
        "icons/oot/deku_shield.png"@
    } else if idx == 4 {
        "icons/oot/hylian_shield.png"@
    } else if idx == 5 {
        "icons/oot/mirror_shield.png"@
    } else if idx == 6 {
        "icons/oot/kokiri_tunic.png"@
    } else if idx == 7 {
        "icons/oot/goron_tunic.png"@
    } else if idx == 8 {
        "icons/oot/zora_tunic.png"@
    } else if idx == 9 {
        "icons/oot/kokiri_boots.png"@
    } else if idx == 10 {
        "icons/oot/iron_boots.png"@
    } else if idx == 11 {
        "icons/oot/hover_boots.png"@
    } else {
        Seq::empty()
    }
}

pub open spec fn equip_choice_adult_usable(idx: int) -> bool {
    if idx == 0 {
        false
    } else if idx == 1 {
        true
    } else if idx == 2 {
        true
    } else if idx == 3 {
        false
    } else if idx == 4 {
        true
    } else if idx == 5 {
        true
    } else if idx == 6 {
        true
    } else if idx == 7 {
        true
    } else if idx == 8 {
        true
    } else if idx == 9 {
        true
    } else if idx == 10 {
        true
    } else if idx == 11 {
        true
    } else {
        false
    }
}

pub open spec fn map_marker_name(idx: int) -> Seq<char> {
    if idx == 0 {
        "Kokiri Forest"@
    } else if idx == 1 {
        "Lost Woods"@
    } else if idx == 2 {
        "Market"@
    } else if idx == 3 {
        "Death Mountain"@
    } else if idx == 4 {
        "Zora Domain"@
    } else if idx == 5 {
        "Lake Hylia"@
    } else if idx == 6 {
        "Gerudo Valley"@
    } else if idx == 7 {
        "Lon Lon Ranch"@
    } else {
        Seq::empty()
    }
}

pub open spec fn map_marker_short(idx: int) -> Seq<char> {
    if idx == 0 {
        "K"@
    } else if idx == 1 {
        "W"@
    } else if idx == 2 {
        "M"@
    } else if idx == 3 {
        "D"@
    } else if idx == 4 {
        "Z"@
    } else if idx == 5 {
        "L"@
    } else if idx == 6 {
        "G"@
    } else if idx == 7 {
        "R"@
    } else {
        Seq::empty()
    }
}

pub open spec fn quest_icon_name(idx: int) -> Seq<char> {
    if idx == 0 {
        "Forest Medallion"@
    } else if idx == 1 {
        "Fire Medallion"@
    } else if idx == 2 {
        "Water Medallion"@
    } else if idx == 3 {
        "Spirit Medallion"@
    } else if idx == 4 {
        "Shadow Medallion"@
    } else if idx == 5 {
        "Light Medallion"@
    } else if idx == 6 {
        "Kokiri Emerald"@
    } else if idx == 7 {
        "Goron Ruby"@
    } else if idx == 8 {
        "Zora Sapphire"@
    } else {
        Seq::empty()
    }
}

pub open spec fn quest_icon_short(idx: int) -> Seq<char> {
    if idx == 0 {
        "Fo"@
    } else if idx == 1 {
        "Fi"@
    } else if idx == 2 {
        "Wa"@
    } else if idx == 3 {
        "Sp"@
    } else if idx == 4 {
        "Sh"@
    } else if idx == 5 {
        "Li"@
    } else if idx == 6 {
        "Em"@
    } else if idx == 7 {
        "Ru"@
    } else if idx == 8 {
        "Sa"@
    } else {
        Seq::empty()
    }
}

pub open spec fn quest_icon_path(idx: int) -> Seq<char> {
    if idx == 0 {
        "icons/oot/med_forest.png"@
    } else if idx == 1 {
        "icons/oot/med_fire.png"@
    } else if idx == 2 {
        "icons/oot/med_water.png"@
    } else if idx == 3 {
        "icons/oot/med_spirit.png"@
    } else if idx == 4 {
        "icons/oot/med_shadow.png"@
    } else if idx == 5 {
        "icons/oot/med_light.png"@
    } else if idx == 6 {
        "icons/oot/stone_emerald.png"@
    } else if idx == 7 {
        "icons/oot/stone_ruby.png"@
    } else if idx == 8 {
        "icons/oot/stone_sapphire.png"@
    } else {
        Seq::empty()
    }
}

pub open spec fn song_name(idx: int) -> Seq<char> {
    if idx == 0 {
        "Minuet of Forest"@
    } else if idx == 1 {
        "Bolero of Fire"@
    } else if idx == 2 {
        "Serenade of Water"@
    } else if idx == 3 {
        "Requiem of Spirit"@
    } else if idx == 4 {
        "Nocturne of Shadow"@
    } else if idx == 5 {
        "Prelude of Light"@
    } else if idx == 6 {
        "Zelda's Lullaby"@
    } else if idx == 7 {
        "Epona's Song"@
    } else if idx == 8 {
        "Saria's Song"@
    } else if idx == 9 {
        "Sun's Song"@
    } else if idx == 10 {
        "Song of Time"@
    } else if idx == 11 {
        "Song of Storms"@
    } else {
        Seq::empty()
    }
}

pub open spec fn song_short(idx: int) -> Seq<char> {
    if idx == 0 {
        "Min"@
    } else if idx == 1 {
        "Bol"@
    } else if idx == 2 {
        "Ser"@
    } else if idx == 3 {
        "Req"@
    } else if idx == 4 {
        "Noc"@
    } else if idx == 5 {
        "Pre"@
    } else if idx == 6 {
        "Zel"@
    } else if idx == 7 {
        "Epo"@
    } else if idx == 8 {
        "Sar"@
    } else if idx == 9 {
        "Sun"@
    } else if idx == 10 {
        "Tim"@
    } else if idx == 11 {
        "Sto"@
    } else {
        Seq::empty()
    }
}

pub open spec fn song_icon(idx: int) -> Seq<char> {
    if idx == 0 {
        "icons/oot/song_minuet.png"@
    } else if idx == 1 {
        "icons/oot/song_bolero.png"@
    } else if idx == 2 {
        "icons/oot/song_serenade.png"@
    } else if idx == 3 {
        "icons/oot/song_requiem.png"@
    } else if idx == 4 {
        "icons/oot/song_nocturne.png"@
    } else if idx == 5 {
        "icons/oot/song_prelude.png"@
    } else if idx == 6 {
        "icons/oot/song_lullaby.png"@
    } else if idx == 7 {
        "icons/oot/song_epona.png"@
    } else if idx == 8 {
        "icons/oot/song_saria.png"@
    } else if idx == 9 {
        "icons/oot/song_sun.png"@
    } else if idx == 10 {
        "icons/oot/song_time.png"@
    } else if idx == 11 {
        "icons/oot/song_storms.png"@
    } else {
        Seq::empty()
    }
}

pub open spec fn song_pattern(idx: int) -> Seq<char> {
    if idx == 0 {
        "A ↑ ← → ← →"@
    } else if idx == 1 {
        "↓ A ↓ A → ↓ → ↓"@
    } else if idx == 2 {
        "A ↓ → → ←"@
    } else if idx == 3 {
        "A ↓ A → ↓ A"@
    } else if idx == 4 {
        "← → → A ← → ↓"@
    } else if idx == 5 {
        "↑ → ↑ → ← ↑"@
    } else if idx == 6 {
        "← ↑ → ← ↑ →"@
    } else if idx == 7 {
        "↑ ← → ↑ ← →"@
    } else if idx == 8 {
        "↓ → ← ↓ → ←"@
    } else if idx == 9 {
        "→ ↓ ↑ → ↓ ↑"@
    } else if idx == 10 {
        "→ A ↓ → A ↓"@
    } else if idx == 11 {
        "A ↓ ↑ A ↓ ↑"@
    } else {
        Seq::empty()
    }
}


/// One slot of the item grid.
#[derive(Clone, Copy, Debug)]
pub struct OotItem {
    pub name: &'static str,
    pub short: &'static str,
    pub icon: &'static str,
    pub detail: Option<&'static str>,
    pub important: bool,
    pub adult_usable: bool,
}

impl OotItem {
    pub open spec fn spec_matches(self, idx: int) -> bool {
        &&& self.name@ == oot_item_name(idx)
        &&& self.short@ == oot_item_short(idx)
        &&& self.icon@ == oot_item_icon(idx)
        &&& match self.detail {
            Some(d) => oot_item_detail(idx) == Some(d@),
            None => oot_item_detail(idx) is None,
        }
        &&& self.important == oot_item_important(idx)
        &&& self.adult_usable == oot_item_adult_usable(idx)
    }

    pub fn usable_by_current_link(self) -> (b: bool)
        ensures
            b == usable_now(self.adult_usable),
    {
        if LINK_IS_ADULT {
            self.adult_usable
        } else {
            true
        }
    }
}

/// One option of an equipment slot.
#[derive(Clone, Copy, Debug)]
pub struct EquipChoice {
    pub name: &'static str,
    pub short: &'static str,
    pub icon: &'static str,
    pub adult_usable: bool,
}

impl EquipChoice {
    /// Entry `choice` of equipment slot `slot`, counted row by row.
    pub open spec fn spec_matches(self, slot: int, choice: int) -> bool {
        let k = slot * 3 + choice;
        &&& self.name@ == equip_choice_name(k)
        &&& self.short@ == equip_choice_short(k)
        &&& self.icon@ == equip_choice_icon(k)
        &&& self.adult_usable == equip_choice_adult_usable(k)
    }

    pub fn usable_by_current_link(self) -> (b: bool)
        ensures
            b == usable_now(self.adult_usable),
    {
        if LINK_IS_ADULT {
            self.adult_usable
        } else {
            true
        }
    }
}

/// A named place on the map page (its position belongs to the page layout).
#[derive(Clone, Copy, Debug)]
pub struct MapMarker {
    pub name: &'static str,
    pub short: &'static str,
}

/// A medallion or spiritual stone of the quest page.
#[derive(Clone, Copy, Debug)]
pub struct QuestIcon {
    pub name: &'static str,
    pub short: &'static str,
    pub icon: &'static str,
}

/// A song of the quest page with its button pattern.
#[derive(Clone, Copy, Debug)]
pub struct Song {
    pub name: &'static str,
    pub short: &'static str,
    pub icon: &'static str,
    pub pattern: &'static str,
}

/// Item grid slot `idx`, in the game's inventory order (row by row).
pub fn oot_item(idx: usize) -> (item: OotItem)
    requires
        idx < OOT_ITEM_COUNT,
    ensures
        item.spec_matches(idx as int),
{
    if idx == 0 {
        OotItem { name: "Deku Stick", short: "Stick", icon: "icons/oot/deku_stick.png", detail: Some("x99"), important: false, adult_usable: false }
    } else if idx == 1 {
        OotItem { name: "Deku Nut", short: "Nut", icon: "icons/oot/deku_nut.png", detail: Some("x99"), important: false, adult_usable: true }
    } else if idx == 2 {
        OotItem { name: "Bomb", short: "Bomb", icon: "icons/oot/bomb.png", detail: Some("x99"), important: false, adult_usable: true }
    } else if idx == 3 {
        OotItem { name: "Fairy Bow", short: "Bow", icon: "icons/oot/bow.png", detail: Some("x50"), important: true, adult_usable: true }
    } else if idx == 4 {
        OotItem { name: "Fire Arrow", short: "Fire", icon: "icons/oot/fire_arrow.png", detail: None, important: true, adult_usable: true }
    } else if idx == 5 {
        OotItem { name: "Din's Fire", short: "Din", icon: "icons/oot/dins_fire.png", detail: None, important: true, adult_usable: true }
    } else if idx == 6 {
        OotItem { name: "Fairy Slingshot", short: "Shot", icon: "icons/oot/slingshot.png", detail: Some("x50"), important: true, adult_usable: false }
    } else if idx == 7 {
        OotItem { name: "Ocarina of Time", short: "Ocarina", icon: "icons/oot/ocarina.png", detail: None, important: true, adult_usable: true }
    } else if idx == 8 {
        OotItem { name: "Bombchu", short: "Bombchu", icon: "icons/oot/bombchu.png", detail: Some("x50"), important: false, adult_usable: true }
    } else if idx == 9 {
        OotItem { name: "Longshot", short: "Long", icon: "icons/oot/longshot.png", detail: None, important: true, adult_usable: true }
    } else if idx == 10 {
        OotItem { name: "Ice Arrow", short: "Ice", icon: "icons/oot/ice_arrow.png", detail: None, important: true, adult_usable: true }
    } else if idx == 11 {
        OotItem { name: "Farore's Wind", short: "Farore", icon: "icons/oot/farores_wind.png", detail: None, important: true, adult_usable: true }
    } else if idx == 12 {
        OotItem { name: "Boomerang", short: "Boom", icon: "icons/oot/boomerang.png", detail: None, important: true, adult_usable: false }
    } else if idx == 13 {
        OotItem { name: "Lens of Truth", short: "Lens", icon: "icons/oot/lens.png", detail: None, important: true, adult_usable: true }
    } else if idx == 14 {
        OotItem { name: "Magic Bean", short: "Bean", icon: "icons/oot/beans.png", detail: Some("x10"), important: false, adult_usable: false }
    } else if idx == 15 {
        OotItem { name: "Megaton Hammer", short: "Hammer", icon: "icons/oot/hammer.png", detail: None, important: true, adult_usable: true }
    } else if idx == 16 {
        OotItem { name: "Light Arrow", short: "Light", icon: "icons/oot/light_arrow.png", detail: None, important: true, adult_usable: true }
    } else if idx == 17 {
        OotItem { name: "Nayru's Love", short: "Nayru", icon: "icons/oot/nayrus_love.png", detail: None, important: true, adult_usable: true }
    } else if idx == 18 {
        OotItem { name: "Bottle", short: "Fairy", icon: "icons/oot/bottle.png", detail: Some("Fairy"), important: true, adult_usable: true }
    } else if idx == 19 {
        OotItem { name: "Bottle", short: "Milk", icon: "icons/oot/milk.png", detail: Some("Milk"), important: true, adult_usable: true }
    } else if idx == 20 {
        OotItem { name: "Bottle", short: "Fire", icon: "icons/oot/bottle.png", detail: Some("Fire"), important: true, adult_usable: true }
    } else if idx == 21 {
        OotItem { name: "Bottle", short: "Poe", icon: "icons/oot/poe.png", detail: Some("Poe"), important: true, adult_usable: true }
    } else if idx == 22 {
        OotItem { name: "Claim Check", short: "Check", icon: "icons/oot/claim_check.png", detail: None, important: false, adult_usable: true }
    } else {
        OotItem { name: "Mask", short: "Mask", icon: "icons/oot/mask.png", detail: None, important: false, adult_usable: false }
    }
}

/// Name of equipment slot `idx` (sword, shield, tunic, boots).
pub fn equip_slot_label(idx: usize) -> (s: &'static str)
    requires
        idx < EQUIP_SLOT_COUNT,
    ensures
        s@ == equip_slot_name(idx as int),
{
    if idx == 0 {
        "Sword"
    } else if idx == 1 {
        "Shield"
    } else if idx == 2 {
        "Tunic"
    } else {
        "Boots"
    }
}

/// Option `choice` of equipment slot `slot`.
pub fn equip_choice(slot: usize, choice: usize) -> (c: EquipChoice)
    requires
        slot < EQUIP_SLOT_COUNT,
        choice < EQUIP_CHOICE_COUNT,
    ensures
        c.spec_matches(slot as int, choice as int),
{
    let idx = slot * 3 + choice;
    if idx == 0 {
        EquipChoice { name: "Kokiri Sword", short: "Kok", icon: "icons/oot/kokiri_sword.png", adult_usable: false }
    } else if idx == 1 {
        EquipChoice { name: "Master Sword", short: "Mas", icon: "icons/oot/master_sword.png", adult_usable: true }
    } else if idx == 2 {
        EquipChoice { name: "Biggoron Sword", short: "Big", icon: "icons/oot/biggoron_sword.png", adult_usable: true }
    } else if idx == 3 {
        EquipChoice { name: "Deku Shield", short: "Deku", icon: "icons/oot/deku_shield.png", adult_usable: false }
    } else if idx == 4 {
        EquipChoice { name: "Hylian Shield", short: "Hyl", icon: "icons/oot/hylian_shield.png", adult_usable: true }
    } else if idx == 5 {
        EquipChoice { name: "Mirror Shield", short: "Mir", icon: "icons/oot/mirror_shield.png", adult_usable: true }
    } else if idx == 6 {
        EquipChoice { name: "Kokiri Tunic", short: "Kok", icon: "icons/oot/kokiri_tunic.png", adult_usable: true }
    } else if idx == 7 {
        EquipChoice { name: "Goron Tunic", short: "Gor", icon: "icons/oot/goron_tunic.png", adult_usable: true }
    } else if idx == 8 {
        EquipChoice { name: "Zora Tunic", short: "Zora", icon: "icons/oot/zora_tunic.png", adult_usable: true }
    } else if idx == 9 {
        EquipChoice { name: "Kokiri Boots", short: "Kok", icon: "icons/oot/kokiri_boots.png", adult_usable: true }
    } else if idx == 10 {
        EquipChoice { name: "Iron Boots", short: "Iron", icon: "icons/oot/iron_boots.png", adult_usable: true }
    } else {
        EquipChoice { name: "Hover Boots", short: "Hover", icon: "icons/oot/hover_boots.png", adult_usable: true }
    }
}

/// Marker `idx` of the map page.
pub fn map_marker(idx: usize) -> (m: MapMarker)
    requires
        idx < OOT_MAP_MARKER_COUNT,
    ensures
        m.name@ == map_marker_name(idx as int),
        m.short@ == map_marker_short(idx as int),
{
    if idx == 0 {
        MapMarker { name: "Kokiri Forest", short: "K" }
    } else if idx == 1 {
        MapMarker { name: "Lost Woods", short: "W" }
    } else if idx == 2 {
        MapMarker { name: "Market", short: "M" }
    } else if idx == 3 {
        MapMarker { name: "Death Mountain", short: "D" }
    } else if idx == 4 {
        MapMarker { name: "Zora Domain", short: "Z" }
    } else if idx == 5 {
        MapMarker { name: "Lake Hylia", short: "L" }
    } else if idx == 6 {
        MapMarker { name: "Gerudo Valley", short: "G" }
    } else {
        MapMarker { name: "Lon Lon Ranch", short: "R" }
    }
}

/// Quest icon `idx`: the six medallions, then the three spiritual stones.
pub fn quest_icon(idx: usize) -> (q: QuestIcon)
    requires
        idx < QUEST_ICON_COUNT,
    ensures
        q.name@ == quest_icon_name(idx as int),
        q.short@ == quest_icon_short(idx as int),
        q.icon@ == quest_icon_path(idx as int),
{
    if idx == 0 {
        QuestIcon { name: "Forest Medallion", short: "Fo", icon: "icons/oot/med_forest.png" }
    } else if idx == 1 {
        QuestIcon { name: "Fire Medallion", short: "Fi", icon: "icons/oot/med_fire.png" }
    } else if idx == 2 {
        QuestIcon { name: "Water Medallion", short: "Wa", icon: "icons/oot/med_water.png" }
    } else if idx == 3 {
        QuestIcon { name: "Spirit Medallion", short: "Sp", icon: "icons/oot/med_spirit.png" }
    } else if idx == 4 {
        QuestIcon { name: "Shadow Medallion", short: "Sh", icon: "icons/oot/med_shadow.png" }
    } else if idx == 5 {
        QuestIcon { name: "Light Medallion", short: "Li", icon: "icons/oot/med_light.png" }
    } else if idx == 6 {
        QuestIcon { name: "Kokiri Emerald", short: "Em", icon: "icons/oot/stone_emerald.png" }
    } else if idx == 7 {
        QuestIcon { name: "Goron Ruby", short: "Ru", icon: "icons/oot/stone_ruby.png" }
    } else {
        QuestIcon { name: "Zora Sapphire", short: "Sa", icon: "icons/oot/stone_sapphire.png" }
    }
}

/// Song `idx` of the quest page.
pub fn song(idx: usize) -> (s: Song)
    requires
        idx < SONG_COUNT,
    ensures
        s.name@ == song_name(idx as int),
        s.short@ == song_short(idx as int),
        s.icon@ == song_icon(idx as int),
        s.pattern@ == song_pattern(idx as int),
{
    if idx == 0 {
        Song { name: "Minuet of Forest", short: "Min", icon: "icons/oot/song_minuet.png", pattern: "A ↑ ← → ← →" }
    } else if idx == 1 {
        Song { name: "Bolero of Fire", short: "Bol", icon: "icons/oot/song_bolero.png", pattern: "↓ A ↓ A → ↓ → ↓" }
    } else if idx == 2 {
        Song { name: "Serenade of Water", short: "Ser", icon: "icons/oot/song_serenade.png", pattern: "A ↓ → → ←" }
    } else if idx == 3 {
        Song { name: "Requiem of Spirit", short: "Req", icon: "icons/oot/song_requiem.png", pattern: "A ↓ A → ↓ A" }
    } else if idx == 4 {
        Song { name: "Nocturne of Shadow", short: "Noc", icon: "icons/oot/song_nocturne.png", pattern: "← → → A ← → ↓" }
    } else if idx == 5 {
        Song { name: "Prelude of Light", short: "Pre", icon: "icons/oot/song_prelude.png", pattern: "↑ → ↑ → ← ↑" }
    } else if idx == 6 {
        Song { name: "Zelda's Lullaby", short: "Zel", icon: "icons/oot/song_lullaby.png", pattern: "← ↑ → ← ↑ →" }
    } else if idx == 7 {
        Song { name: "Epona's Song", short: "Epo", icon: "icons/oot/song_epona.png", pattern: "↑ ← → ↑ ← →" }
    } else if idx == 8 {
        Song { name: "Saria's Song", short: "Sar", icon: "icons/oot/song_saria.png", pattern: "↓ → ← ↓ → ←" }
    } else if idx == 9 {
        Song { name: "Sun's Song", short: "Sun", icon: "icons/oot/song_sun.png", pattern: "→ ↓ ↑ → ↓ ↑" }
    } else if idx == 10 {
        Song { name: "Song of Time", short: "Tim", icon: "icons/oot/song_time.png", pattern: "→ A ↓ → A ↓" }
    } else {
        Song { name: "Song of Storms", short: "Sto", icon: "icons/oot/song_storms.png", pattern: "A ↓ ↑ A ↓ ↑" }
    }
}

} // verus!
