//! Content of the mock inventory: pages of the mock cube, equipment slots,
//! item kinds and the fixed table of twenty-four items.

use vstd::prelude::*;

verus! {

pub const ITEM_GRID_COLS: usize = 6;

pub const ITEM_GRID_ROWS: usize = 4;

pub const ITEM_COUNT: usize = 24;

/// Column width (in bytes) of wrapped item descriptions.
pub const DETAIL_WRAP_COLS: usize = 18;

/// Column width (in bytes) of the wrapped host status line.
pub const STATUS_WRAP_COLS: usize = 56;

/// Number of description lines visible at once.
pub const DETAIL_VISIBLE_LINES: usize = 5;

/// One face of the mock cube.
#[derive(Clone, Copy, Debug, PartialEq, Eq, Hash, Structural)]
pub enum MockPage {
    Items,
    MapPage,
    Quest,
    System,
}

pub open spec fn mock_page_index(p: MockPage) -> int {
    match p {
        MockPage::Items => 0,
        MockPage::MapPage => 1,
        MockPage::Quest => 2,
        MockPage::System => 3,
    }
}

pub open spec fn mock_page_from_index(i: int) -> MockPage {
    let m = i % 4;
    if m == 0 {
        MockPage::Items
    } else if m == 1 {
        MockPage::MapPage
    } else if m == 2 {
        MockPage::Quest
    } else {
        MockPage::System
    }
}

pub open spec fn mock_page_label(p: MockPage) -> Seq<char> {
    match p {
        MockPage::Items => "Items"@,
        MockPage::MapPage => "Map"@,
        MockPage::Quest => "Quest"@,
        MockPage::System => "System"@,
    }
}

pub open spec fn mock_page_subtitle(p: MockPage) -> Seq<char> {
    match p {
        MockPage::Items => "equip / use items"@,
        MockPage::MapPage => "placeholder map"@,
        MockPage::Quest => "placeholder quest log"@,
        MockPage::System => "settings / pause options"@,
    }
}

impl MockPage {
    /// The four faces in ring order.
    pub fn all() -> (ps: [MockPage; 4])
        ensures
            forall|i: int| 0 <= i < 4 ==> ps@[i] == mock_page_from_index(i),
    {
        [MockPage::Items, MockPage::MapPage, MockPage::Quest, MockPage::System]
    }

    pub fn index(self) -> (i: i32)
        ensures
            i == mock_page_index(self),
    {
        match self {
            MockPage::Items => 0,
            MockPage::MapPage => 1,
            MockPage::Quest => 2,
            MockPage::System => 3,
        }
    }

    /// The face at ring position `index`, taken modulo four.
    pub fn from_index(index: i32) -> (p: MockPage)
        ensures
            p == mock_page_from_index(index as int),
    {
        let all = MockPage::all();
        match index.checked_rem_euclid(4) {
            Some(m) => {
                assert(0 <= m < 4);
                assert(all@[m as int] == mock_page_from_index(m as int));
                all[m as usize]
            },
            None => MockPage::Items,
        }
    }

    pub fn label(self) -> (s: &'static str)
        ensures
            s@ == mock_page_label(self),
    {
        match self {
            MockPage::Items => "Items",
            MockPage::MapPage => "Map",
            MockPage::Quest => "Quest",
            MockPage::System => "System",
        }
    }

    pub fn subtitle(self) -> (s: &'static str)
        ensures
            s@ == mock_page_subtitle(self),
    {
        match self {
            MockPage::Items => "equip / use items",
            MockPage::MapPage => "placeholder map",
            MockPage::Quest => "placeholder quest log",
            MockPage::System => "settings / pause options",
        }
    }
}

/// Physical page-turn direction from the player's viewpoint inside the cube.
#[derive(Clone, Copy, Debug, PartialEq, Eq, Hash, Structural)]
pub enum PageTurn {
    ViewerLeft,
    ViewerRight,
}

/// What a control of the mock menu asks for.
#[derive(Clone, Copy, Debug, PartialEq, Eq, Hash, Structural)]
pub enum MockAction {
    EdgeLeft,
    EdgeRight,
    Item(usize),
    DetailScrollUp,
    DetailScrollDown,
    Placeholder(usize),
}

/// Equipment slot an item occupies.
#[derive(Clone, Copy, Debug, PartialEq, Eq, Hash, Structural)]
pub enum EquipSlot {
    HeldItem,
    Body,
}

pub open spec fn equip_slot_label(s: EquipSlot) -> Seq<char> {
    match s {
        EquipSlot::HeldItem => "held item"@,
        EquipSlot::Body => "body"@,
    }
}

impl EquipSlot {
    pub fn label(self) -> (s: &'static str)
        ensures
            s@ == equip_slot_label(self),
    {
        match self {
            EquipSlot::HeldItem => "held item",
            EquipSlot::Body => "body",
        }
    }
}

#[derive(Clone, Copy, Debug, PartialEq, Eq, Hash, Structural)]
pub enum ItemKind {
    Equippable(EquipSlot),
    Consumable,
    KeyItem,
    Reserved,
}

/// Every kind but consumables is held at most once.
pub open spec fn kind_is_unique(k: ItemKind) -> bool {
    !(k is Consumable)
}

impl ItemKind {
    pub fn is_unique(self) -> (b: bool)
        ensures
            b == kind_is_unique(self),
    {
        !matches!(self, ItemKind::Consumable)
    }
}

/// One entry of the mock item table.
#[derive(Clone, Copy, Debug)]
pub struct MockItemSpec {
    pub name: &'static str,
    pub short: &'static str,
    pub glyph: &'static str,
    pub description: &'static str,
    pub kind: ItemKind,
    pub start_count: u32,
}

impl MockItemSpec {
    pub open spec fn spec_matches(self, idx: int) -> bool {
        &&& self.name@ == mock_item_name(idx)
        &&& self.short@ == mock_item_short(idx)
        &&& self.glyph@ == mock_item_glyph(idx)
        &&& self.description@ == mock_item_description(idx)
        &&& self.kind == mock_item_kind(idx)
        &&& self.start_count == mock_item_start_count(idx)
    }
}

pub open spec fn mock_item_name(idx: int) -> Seq<char> {
    if idx == 0 {
        "Portal Gun"@
    } else if idx == 1 {
        "Axe"@
    } else if idx == 2 {
        "Javelin"@
    } else if idx == 3 {
        "Gun-Sword"@
    } else if idx == 4 {
        "Puppy-Slug Gun"@
    } else if idx == 5 {
        "Fireball"@
    } else if idx == 6 {
        "Blink"@
    } else if idx == 7 {
        "Flight"@
    } else if idx == 8 {
        "Grapple Hook"@
    } else if idx == 9 {
        "Morph Ball"@
    } else if idx == 10 {
        "Mark / Recall"@
    } else if idx == 11 {
        "Bubble Shield"@
    } else if idx == 12 {
        "Health Cell"@
    } else if idx == 13 {
        "Mana Cell"@
    } else if idx == 14 {
        "Spare Battery"@
    } else if idx == 15 {
        "Data Chip"@
    } else if idx == 16 {
        "Bomb"@
    } else if idx == 17 {
        "Gold Pouch"@
    } else if idx == 18 {
        "Map Fragment"@
    } else if idx == 19 {
        "Sealed Note"@
    } else if idx == 20 {
        "Field Survey"@
    } else if idx == 21 {
        "Gate Key"@
    } else if idx == 22 {
        "Debug Lens"@
    } else {
        "Reserved"@
    }
}

pub open spec fn mock_item_short(idx: int) -> Seq<char> {
    if idx == 0 {
        "Portal"@
    } else if idx == 1 {
        "Axe"@
    } else if idx == 2 {
        "Javelin"@
    } else if idx == 3 {
        "GunSwrd"@
    } else if idx == 4 {
        "SlugGun"@
    } else if idx == 5 {
        "Fire"@
    } else if idx == 6 {
        "Blink"@
    } else if idx == 7 {
        "Fly"@
    } else if idx == 8 {
        "Grapple"@
    } else if idx == 9 {
        "Morph"@
    } else if idx == 10 {
        "Recall"@
    } else if idx == 11 {
        "Bubble"@
    } else if idx == 12 {
        "Health"@
    } else if idx == 13 {
        "Mana"@
    } else if idx == 14 {
        "Battery"@
    } else if idx == 15 {
        "Chip"@
    } else if idx == 16 {
        "Bomb"@
    } else if idx == 17 {
        "Gold"@
    } else if idx == 18 {
        "Map"@
    } else if idx == 19 {
        "Note"@
    } else if idx == 20 {
        "Survey"@
    } else if idx == 21 {
        "Gate"@
    } else if idx == 22 {
        "Lens"@
    } else {
        "--"@
    }
}

pub open spec fn mock_item_glyph(idx: int) -> Seq<char> {
    if idx == 0 {
        "O"@
    } else if idx == 1 {
        "A"@
    } else if idx == 2 {
        "J"@
    } else if idx == 3 {
        "G"@
    } else if idx == 4 {
        "S"@
    } else if idx == 5 {
        "F"@
    } else if idx == 6 {
        "B"@
    } else if idx == 7 {
        "Y"@
    } else if idx == 8 {
        "R"@
    } else if idx == 9 {
        "M"@
    } else if idx == 10 {
        "K"@
    } else if idx == 11 {
        "U"@
    } else if idx == 12 {
        "H"@
    } else if idx == 13 {
        "N"@
    } else if idx == 14 {
        "T"@
    } else if idx == 15 {
        "D"@
    } else if idx == 16 {
        "Q"@
    } else if idx == 17 {
        "$"@
    } else if idx == 18 {
        "P"@
    } else if idx == 19 {
        "L"@
    } else if idx == 20 {
        "V"@
    } else if idx == 21 {
        "E"@
    } else if idx == 22 {
        "I"@
    } else {
        "."@
    }
}

pub open spec fn mock_item_description(idx: int) -> Seq<char> {
    if idx == 0 {
        "Held-item traversal tool: opens linked portals in the real Ambition game. This mock treats it as a held item, so it conflicts with Axe, Javelin, Bomb, and other held tools."@
    } else if idx == 1 {
        "Held-item weapon: a heavy pirate axe. Equipping it replaces the current held item. Activating it again unequips it."@
    } else if idx == 2 {
        "Held-item weapon: a throwable spear. It occupies the same one-object held slot as the Axe and Portal Gun."@
    } else if idx == 3 {
        "Held-item weapon: a laser sword with a gun on it that shoots swords. Mostly a stress-test for action labels and replacement messages."@
    } else if idx == 4 {
        "Unowned held-item placeholder. It should remain visible for layout stability but disabled for host-side activation."@
    } else if idx == 5 {
        "Held spell verb. This may become an ability or spell resource in the real game, but the UI seam only needs to know that activating it requests a host action."@
    } else if idx == 6 {
        "Held traversal verb. In this mock it competes for the same held slot as weapons and tools."@
    } else if idx == 7 {
        "Body-slot movement mode. It conflicts with Morph Ball, Bubble Shield, and Debug Lens."@
    } else if idx == 8 {
        "Unowned held traversal tool placeholder."@
    } else if idx == 9 {
        "Body-slot suit/mode. It conflicts with Flight and other body modes."@
    } else if idx == 10 {
        "Held travel/combat tool placeholder; visible but not owned in this mock."@
    } else if idx == 11 {
        "Body-slot defensive mode. Equipping it replaces Flight, Morph Ball, or Debug Lens."@
    } else if idx == 12 {
        "Consumable: restores health in the real game. This mock decrements its count when activated."@
    } else if idx == 13 {
        "Consumable: restores mana in the real game. Counts are host-owned and the renderer only displays them."@
    } else if idx == 14 {
        "Consumable/resource placeholder used to demonstrate stack counts."@
    } else if idx == 15 {
        "Consumable/resource placeholder. Activating it decrements count to zero."@
    } else if idx == 16 {
        "Held explosive tool. This intentionally long description stress-tests the selected-item detail viewport. In the real Ambition menu, a bomb might explain blast radius, fuse timing, inventory limits, environmental interactions, and safety warnings. The important UI rule is that this text can be long without causing icon buttons, cube faces, equipment panels, or page dimensions to resize. The host can page or scroll this description while the Lunex cube remains geometrically stable."@
    } else if idx == 17 {
        "Consumable/resource placeholder."@
    } else if idx == 18 {
        "Quest/key item. It is visible but has no direct action on the Items page."@
    } else if idx == 19 {
        "Quest/key item. The mock host exposes it as display-only."@
    } else if idx == 20 {
        "Unowned key-item placeholder."@
    } else if idx == 21 {
        "Quest/key item. This would unlock a gate in the real game, but the inventory UI should not own that effect."@
    } else if idx == 22 {
        "Body-slot inspection mode in this mock."@
    } else {
        "Reserved for a future item."@
    }
}

pub open spec fn mock_item_kind(idx: int) -> ItemKind {
    if idx == 0 {
        ItemKind::Equippable(EquipSlot::HeldItem)
    } else if idx == 1 {
        ItemKind::Equippable(EquipSlot::HeldItem)
    } else if idx == 2 {
        ItemKind::Equippable(EquipSlot::HeldItem)
    } else if idx == 3 {
        ItemKind::Equippable(EquipSlot::HeldItem)
    } else if idx == 4 {
        ItemKind::Equippable(EquipSlot::HeldItem)
    } else if idx == 5 {
        ItemKind::Equippable(EquipSlot::HeldItem)
    } else if idx == 6 {
        ItemKind::Equippable(EquipSlot::HeldItem)
    } else if idx == 7 {
        ItemKind::Equippable(EquipSlot::Body)
    } else if idx == 8 {
        ItemKind::Equippable(EquipSlot::HeldItem)
    } else if idx == 9 {
        ItemKind::Equippable(EquipSlot::Body)
    } else if idx == 10 {
        ItemKind::Equippable(EquipSlot::HeldItem)
    } else if idx == 11 {
        ItemKind::Equippable(EquipSlot::Body)
    } else if idx == 12 {
        ItemKind::Consumable
    } else if idx == 13 {
        ItemKind::Consumable
    } else if idx == 14 {
        ItemKind::Consumable
    } else if idx == 15 {
        ItemKind::Consumable
    } else if idx == 16 {
        ItemKind::Equippable(EquipSlot::HeldItem)
    } else if idx == 17 {
        ItemKind::Consumable
    } else if idx == 18 {
        ItemKind::KeyItem
    } else if idx == 19 {
        ItemKind::KeyItem
    } else if idx == 20 {
        ItemKind::KeyItem
    } else if idx == 21 {
        ItemKind::KeyItem
    } else if idx == 22 {
        ItemKind::Equippable(EquipSlot::Body)
    } else {
        ItemKind::Reserved
    }
}

pub open spec fn mock_item_start_count(idx: int) -> u32 {
    if idx == 0 {
        1u32
    } else if idx == 1 {
        1u32
    } else if idx == 2 {
        1u32
    } else if idx == 3 {
        1u32
    } else if idx == 4 {
        0u32
    } else if idx == 5 {
        1u32
    } else if idx == 6 {
        1u32
    } else if idx == 7 {
        1u32
    } else if idx == 8 {
        0u32
    } else if idx == 9 {
        1u32
    } else if idx == 10 {
        0u32
    } else if idx == 11 {
        1u32
    } else if idx == 12 {
        3u32
    } else if idx == 13 {
        2u32
    } else if idx == 14 {
        2u32
    } else if idx == 15 {
        1u32
    } else if idx == 16 {
        1u32
    } else if idx == 17 {
        2u32
    } else if idx == 18 {
        1u32
    } else if idx == 19 {
        1u32
    } else if idx == 20 {
        0u32
    } else if idx == 21 {
        1u32
    } else if idx == 22 {
        1u32
    } else {
        0u32
    }
}

pub fn mock_item(idx: usize) -> (item: MockItemSpec)
    requires
        idx < ITEM_COUNT,
    ensures
        item.spec_matches(idx as int),
{
    if idx == 0 {
        MockItemSpec {
            name: "Portal Gun",
            short: "Portal",
            glyph: "O",
            description: "Held-item traversal tool: opens linked portals in the real Ambition game. This mock treats it as a held item, so it conflicts with Axe, Javelin, Bomb, and other held tools.",
            kind: ItemKind::Equippable(EquipSlot::HeldItem),
            start_count: 1,
        }
    } else if idx == 1 {
        MockItemSpec {
            name: "Axe",
            short: "Axe",
            glyph: "A",
            description: "Held-item weapon: a heavy pirate axe. Equipping it replaces the current held item. Activating it again unequips it.",
            kind: ItemKind::Equippable(EquipSlot::HeldItem),
            start_count: 1,
        }
    } else if idx == 2 {
        MockItemSpec {
            name: "Javelin",
            short: "Javelin",
            glyph: "J",
            description: "Held-item weapon: a throwable spear. It occupies the same one-object held slot as the Axe and Portal Gun.",
            kind: ItemKind::Equippable(EquipSlot::HeldItem),
            start_count: 1,
        }
    } else if idx == 3 {
        MockItemSpec {
            name: "Gun-Sword",
            short: "GunSwrd",
            glyph: "G",
            description: "Held-item weapon: a laser sword with a gun on it that shoots swords. Mostly a stress-test for action labels and replacement messages.",
            kind: ItemKind::Equippable(EquipSlot::HeldItem),
            start_count: 1,
        }
    } else if idx == 4 {
        MockItemSpec {
            name: "Puppy-Slug Gun",
            short: "SlugGun",
            glyph: "S",
            description: "Unowned held-item placeholder. It should remain visible for layout stability but disabled for host-side activation.",
            kind: ItemKind::Equippable(EquipSlot::HeldItem),
            start_count: 0,
        }
    } else if idx == 5 {
        MockItemSpec {
            name: "Fireball",
            short: "Fire",
            glyph: "F",
            description: "Held spell verb. This may become an ability or spell resource in the real game, but the UI seam only needs to know that activating it requests a host action.",
            kind: ItemKind::Equippable(EquipSlot::HeldItem),
            start_count: 1,
        }
    } else if idx == 6 {
        MockItemSpec {
            name: "Blink",
            short: "Blink",
            glyph: "B",
            description: "Held traversal verb. In this mock it competes for the same held slot as weapons and tools.",
            kind: ItemKind::Equippable(EquipSlot::HeldItem),
            start_count: 1,
        }
    } else if idx == 7 {
        MockItemSpec {
            name: "Flight",
            short: "Fly",
            glyph: "Y",
            description: "Body-slot movement mode. It conflicts with Morph Ball, Bubble Shield, and Debug Lens.",
            kind: ItemKind::Equippable(EquipSlot::Body),
            start_count: 1,
        }
    } else if idx == 8 {
        MockItemSpec {
            name: "Grapple Hook",
            short: "Grapple",
            glyph: "R",
            description: "Unowned held traversal tool placeholder.",
            kind: ItemKind::Equippable(EquipSlot::HeldItem),
            start_count: 0,
        }
    } else if idx == 9 {
        MockItemSpec {
            name: "Morph Ball",
            short: "Morph",
            glyph: "M",
            description: "Body-slot suit/mode. It conflicts with Flight and other body modes.",
            kind: ItemKind::Equippable(EquipSlot::Body),
            start_count: 1,
        }
    } else if idx == 10 {
        MockItemSpec {
            name: "Mark / Recall",
            short: "Recall",
            glyph: "K",
            description: "Held travel/combat tool placeholder; visible but not owned in this mock.",
            kind: ItemKind::Equippable(EquipSlot::HeldItem),
            start_count: 0,
        }
    } else if idx == 11 {
        MockItemSpec {
            name: "Bubble Shield",
            short: "Bubble",
            glyph: "U",
            description: "Body-slot defensive mode. Equipping it replaces Flight, Morph Ball, or Debug Lens.",
            kind: ItemKind::Equippable(EquipSlot::Body),
            start_count: 1,
        }
    } else if idx == 12 {
        MockItemSpec {
            name: "Health Cell",
            short: "Health",
            glyph: "H",
            description: "Consumable: restores health in the real game. This mock decrements its count when activated.",
            kind: ItemKind::Consumable,
            start_count: 3,
        }
    } else if idx == 13 {
        MockItemSpec {
            name: "Mana Cell",
            short: "Mana",
            glyph: "N",
            description: "Consumable: restores mana in the real game. Counts are host-owned and the renderer only displays them.",
            kind: ItemKind::Consumable,
            start_count: 2,
        }
    } else if idx == 14 {
        MockItemSpec {
            name: "Spare Battery",
            short: "Battery",
            glyph: "T",
            description: "Consumable/resource placeholder used to demonstrate stack counts.",
            kind: ItemKind::Consumable,
            start_count: 2,
        }
    } else if idx == 15 {
        MockItemSpec {
            name: "Data Chip",
            short: "Chip",
            glyph: "D",
            description: "Consumable/resource placeholder. Activating it decrements count to zero.",
            kind: ItemKind::Consumable,
            start_count: 1,
        }
    } else if idx == 16 {
        MockItemSpec {
            name: "Bomb",
            short: "Bomb",
            glyph: "Q",
            description: "Held explosive tool. This intentionally long description stress-tests the selected-item detail viewport. In the real Ambition menu, a bomb might explain blast radius, fuse timing, inventory limits, environmental interactions, and safety warnings. The important UI rule is that this text can be long without causing icon buttons, cube faces, equipment panels, or page dimensions to resize. The host can page or scroll this description while the Lunex cube remains geometrically stable.",
            kind: ItemKind::Equippable(EquipSlot::HeldItem),
            start_count: 1,
        }
    } else if idx == 17 {
        MockItemSpec {
            name: "Gold Pouch",
            short: "Gold",
            glyph: "$",
            description: "Consumable/resource placeholder.",
            kind: ItemKind::Consumable,
            start_count: 2,
        }
    } else if idx == 18 {
        MockItemSpec {
            name: "Map Fragment",
            short: "Map",
            glyph: "P",
            description: "Quest/key item. It is visible but has no direct action on the Items page.",
            kind: ItemKind::KeyItem,
            start_count: 1,
        }
    } else if idx == 19 {
        MockItemSpec {
            name: "Sealed Note",
            short: "Note",
            glyph: "L",
            description: "Quest/key item. The mock host exposes it as display-only.",
            kind: ItemKind::KeyItem,
            start_count: 1,
        }
    } else if idx == 20 {
        MockItemSpec {
            name: "Field Survey",
            short: "Survey",
            glyph: "V",
            description: "Unowned key-item placeholder.",
            kind: ItemKind::KeyItem,
            start_count: 0,
        }
    } else if idx == 21 {
        MockItemSpec {
            name: "Gate Key",
            short: "Gate",
            glyph: "E",
            description: "Quest/key item. This would unlock a gate in the real game, but the inventory UI should not own that effect.",
            kind: ItemKind::KeyItem,
            start_count: 1,
        }
    } else if idx == 22 {
        MockItemSpec {
            name: "Debug Lens",
            short: "Lens",
            glyph: "I",
            description: "Body-slot inspection mode in this mock.",
            kind: ItemKind::Equippable(EquipSlot::Body),
            start_count: 1,
        }
    } else {
        MockItemSpec {
            name: "Reserved",
            short: "--",
            glyph: ".",
            description: "Reserved for a future item.",
            kind: ItemKind::Reserved,
            start_count: 0,
        }
    }
}

} // verus!
