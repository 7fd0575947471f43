//! Inventory menus for a rotating cube pause screen: the gear / pack / map /
//! status menu (`inventory*`), a mock host inventory with held and body
//! slots (`mock_*`), and an Ocarina-style pause menu with C-buttons and a
//! save prompt (`oot*`). Each menu's state has a mathematical view; every
//! operation is specified as a transition of that view and keeps its
//! invariant, and the `*_laws` modules prove properties spanning several
//! operations. The `*_content` modules list what each face shows, control by
//! control, in drawing order.

pub mod menu;
pub mod text;
pub mod inventory_data;
pub mod inventory;
pub mod inventory_laws;
pub mod mock_data;
pub mod wrap;
pub mod mock_inventory;
pub mod mock_laws;
pub mod oot_data;
pub mod oot;
pub mod oot_laws;
pub mod oot_gamepad;
pub mod showcase;
pub mod page_content;
pub mod oot_content;
pub mod mock_content;
pub mod content_laws;
