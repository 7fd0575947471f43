# ambition_inventory_ui

State machines and content of three cube-shaped pause/inventory menus, written
in Verus so that every operation carries a checked contract.

- `src/menu.rs`: the renderer-neutral vocabulary shared by the menus (control
  kinds, shell phases and the queue of shell effects a host drains).
- `src/inventory*.rs`: the gear / pack / map / status menu (equipping gear,
  Iron Boots, consumables, the scrolling Status pane and its options).
- `src/mock_*.rs`: a mock inventory with two equipment slots, a 6x4 item grid,
  edge buttons that turn the cube and a scrollable description pane.
- `src/oot*.rs`: an Ocarina-style pause menu with C-button assignment, a save
  prompt and the equip animation's steps; `src/oot_gamepad.rs` decides what
  pad presses and held sticks do in each mode (locked, prompt, menu).
- `src/page_content.rs`, `src/mock_content.rs`, `src/oot_content.rs`: what
  each face shows, control by control (kind, label, detail, icon, selection,
  emphasis, action), in drawing order; faces away from the front carry no
  actions, and the Status pane offers only its visible rows.
- `src/showcase.rs`: the scripted README demo keys and the frame-capture run.
- `src/text.rs`, `src/wrap.rs`: decimal rendering and word wrapping.
- `src/*_laws.rs`: properties spanning several operations (round trips,
  invariants, what navigation leaves untouched) and what the faces offer
  (`content_laws.rs`).

Each menu state has a mathematical view (`InventoryView`, `MockView`,
`OotView`); every public operation is specified as a transition of that view
and keeps the view's well-formedness invariant.

`app/` is the Bevy host: key and wheel input, the floating-point animations
(shell openness, cube angle, save flip, equip flight) whose milestones it
reports back to the menus, pointer picking on the front face, the capture
host, and the page models a renderer draws, which attach a floating-point
rectangle to each control the library lists.
