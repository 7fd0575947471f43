//! Renderer-independent menu vocabulary shared by hosts and renderers:
//! control kinds, shell lifecycle effects, touch/gesture policy, focus keys
//! and per-control visual state.

use vstd::prelude::*;

verus! {

/// Text alignment independent of the concrete renderer.
#[derive(Clone, Copy, Debug, PartialEq, Eq, Structural)]
pub enum MenuTextAlign {
    Left,
    Center,
    Right,
}

/// Broad semantic class for controls.
///
/// A renderer may style these differently, and a navigation policy may use this
/// to decide whether a control participates in focus, hover, or scroll.
#[derive(Clone, Copy, Debug, PartialEq, Eq, Structural)]
pub enum MenuControlKind {
    Tab,
    Slot,
    Item,
    Action,
    PopupAction,
    OptionToggle,
    OptionChoice,
    MapMarker,
    Scrollbar,
    PopupPanel,
    Decoration,
}

/// Host-facing lifecycle/effect hook. The menu queues these events; a game can
/// drain the queue to play sounds, pause gameplay, or muffle music.
#[derive(Clone, Copy, Debug, PartialEq, Eq, Structural)]
pub enum MenuShellEffect {
    Opening,
    Opened,
    Closing,
    Closed,
    PageChanged,
    Navigate,
    Activate,
    Cancel,
}

/// Queue of shell effects generated by the menu module, oldest first.
#[derive(Clone, Debug)]
pub struct MenuShellEffects {
    pub pending: Vec<MenuShellEffect>,
}

impl MenuShellEffects {
    /// An empty queue.
    pub fn new() -> (q: Self)
        ensures
            q.pending@ == Seq::<MenuShellEffect>::empty(),
    {
        MenuShellEffects { pending: Vec::new() }
    }

    /// Appends `effect` after everything already queued.
    pub fn push(&mut self, effect: MenuShellEffect)
        ensures
            final(self).pending@ == old(self).pending@.push(effect),
    {
        self.pending.push(effect);
    }

    /// Hands out every queued effect in the order it was pushed and leaves the
    /// queue empty.
    pub fn drain(&mut self) -> (drained: Vec<MenuShellEffect>)
        ensures
            drained@ == old(self).pending@,
            final(self).pending@ == Seq::<MenuShellEffect>::empty(),
    {
        let mut out: Vec<MenuShellEffect> = Vec::new();
        std::mem::swap(&mut out, &mut self.pending);
        out
    }
}

/// The effect that announces a shell entering `phase`.
pub open spec fn spec_phase_effect(phase: MenuShellPhase) -> MenuShellEffect {
    match phase {
        MenuShellPhase::Opening => MenuShellEffect::Opening,
        MenuShellPhase::Open => MenuShellEffect::Opened,
        MenuShellPhase::Closing => MenuShellEffect::Closing,
        MenuShellPhase::Closed => MenuShellEffect::Closed,
    }
}

/// The effect that announces a shell entering `phase`.
pub fn phase_effect(phase: MenuShellPhase) -> (e: MenuShellEffect)
    ensures
        e == spec_phase_effect(phase),
{
    match phase {
        MenuShellPhase::Opening => MenuShellEffect::Opening,
        MenuShellPhase::Open => MenuShellEffect::Opened,
        MenuShellPhase::Closing => MenuShellEffect::Closing,
        MenuShellPhase::Closed => MenuShellEffect::Closed,
    }
}

impl MenuShellEffects {
    /// Records that the shell is now in `phase`, having last been reported in
    /// `last`: a change of phase queues its effect, an unchanged phase queues
    /// nothing. Returns the phase to remember.
    pub fn note_phase(&mut self, last: Option<MenuShellPhase>, phase: MenuShellPhase) -> (now:
        Option<MenuShellPhase>)
        ensures
            now == Some(phase),
            final(self).pending@ == (if last == Some(phase) {
                old(self).pending@
            } else {
                old(self).pending@.push(spec_phase_effect(phase))
            }),
    {
        if last != Some(phase) {
            self.push(phase_effect(phase));
        }
        Some(phase)
    }
}

impl Default for MenuShellEffects {
    fn default() -> (q: Self)
        ensures
            q.pending@ == Seq::<MenuShellEffect>::empty(),
    {
        MenuShellEffects::new()
    }
}

/// Coarse lifecycle phase derived from a shell's openness and target state.
#[derive(Clone, Copy, Debug, PartialEq, Eq, Structural)]
pub enum MenuShellPhase {
    Closed,
    Opening,
    Open,
    Closing,
}

/// Configurable touch policy for game-friendly menus.
#[derive(Clone, Copy, Debug, PartialEq, Eq, Structural)]
pub enum TouchActivationPolicy {
    ActivateOnFirstTap,
    SelectThenTap,
}

/// Pointer/touch gesture affordances supported by the menu shell.
#[derive(Clone, Copy, Debug, PartialEq, Eq, Structural)]
pub struct MenuGesturePolicy {
    pub swipe_pages: bool,
    pub drag_off_cancels: bool,
    pub drag_scroll_panes: bool,
}

impl Default for MenuGesturePolicy {
    /// Every gesture is enabled by default.
    fn default() -> (p: Self)
        ensures
            p.swipe_pages,
            p.drag_off_cancels,
            p.drag_scroll_panes,
    {
        MenuGesturePolicy { swipe_pages: true, drag_off_cancels: true, drag_scroll_panes: true }
    }
}

/// Marker for host games that want a single import point for the menu.
#[derive(Clone, Copy, Debug, PartialEq, Eq, Structural)]
pub struct AmbitionInventoryUiPlugin;

/// High-level shell animation style. The OoT-inspired page fold is opt-in.
#[derive(Clone, Copy, Debug, PartialEq, Eq, Structural)]
pub enum MenuOpenCloseStyle {
    SmoothScale,
    OotPageFold,
}

impl Default for MenuOpenCloseStyle {
    fn default() -> (s: Self)
        ensures
            s == MenuOpenCloseStyle::SmoothScale,
    {
        MenuOpenCloseStyle::SmoothScale
    }
}

/// Marker for the root entity that owns a menu shell / menu room.
#[derive(Clone, Copy, Debug, PartialEq, Eq, Structural)]
pub struct AmbitionMenuRoot;

/// Attached to a rendered menu page/face.
#[derive(Clone, Debug)]
pub struct AmbitionMenuPage<PageId> {
    pub id: PageId,
    pub active: bool,
}

/// Stable navigation identity for focusable controls.
#[derive(Clone, Copy, Debug, PartialEq, Eq, Hash, Structural)]
pub struct MenuFocusKey {
    pub row: i32,
    pub col: i32,
    pub order: i32,
}

impl Default for MenuFocusKey {
    fn default() -> (k: Self)
        ensures
            k.row == 0 && k.col == 0 && k.order == 0,
    {
        MenuFocusKey { row: 0, col: 0, order: 0 }
    }
}

/// Semantic kind, action and focus identity carried by a rendered control.
#[derive(Clone, Debug)]
pub struct AmbitionMenuControl<Action> {
    pub kind: MenuControlKind,
    pub action: Option<Action>,
    pub focus: MenuFocusKey,
}

/// Runtime visual state for a control (hover, focus, touch, gamepad).
#[derive(Clone, Copy, Debug, PartialEq, Eq, Structural)]
pub struct MenuVisualState {
    pub hovered: bool,
    pub focused: bool,
    pub selected: bool,
    pub pressed: bool,
    pub disabled: bool,
}

impl Default for MenuVisualState {
    /// A control starts neither hovered, focused, selected, pressed nor disabled.
    fn default() -> (s: Self)
        ensures
            !s.hovered && !s.focused && !s.selected && !s.pressed && !s.disabled,
    {
        MenuVisualState {
            hovered: false,
            focused: false,
            selected: false,
            pressed: false,
            disabled: false,
        }
    }
}

/// Metadata for a scrollable viewport: which row is first on screen, how many
/// rows fit, and how many rows exist.
#[derive(Clone, Copy, Debug, PartialEq, Eq, Structural)]
pub struct MenuScrollPane {
    pub first_visible: usize,
    pub visible_rows: usize,
    pub total_rows: usize,
}

impl Default for MenuScrollPane {
    fn default() -> (p: Self)
        ensures
            p.first_visible == 0 && p.visible_rows == 0 && p.total_rows == 0,
    {
        MenuScrollPane { first_visible: 0, visible_rows: 0, total_rows: 0 }
    }
}

} // verus!
