use ambition_inventory_ui::menu::{
    phase_effect, MenuShellPhase,
    MenuFocusKey, MenuGesturePolicy, MenuOpenCloseStyle, MenuScrollPane, MenuShellEffect,
    MenuShellEffects, MenuVisualState,
};
use ambition_inventory_ui::text::decimal_string;
use ambition_inventory_ui::wrap::{is_whitespace, wrap_text};

#[test]
fn decimal_strings() {
    assert_eq!(decimal_string(0), "0");
    assert_eq!(decimal_string(7), "7");
    assert_eq!(decimal_string(1234567890), "1234567890");
    assert_eq!(decimal_string(u64::MAX), "18446744073709551615");
}

#[test]
fn wrap_packs_words_up_to_the_width() {
    assert_eq!(wrap_text("alpha beta gamma", 10), vec!["alpha beta", "gamma"]);
    assert_eq!(wrap_text("alpha beta gamma", 16), vec!["alpha beta gamma"]);
    assert_eq!(wrap_text("  lead  spaces ", 20), vec!["lead spaces"]);
}

#[test]
fn wrap_keeps_paragraphs_and_blank_lines() {
    assert_eq!(wrap_text("a\n\nb", 5), vec!["a", "", "b"]);
    assert_eq!(wrap_text("", 5), vec![""]);
    assert_eq!(wrap_text("trailing\n", 5), vec!["trailing", ""]);
    assert_eq!(wrap_text("x\n   \ny", 5), vec!["x", "", "y"]);
}

#[test]
fn wrap_gives_long_words_their_own_line() {
    assert_eq!(wrap_text("supercalifragilistic x", 5), vec!["supercalifragilistic", "x"]);
    assert_eq!(wrap_text("ab cd", 0), vec!["ab", "cd"]);
}

#[test]
fn wrap_counts_bytes() {
    assert_eq!(wrap_text("héllo wörld", 12), vec!["héllo", "wörld"]);
    assert_eq!(wrap_text("héllo wörld", 13), vec!["héllo wörld"]);
    assert_eq!(wrap_text("hello world", 11), vec!["hello world"]);
}

#[test]
fn whitespace_classes() {
    assert!(is_whitespace(' '));
    assert!(is_whitespace('\t'));
    assert!(is_whitespace('\u{3000}'));
    assert!(!is_whitespace('x'));
    assert_eq!(wrap_text("a\u{3000}b", 10), vec!["a b"]);
}

#[test]
fn shell_effects_drain_in_order() {
    let mut q = MenuShellEffects::new();
    q.push(MenuShellEffect::Opening);
    q.push(MenuShellEffect::Opened);
    q.push(MenuShellEffect::PageChanged);
    assert_eq!(
        q.drain(),
        vec![MenuShellEffect::Opening, MenuShellEffect::Opened, MenuShellEffect::PageChanged]
    );
    assert!(q.pending.is_empty());
    assert!(q.drain().is_empty());
    let d = MenuShellEffects::default();
    assert!(d.pending.is_empty());
}

#[test]
fn menu_defaults() {
    let g = MenuGesturePolicy::default();
    assert!(g.swipe_pages && g.drag_off_cancels && g.drag_scroll_panes);
    assert_eq!(MenuOpenCloseStyle::default(), MenuOpenCloseStyle::SmoothScale);
    let f = MenuFocusKey::default();
    assert_eq!((f.row, f.col, f.order), (0, 0, 0));
    let v = MenuVisualState::default();
    assert!(!v.hovered && !v.focused && !v.selected && !v.pressed && !v.disabled);
    let p = MenuScrollPane::default();
    assert_eq!((p.first_visible, p.visible_rows, p.total_rows), (0, 0, 0));
}

#[test]
fn shell_phase_changes_queue_one_effect() {
    assert_eq!(phase_effect(MenuShellPhase::Open), MenuShellEffect::Opened);
    let mut q = MenuShellEffects::new();
    let last = q.note_phase(None, MenuShellPhase::Opening);
    let last = q.note_phase(last, MenuShellPhase::Opening);
    let last = q.note_phase(last, MenuShellPhase::Open);
    assert_eq!(last, Some(MenuShellPhase::Open));
    assert_eq!(q.drain(), vec![MenuShellEffect::Opening, MenuShellEffect::Opened]);
}
