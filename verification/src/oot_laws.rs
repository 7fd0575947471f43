//! Properties of the Ocarina-style pause menu that span several operations.

use vstd::prelude::*;
use crate::mock_data::PageTurn;
use crate::oot::{
    assign_unique, c_item_ok, choice_usable, families_distinct, item_usable, lemma_assign_unique,
    oot_action_valid, oot_default_action, oot_left_of, oot_right_of, returned_status, OotAction,
    OotView,
};
use crate::oot_gamepad::{
    after_nav_stick, after_pad_presses, after_pad_presses_after_moves, nav_stick_result,
    pad_moves, spec_pad_mode, PadMode, PadPresses,
};
use crate::oot_data::{
    c_button_index, oot_page_from_index, oot_page_index, spec_arrow_kind, CButton, OotPage,
};

verus! {

/// Turning the cube one way and then the other comes back to the same page,
/// and every turn shows another page.
pub proof fn law_oot_turns_undo(v: OotView)
    requires
        v.wf(),
    ensures
        oot_left_of(oot_right_of(v.page)) == v.page,
        oot_right_of(oot_left_of(v.page)) == v.page,
        v.after_turn_page(PageTurn::ViewerLeft).after_turn_page(PageTurn::ViewerRight).page
            == v.page,
        v.after_turn_page(PageTurn::ViewerRight).after_turn_page(PageTurn::ViewerLeft).page
            == v.page,
        v.after_turn_page(PageTurn::ViewerLeft).page != v.page,
        v.after_turn_page(PageTurn::ViewerRight).page != v.page,
{
    let i = oot_page_index(v.page);
    assert(oot_page_index(oot_page_from_index(i + 1)) == (i + 1) % 4);
    assert(oot_page_index(oot_page_from_index(i - 1)) == (i - 1) % 4);
}

/// Assigning an item the current Link may use to a C-button puts it on
/// that button at once, and the three buttons still show three different
/// families (the bow and its arrows being one family).
pub proof fn law_c_assignment_is_unique(v: OotView, item: usize, button: CButton)
    requires
        v.wf(),
        c_item_ok(item),
    ensures
        v.after_start_c_equip(item, button).c_values()[c_button_index(button)] == item,
        families_distinct(v.after_start_c_equip(item, button).c_values()),
        v.after_start_c_equip(item, button).wf(),
        v.after_finish_c_equip(item, button).c_values()[c_button_index(button)] == item,
        families_distinct(v.after_finish_c_equip(item, button).c_values()),
{
    let b = c_button_index(button);
    lemma_assign_unique(v.c_values(), item, b);
    let r = assign_unique(v.c_values(), item, b);
    assert(v.after_preview_unique(item, b).c_values() =~= r);
}

/// An assignment completes once its animation has played: after one phase
/// for an ordinary item, after three for a magic arrow (glow into the bow,
/// hold, fly to the button), the intermediate phases leaving it pending.
/// The item then sits on its button and the families stay distinct.
pub proof fn law_equip_animation_completes(v: OotView, item: usize, button: CButton)
    requires
        v.wf(),
        c_item_ok(item),
    ensures
        ({
            let s = v.after_start_c_equip(item, button);
            let done = if spec_arrow_kind(item) is Some {
                s.after_equip_phase_done().after_equip_phase_done().after_equip_phase_done()
            } else {
                s.after_equip_phase_done()
            };
            &&& done.equip_anim is None
            &&& done.c_values()[c_button_index(button)] == item
            &&& families_distinct(done.c_values())
        }),
        spec_arrow_kind(item) is Some ==> v.after_start_c_equip(
            item,
            button,
        ).after_equip_phase_done().equip_anim is Some,
        spec_arrow_kind(item) is Some ==> v.after_start_c_equip(
            item,
            button,
        ).after_equip_phase_done().after_equip_phase_done().equip_anim is Some,
{
    let b = c_button_index(button);
    let s = v.after_start_c_equip(item, button);
    lemma_assign_unique(v.c_values(), item, b);
    assert(v.after_preview_unique(item, b).c_values() =~= assign_unique(v.c_values(), item, b));
    assert(s.wf());
    let last = if spec_arrow_kind(item) is Some {
        s.after_equip_phase_done().after_equip_phase_done()
    } else {
        s
    };
    assert(last.wf());
    lemma_assign_unique(last.c_values(), item, b);
    assert(last.after_preview_unique(item, b).c_values() =~= assign_unique(
        last.c_values(),
        item,
        b,
    ));
}

/// From the pause page, opening the save prompt and choosing No closes it
/// without touching equipment or C-buttons; once the flip is back at rest
/// the cursor is where it was (or on the page's default control).
pub proof fn law_save_prompt_cancel_returns(v: OotView)
    requires
        v.wf(),
        !v.save_prompt_open,
        !v.save_flip_past_half,
    ensures
        v.after_open_save_prompt().save_prompt_open,
        v.after_open_save_prompt().selected == OotAction::SaveYes,
        !v.after_open_save_prompt().after_click(OotAction::SaveNo).save_prompt_open,
        v.after_open_save_prompt().after_click(OotAction::SaveNo).status
            == "Save cancelled. Returning to the pause menu."@,
        v.after_open_save_prompt().after_click(OotAction::SaveNo).c_values() == v.c_values(),
        v.after_open_save_prompt().after_click(OotAction::SaveNo).equipped_sword
            == v.equipped_sword,
        v.after_open_save_prompt().after_click(OotAction::SaveNo).after_save_flip_moved(
            false,
            true,
        ).selected == v.focusable_or_default(v.selected),
        v.after_open_save_prompt().after_click(OotAction::SaveNo).after_save_flip_moved(
            false,
            true,
        ).page == v.page,
{
    let w = v.after_open_save_prompt().after_click(OotAction::SaveNo);
    assert(w.c_values() =~= v.c_values());
    assert(v.is_focusable(oot_default_action(v.page)));
}

/// Confirming the save keeps the prompt up with the acknowledgement; any
/// further choice returns to the pause menu, and at rest the finished save
/// is forgotten.
pub proof fn law_save_confirm_then_return(v: OotView)
    requires
        v.wf(),
        !v.save_prompt_open,
        !v.save_flip_past_half,
    ensures
        v.after_open_save_prompt().after_click(OotAction::SaveYes).save_prompt_open,
        v.after_open_save_prompt().after_click(OotAction::SaveYes).save_complete,
        !v.after_open_save_prompt().after_click(OotAction::SaveYes).after_click(
            OotAction::SaveYes,
        ).save_prompt_open,
        v.after_open_save_prompt().after_click(OotAction::SaveYes).after_click(
            OotAction::SaveYes,
        ).status == returned_status(),
        !v.after_open_save_prompt().after_click(OotAction::SaveYes).after_click(
            OotAction::SaveYes,
        ).after_save_flip_moved(false, true).save_complete,
{
}

/// A child-only option is never equipped and a child-only item never
/// reaches a C-button: choosing or assigning one only reports.
pub proof fn law_child_only_not_equipped(v: OotView, slot: usize, choice: usize, item: usize, b: CButton)
    requires
        v.wf(),
        oot_action_valid(OotAction::EquipChoice { slot, choice }),
        !choice_usable(slot as int, choice as int),
        !item_usable(item as int),
    ensures
        v.after_click(OotAction::EquipChoice { slot, choice }).equipped(slot as int) == v.equipped(
            slot as int,
        ),
        v.after_click(OotAction::EquipChoice { slot, choice }).c_values() == v.c_values(),
        v.after_start_c_equip(item, b).c_values() == v.c_values(),
        v.after_start_c_equip(item, b).equip_anim == v.equip_anim,
{
    assert(v.after_click(OotAction::EquipChoice { slot, choice }).c_values() =~= v.c_values());
    assert(v.after_start_c_equip(item, b).c_values() =~= v.c_values());
}

/// The C, B and Start indicators never take the cursor: pointing at them
/// only describes them.
pub proof fn law_hud_indicators_not_focusable(v: OotView, b: CButton)
    requires
        v.wf(),
    ensures
        v.after_hover(OotAction::AssignC(b)).selected == v.selected,
        v.after_hover(OotAction::Save).selected == v.selected,
{
}

/// Once the prompt is closed and the flip has come back past its midpoint,
/// the pause page takes input again at once, and the cursor is off the
/// prompt's buttons.
pub proof fn law_closed_flip_past_midpoint_unlocks(v: OotView, at_rest_closed: bool)
    requires
        v.wf(),
        !v.save_prompt_open,
    ensures
        !v.after_save_flip_moved(false, at_rest_closed).save_modal_active(),
        v.after_save_flip_moved(false, at_rest_closed).selected != OotAction::SaveYes,
        v.after_save_flip_moved(false, at_rest_closed).selected != OotAction::SaveNo,
{
    let w = v.after_save_flip_moved(false, at_rest_closed);
    assert(w.is_focusable(oot_default_action(w.page)));
}

/// Pointing at controls and turning pages never changes equipment, the
/// C-buttons or the save prompt.
pub proof fn law_oot_navigation_keeps_loadout(v: OotView, a: OotAction, dir: PageTurn, page: OotPage)
    requires
        v.wf(),
    ensures
        v.after_hover(a).c_values() == v.c_values(),
        v.after_hover(a).equipped_sword == v.equipped_sword,
        v.after_hover(a).equipped_boots == v.equipped_boots,
        v.after_hover(a).save_prompt_open == v.save_prompt_open,
        v.after_turn_page(dir).c_values() == v.c_values(),
        v.after_turn_page(dir).equipped_shield == v.equipped_shield,
        v.after_turn_page(dir).equipped_tunic == v.equipped_tunic,
        v.after_goto_page(page).c_values() == v.c_values(),
{
    assert(v.after_hover(a).c_values() =~= v.c_values());
    assert(v.after_turn_page(dir).c_values() =~= v.c_values());
    assert(v.after_goto_page(page).c_values() =~= v.c_values());
}

/// While the shell is not fully open the pad does nothing: no press, stick
/// or move changes the menu, and both sticks are forgotten.
pub proof fn law_pad_locked_while_shell_moves(
    v: OotView,
    pad: PadPresses,
    dir: Option<(i32, i32)>,
    last: Option<(i32, i32)>,
)
    ensures
        spec_pad_mode(v, false) == PadMode::Locked,
        after_pad_presses(v, spec_pad_mode(v, false), pad) == v,
        after_pad_presses_after_moves(v, spec_pad_mode(v, false), pad) == v,
        pad_moves(spec_pad_mode(v, false), pad).len() == 0,
        after_nav_stick(v, spec_pad_mode(v, false), dir, last) == v,
        nav_stick_result(spec_pad_mode(v, false), dir, last) == (None::<(i32, i32)>, None::<(i32, i32)>),
{
}

/// A held stick acts once: after one frame has remembered its direction,
/// holding it there asks for no further move and changes nothing.
pub proof fn law_held_stick_acts_once(
    v: OotView,
    mode: PadMode,
    dir: Option<(i32, i32)>,
    last: Option<(i32, i32)>,
)
    ensures
        ({
            let remembered = nav_stick_result(mode, dir, last).1;
            let w = after_nav_stick(v, mode, dir, last);
            &&& nav_stick_result(mode, dir, remembered).0 is None
            &&& after_nav_stick(w, mode, dir, remembered) == w
        }),
{
}

/// While the save prompt is up (saved, asking, or folding away) no press
/// asks the host for a spatial move, so the cursor cannot leave the prompt.
pub proof fn law_prompt_keeps_pad_on_prompt(v: OotView, pad: PadPresses)
    requires
        v.save_modal_active(),
    ensures
        pad_moves(spec_pad_mode(v, true), pad).len() == 0,
{
}

/// On the equipment page a click on an option that the current Link can use
/// wears it in its own slot and leaves the other three slots as they were;
/// an option he cannot use changes no slot.
pub proof fn law_equipment_click_equips_in_own_slot(v: OotView, slot: usize, choice: usize)
    requires
        v.page == OotPage::Equipment,
        slot < 4,
        choice < 3,
    ensures
        ({
            let w = v.after_click(OotAction::EquipChoice { slot, choice });
            &&& choice_usable(slot as int, choice as int) ==> w.equipped(slot as int) == choice
            &&& forall|s: int|
                0 <= s < 4 && (s != slot || !choice_usable(slot as int, choice as int))
                    ==> #[trigger] w.equipped(s) == v.equipped(s)
            &&& w.page == v.page
            &&& w.c_values() == v.c_values()
        }),
{
}

/// In the menu the left trigger turns the cube to the viewer's left (the
/// next page in ring order) and the right trigger to the viewer's right (the
/// previous page); both at once come back to the page one started on.
pub proof fn law_triggers_turn_opposite_ways(v: OotView, pad: PadPresses)
    ensures
        ({
            let w = after_pad_presses(v, PadMode::Menu, pad);
            &&& pad.left_trigger && !pad.right_trigger ==> oot_page_index(w.page) == (
            oot_page_index(v.page) + 1) % 4
            &&& !pad.left_trigger && pad.right_trigger ==> oot_page_index(w.page) == (
            oot_page_index(v.page) + 3) % 4
            &&& pad.left_trigger == pad.right_trigger ==> w.page == v.page
        }),
{
}

} // verus!
