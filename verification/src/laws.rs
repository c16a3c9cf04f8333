//! Laws of the click loop, stated once over the model-level step functions
//! and proved for every state and every input.

use vstd::prelude::*;
use crate::delay::{
    delay_from_text, digits_of, digits_val, is_digit_char, lemma_digits_of_only_digits,
    lemma_digits_val_nonneg,
};
use crate::state::{ClickMode, ScreenPos, StateModel};
use crate::tick::{
    capture_step, console_effect, fire_step, hotkey_step, tick_click, tick_model, ClickCommand,
    InputModel, UiModel,
};

verus! {

/// Whatever is typed into the delay field, the derived delay is the number
/// denoted by the text's digits alone: every surviving character is a digit,
/// an all-stripped or empty text gives a delay of zero, and a digit string
/// too large for the delay's width falls back to zero.
pub proof fn lemma_delay_well_formed(text: Seq<char>)
    ensures
        forall|i: int| 0 <= i < digits_of(text).len() ==> is_digit_char(#[trigger] digits_of(text)[i]),
        digits_of(text).len() == 0 ==> delay_from_text(text) == 0,
        digits_val(digits_of(text)) <= u64::MAX as int ==> delay_from_text(text) == digits_val(
            digits_of(text),
        ),
        digits_val(digits_of(text)) > u64::MAX as int ==> delay_from_text(text) == 0,
{
    lemma_digits_of_only_digits(text);
    lemma_digits_val_nonneg(digits_of(text));
}

/// The state after holding the hotkey down for `n` consecutive ticks.
pub open spec fn hold_hotkey(m: StateModel, n: nat) -> StateModel
    decreases n,
{
    if n == 0 {
        m
    } else {
        hotkey_step(hold_hotkey(m, (n - 1) as nat), true)
    }
}

/// Holding the bound key across any number of ticks toggles the timer
/// exactly once, at the first tick of the press.
pub proof fn lemma_hotkey_edge_triggered(m: StateModel, n: nat)
    requires
        !m.settings_open,
        !m.hotkey_was_down,
        n >= 1,
    ensures
        hold_hotkey(m, n).is_clicking == !m.is_clicking,
        hold_hotkey(m, n).hotkey_was_down,
        !hold_hotkey(m, n).settings_open,
    decreases n,
{
    if n == 1 {
        assert(hold_hotkey(m, 0) == m);
        assert(hold_hotkey(m, 1) == hotkey_step(m, true));
    } else {
        lemma_hotkey_edge_triggered(m, (n - 1) as nat);
    }
}

/// A full press-release cycle of the hotkey toggles the timer exactly once,
/// however long the key was held, and leaves the toggle rearmed.
pub proof fn lemma_hotkey_press_release_cycle(m: StateModel, n: nat)
    requires
        !m.settings_open,
        !m.hotkey_was_down,
        n >= 1,
    ensures
        hotkey_step(hold_hotkey(m, n), false).is_clicking == !m.is_clicking,
        !hotkey_step(hold_hotkey(m, n), false).hotkey_was_down,
{
    lemma_hotkey_edge_triggered(m, n);
}

/// The same edge-triggering, over whole ticks: two consecutive ticks with the
/// bound key held down, and no start, stop or settings control activated,
/// toggle the timer exactly once.
#[verifier::rlimit(60)]
pub proof fn lemma_hotkey_held_across_ticks(
    m: StateModel,
    inp1: InputModel,
    inp2: InputModel,
    ui1: UiModel,
    ui2: UiModel,
)
    requires
        !m.settings_open,
        !m.hotkey_was_down,
        !ui1.start_clicked,
        !ui1.stop_clicked,
        !ui1.settings_clicked,
        !ui2.start_clicked,
        !ui2.stop_clicked,
        !ui2.settings_clicked,
        inp1.keys_down.contains(m.hotkey_binding),
        inp2.keys_down.contains(m.hotkey_binding),
    ensures
        tick_model(m, inp1, ui1).is_clicking == !m.is_clicking,
        tick_model(tick_model(m, inp1, ui1), inp2, ui2).is_clicking == !m.is_clicking,
{
    let t1 = tick_model(m, inp1, ui1);
    assert(t1.is_clicking == !m.is_clicking);
    assert(t1.hotkey_was_down);
    assert(!t1.settings_open);
    assert(t1.hotkey_binding == m.hotkey_binding);
}

/// While the timer is armed and the delay has not yet elapsed, no click
/// fires and nothing changes; at the tick where the elapsed time first
/// reaches the delay, exactly one click fires and the timer resets to that
/// tick's time.
pub proof fn lemma_fire_exact_timing(m: StateModel, now_ms: u64)
    ensures
        !(m.is_clicking && now_ms - m.last_click >= m.delay_ms) ==> fire_step(m, now_ms) == (
            m,
            ClickCommand::NoClick,
        ),
        m.is_clicking && now_ms - m.last_click >= m.delay_ms ==> fire_step(m, now_ms).1
            != ClickCommand::NoClick && fire_step(m, now_ms).0 == (StateModel {
            last_click: now_ms,
            ..m
        }),
{
}

/// After a click fires, no further click fires until the delay has elapsed
/// again.
pub proof fn lemma_no_refire_before_delay(m: StateModel, now_ms: u64, later_ms: u64)
    requires
        m.is_clicking,
        now_ms - m.last_click >= m.delay_ms,
        now_ms <= later_ms,
        later_ms - now_ms < m.delay_ms,
    ensures
        fire_step(m, now_ms).1 != ClickCommand::NoClick,
        fire_step(fire_step(m, now_ms).0, later_ms).1 == ClickCommand::NoClick,
{
}

/// In `FollowCursor` mode the firing rule neither reads nor writes the
/// stored fixed position: the fired command is the same whatever position is
/// stored, and the position comes through unchanged.
pub proof fn lemma_follow_mode_ignores_fixed_position(m: StateModel, p: ScreenPos, now_ms: u64)
    requires
        m.click_mode == ClickMode::FollowCursor,
    ensures
        fire_step(m, now_ms).1 == fire_step((StateModel { fixed_position: p, ..m }), now_ms).1,
        fire_step(m, now_ms).0.fixed_position == m.fixed_position,
        fire_step((StateModel { fixed_position: p, ..m }), now_ms).0 == (StateModel {
            fixed_position: p,
            ..fire_step(m, now_ms).0
        }),
{
}

/// In `FixedPosition` mode every fired click is a move to the stored
/// coordinates followed by the click there.
pub proof fn lemma_fixed_mode_clicks_at_stored_position(m: StateModel, now_ms: u64)
    requires
        m.click_mode == ClickMode::FixedPosition,
        m.is_clicking,
        now_ms - m.last_click >= m.delay_ms,
    ensures
        fire_step(m, now_ms).1 == ClickCommand::MoveAndClick(m.fixed_position),
{
}

/// `ui` with every main-panel event removed.
pub open spec fn scrub_panel_events(ui: UiModel) -> UiModel {
    UiModel {
        delay_text: None,
        set_position_clicked: false,
        mode_choice: None,
        start_clicked: false,
        stop_clicked: false,
        toggle_console_clicked: false,
        settings_clicked: false,
        ..ui
    }
}

/// While the settings overlay is open the main panel is dead: a tick behaves
/// exactly as if no panel control had been touched, the hotkey cannot toggle
/// the timer, and no console change is requested.
#[verifier::rlimit(60)]
pub proof fn lemma_settings_overlay_is_modal(m: StateModel, inp: InputModel, ui: UiModel)
    requires
        m.settings_open,
    ensures
        tick_model(m, inp, ui) == tick_model(m, inp, scrub_panel_events(ui)),
        tick_click(m, inp, ui) == tick_click(m, inp, scrub_panel_events(ui)),
        tick_model(m, inp, ui).is_clicking == m.is_clicking,
        console_effect(m, ui) == None::<bool>,
{
}

/// While a position capture is pending, a primary-button press records the
/// exact cursor position and clears the pending flag; a second press
/// afterwards changes nothing.
pub proof fn lemma_position_capture_fires_once(
    m: StateModel,
    c1: ScreenPos,
    t1: u64,
    c2: ScreenPos,
    t2: u64,
)
    requires
        m.awaiting_position_capture,
    ensures
        capture_step(m, true, c1, t1) == (StateModel {
            awaiting_position_capture: false,
            fixed_position: c1,
            position_set_at: Some(t1),
            ..m
        }),
        capture_step(capture_step(m, true, c1, t1), true, c2, t2) == capture_step(m, true, c1, t1),
{
}

} // verus!
