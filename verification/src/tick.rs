//! One frame of the click loop.
//!
//! Each rendered frame the host collects what the widgets reported
//! ([`UiEvents`]) and what the input devices show ([`TickInput`]), and calls
//! [`tick`].  The tick applies the panel events unless the settings overlay
//! is open, runs the edge-triggered hotkey toggle, the settings overlay's
//! rebinding flow, the timer's firing rule and the position-capture flow, and
//! returns what the host must do ([`TickEffects`]).  Every step is specified
//! by a model-level function of the same shape, so that laws about whole
//! ticks can be stated and proved once.

use vstd::prelude::*;
use crate::delay::{delay_from_text, digits_of, lemma_digits_of_only_digits};
use crate::state::{AppState, ClickMode, ScreenPos, StateModel, POSITION_CONFIRMATION_MS};

verus! {

/// What the input devices showed when this frame was polled.
pub struct TickInput {
    /// Milliseconds on the host's monotonic clock.
    pub now_ms: u64,
    /// The key codes currently held down, in the order the host reports them.
    pub keys_down: Vec<u16>,
    /// Whether the primary mouse button is down.
    pub left_button_down: bool,
    /// The absolute cursor position.
    pub cursor: ScreenPos,
}

/// The mathematical image of [`TickInput`].
pub struct InputModel {
    pub now_ms: u64,
    pub keys_down: Seq<u16>,
    pub left_button_down: bool,
    pub cursor: ScreenPos,
}

impl View for TickInput {
    type V = InputModel;

    open spec fn view(&self) -> InputModel {
        InputModel {
            now_ms: self.now_ms,
            keys_down: self.keys_down@,
            left_button_down: self.left_button_down,
            cursor: self.cursor,
        }
    }
}

/// What the widgets reported during this frame's render.
pub struct UiEvents {
    /// The delay field's new text, if it changed.
    pub delay_text: Option<String>,
    /// The "set position" control was activated.
    pub set_position_clicked: bool,
    /// A click-mode radio control was selected.
    pub mode_choice: Option<ClickMode>,
    /// The start control was activated.
    pub start_clicked: bool,
    /// The stop control was activated.
    pub stop_clicked: bool,
    /// The console-toggle control was activated.
    pub toggle_console_clicked: bool,
    /// The settings control in the title bar was activated.
    pub settings_clicked: bool,
    /// The "set hotkey" control in the settings overlay was activated.
    pub set_hotkey_clicked: bool,
    /// The settings overlay was closed.
    pub settings_dismissed: bool,
    /// The fixed debug function key went down this frame.
    pub debug_key_pressed: bool,
}

/// The mathematical image of [`UiEvents`].
pub struct UiModel {
    pub delay_text: Option<Seq<char>>,
    pub set_position_clicked: bool,
    pub mode_choice: Option<ClickMode>,
    pub start_clicked: bool,
    pub stop_clicked: bool,
    pub toggle_console_clicked: bool,
    pub settings_clicked: bool,
    pub set_hotkey_clicked: bool,
    pub settings_dismissed: bool,
    pub debug_key_pressed: bool,
}

impl View for UiEvents {
    type V = UiModel;

    open spec fn view(&self) -> UiModel {
        UiModel {
            delay_text: match self.delay_text {
                Some(t) => Some(t@),
                None => None,
            },
            set_position_clicked: self.set_position_clicked,
            mode_choice: self.mode_choice,
            start_clicked: self.start_clicked,
            stop_clicked: self.stop_clicked,
            toggle_console_clicked: self.toggle_console_clicked,
            settings_clicked: self.settings_clicked,
            set_hotkey_clicked: self.set_hotkey_clicked,
            settings_dismissed: self.settings_dismissed,
            debug_key_pressed: self.debug_key_pressed,
        }
    }
}

/// The click the host must inject this frame.  `MoveAndClick` means: move the
/// cursor to the given position first, then press and release the primary
/// button there.
#[derive(Clone, Copy, PartialEq, Eq, Structural, Debug)]
pub enum ClickCommand {
    NoClick,
    ClickAtCursor,
    MoveAndClick(ScreenPos),
}

/// Everything the host must do after a tick.
#[derive(Clone, Copy, PartialEq, Eq, Structural, Debug)]
pub struct TickEffects {
    /// The click to inject, if any.
    pub click: ClickCommand,
    /// `Some(v)`: set the console window's visibility to `v`.
    pub console: Option<bool>,
}

/// A tick's time never precedes a timestamp already stored in the state: the
/// host clock is monotonic.
pub open spec fn clock_after(m: StateModel, now_ms: u64) -> bool {
    &&& now_ms >= m.last_click
    &&& match m.position_set_at {
        Some(t) => now_ms >= t,
        None => true,
    }
}

/// New delay field text replaces the stored digits and the derived delay.
pub open spec fn delay_step(m: StateModel, text: Seq<char>) -> StateModel {
    StateModel { delay_text: digits_of(text), delay_ms: delay_from_text(text), ..m }
}

/// Whether the short "position set" confirmation is still showing; while it
/// is, the "set position" control is not clickable.
pub open spec fn confirmation_visible(m: StateModel, now_ms: u64) -> bool {
    match m.position_set_at {
        Some(t) => now_ms - t < POSITION_CONFIRMATION_MS,
        None => false,
    }
}

/// One frame of main-panel events, in the order the panel is laid out: delay
/// text, "set position", mode choice, start, stop, console toggle, settings.
/// While the settings overlay is open the whole panel is disabled and the
/// events are ignored.
pub open spec fn panel_step(m: StateModel, ui: UiModel, now_ms: u64) -> StateModel {
    if m.settings_open {
        m
    } else {
        let m1 = match ui.delay_text {
            Some(t) => delay_step(m, t),
            None => m,
        };
        let m2 = if ui.set_position_clicked && m1.click_mode == ClickMode::FixedPosition
            && m1.supports_position_capture && !confirmation_visible(m1, now_ms) {
            StateModel { awaiting_position_capture: true, ..m1 }
        } else {
            m1
        };
        let m3 = match ui.mode_choice {
            Some(mode) => StateModel { click_mode: mode, ..m2 },
            None => m2,
        };
        let m4 = if ui.start_clicked && !m3.is_clicking {
            StateModel { is_clicking: true, last_click: now_ms, ..m3 }
        } else {
            m3
        };
        let m5 = if ui.stop_clicked && m4.is_clicking {
            StateModel { is_clicking: false, ..m4 }
        } else {
            m4
        };
        let m6 = if ui.toggle_console_clicked && m5.debug_mode {
            StateModel { console_visible: !m5.console_visible, ..m5 }
        } else {
            m5
        };
        if ui.settings_clicked {
            StateModel { settings_open: true, ..m6 }
        } else {
            m6
        }
    }
}

/// The console-visibility change a frame's panel events ask of the host.
pub open spec fn console_effect(m: StateModel, ui: UiModel) -> Option<bool> {
    if !m.settings_open && ui.toggle_console_clicked && m.debug_mode {
        Some(!m.console_visible)
    } else {
        None
    }
}

/// The edge-triggered hotkey toggle.  A press flips the timer once; holding
/// the key does nothing further until it is seen released.  While the
/// settings overlay is open the check is suspended entirely.
pub open spec fn hotkey_step(m: StateModel, hotkey_down: bool) -> StateModel {
    if m.settings_open {
        m
    } else if hotkey_down {
        if !m.hotkey_was_down {
            StateModel { hotkey_was_down: true, is_clicking: !m.is_clicking, ..m }
        } else {
            m
        }
    } else {
        StateModel { hotkey_was_down: false, ..m }
    }
}

/// The first key the host reports as held down, if any.
pub open spec fn first_key_of(keys: Seq<u16>) -> Option<u16> {
    if keys.len() == 0 {
        None
    } else {
        Some(keys[0])
    }
}

/// One frame of the settings overlay: a "set hotkey" request enters the
/// rebinding sub-state, closing the overlay leaves the modal, and while
/// rebinding the first key observed down becomes the new binding.  Does
/// nothing when the overlay is closed.
pub open spec fn settings_step(
    m: StateModel,
    set_hotkey_clicked: bool,
    dismissed: bool,
    first_key: Option<u16>,
) -> StateModel {
    if !m.settings_open {
        m
    } else {
        let m1 = if set_hotkey_clicked && !m.rebinding_hotkey {
            StateModel { rebinding_hotkey: true, ..m }
        } else {
            m
        };
        let m2 = if dismissed {
            StateModel { settings_open: false, ..m1 }
        } else {
            m1
        };
        if m2.rebinding_hotkey {
            match first_key {
                Some(code) => StateModel { hotkey_binding: code, rebinding_hotkey: false, ..m2 },
                None => m2,
            }
        } else {
            m2
        }
    }
}

/// The firing rule: while the timer is armed and the delay has elapsed since
/// `last_click`, exactly one click fires and the timer resets to `now_ms`;
/// otherwise nothing happens.  The click goes to the live cursor in
/// `FollowCursor` mode and to the stored position in `FixedPosition` mode.
pub open spec fn fire_step(m: StateModel, now_ms: u64) -> (StateModel, ClickCommand) {
    if m.is_clicking && now_ms - m.last_click >= m.delay_ms {
        let cmd = if m.click_mode == ClickMode::FollowCursor {
            ClickCommand::ClickAtCursor
        } else {
            ClickCommand::MoveAndClick(m.fixed_position)
        };
        (StateModel { last_click: now_ms, ..m }, cmd)
    } else {
        (m, ClickCommand::NoClick)
    }
}

/// The position-capture flow: while a capture is pending, a primary-button
/// press records the exact cursor position, clears the pending flag and
/// starts the confirmation window.
pub open spec fn capture_step(
    m: StateModel,
    left_button_down: bool,
    cursor: ScreenPos,
    now_ms: u64,
) -> StateModel {
    if m.awaiting_position_capture && left_button_down {
        StateModel {
            awaiting_position_capture: false,
            fixed_position: cursor,
            position_set_at: Some(now_ms),
            ..m
        }
    } else {
        m
    }
}

/// The fixed debug function key flips the debug controls on or off.
pub open spec fn debug_step(m: StateModel, debug_key_pressed: bool) -> StateModel {
    if debug_key_pressed {
        StateModel { debug_mode: !m.debug_mode, ..m }
    } else {
        m
    }
}

/// A whole tick, at the model level: panel events, hotkey toggle, settings
/// overlay, firing rule, position capture, debug key — in that order.
pub open spec fn tick_model(m: StateModel, inp: InputModel, ui: UiModel) -> StateModel {
    let mp = panel_step(m, ui, inp.now_ms);
    let mh = hotkey_step(mp, inp.keys_down.contains(mp.hotkey_binding));
    let ms = settings_step(mh, ui.set_hotkey_clicked, ui.settings_dismissed, first_key_of(inp.keys_down));
    let mf = fire_step(ms, inp.now_ms).0;
    let mc = capture_step(mf, inp.left_button_down, inp.cursor, inp.now_ms);
    debug_step(mc, ui.debug_key_pressed)
}

/// The click a whole tick fires, at the model level.
pub open spec fn tick_click(m: StateModel, inp: InputModel, ui: UiModel) -> ClickCommand {
    let mp = panel_step(m, ui, inp.now_ms);
    let mh = hotkey_step(mp, inp.keys_down.contains(mp.hotkey_binding));
    let ms = settings_step(mh, ui.set_hotkey_clicked, ui.settings_dismissed, first_key_of(inp.keys_down));
    fire_step(ms, inp.now_ms).1
}

/// A tick leaves the state well formed.
#[verifier::rlimit(60)]
pub proof fn lemma_tick_preserves_wf(m: StateModel, inp: InputModel, ui: UiModel)
    requires
        m.wf(),
    ensures
        tick_model(m, inp, ui).wf(),
{
    if !m.settings_open {
        match ui.delay_text {
            Some(t) => lemma_digits_of_only_digits(t),
            None => (),
        }
    }
}

/// Whether the "position set" confirmation is still showing.
pub fn position_confirmation_visible(st: &AppState, now_ms: u64) -> (r: bool)
    requires
        clock_after(st@, now_ms),
    ensures
        r == confirmation_visible(st@, now_ms),
{
    match st.position_set_at {
        Some(t) => now_ms - t < POSITION_CONFIRMATION_MS,
        None => false,
    }
}

/// Replaces the delay field's text: the state keeps the digits and the delay
/// they denote.
pub fn apply_delay_text(st: &mut AppState, text: &str)
    ensures
        final(st)@ == delay_step(old(st)@, text@),
{
    let (digits, value) = crate::delay::derive_delay(text);
    st.delay_text = digits;
    st.delay_ms = value;
}

/// Flips the console flag; the returned value is the visibility the host
/// must now give the console window.
pub fn toggle_console(st: &mut AppState) -> (visible: bool)
    ensures
        final(st)@ == (StateModel { console_visible: !old(st)@.console_visible, ..old(st)@ }),
        visible == !old(st)@.console_visible,
{
    st.console_visible = !st.console_visible;
    st.console_visible
}

/// Applies one frame of main-panel events; returns the console-visibility
/// change the host must apply, if any.
#[verifier::rlimit(60)]
pub fn apply_panel_events(st: &mut AppState, ui: &UiEvents, now_ms: u64) -> (console: Option<bool>)
    requires
        clock_after(old(st)@, now_ms),
    ensures
        final(st)@ == panel_step(old(st)@, ui@, now_ms),
        console == console_effect(old(st)@, ui@),
{
    if st.settings_open {
        return None;
    }
    if let Some(text) = &ui.delay_text {
        apply_delay_text(st, text.as_str());
    }
    if ui.set_position_clicked && st.click_mode == ClickMode::FixedPosition
        && st.supports_position_capture && !position_confirmation_visible(st, now_ms) {
        st.awaiting_position_capture = true;
    }
    if let Some(mode) = ui.mode_choice {
        st.click_mode = mode;
    }
    if ui.start_clicked && !st.is_clicking {
        st.is_clicking = true;
        st.last_click = now_ms;
    }
    if ui.stop_clicked && st.is_clicking {
        st.is_clicking = false;
    }
    let mut console: Option<bool> = None;
    if ui.toggle_console_clicked && st.debug_mode {
        let visible = toggle_console(st);
        console = Some(visible);
    }
    if ui.settings_clicked {
        st.settings_open = true;
    }
    console
}

/// Whether `code` is among the keys the host reports as held down.
pub fn key_is_down(keys: &Vec<u16>, code: u16) -> (r: bool)
    ensures
        r == keys@.contains(code),
{
    let n = keys.len();
    let mut i: usize = 0;
    while i < n
        invariant
            i <= n,
            n == keys@.len(),
            forall|j: int| 0 <= j < i ==> keys@[j] != code,
        decreases n - i,
    {
        if keys[i] == code {
            return true;
        }
        i = i + 1;
    }
    false
}

/// The first key the host reports as held down, if any.
pub fn first_key(keys: &Vec<u16>) -> (r: Option<u16>)
    ensures
        r == first_key_of(keys@),
{
    if keys.len() == 0 {
        None
    } else {
        Some(keys[0])
    }
}

/// Applies the edge-triggered hotkey toggle for one tick.
pub fn apply_hotkey(st: &mut AppState, hotkey_down: bool)
    ensures
        final(st)@ == hotkey_step(old(st)@, hotkey_down),
{
    if st.settings_open {
        return;
    }
    if hotkey_down {
        if !st.hotkey_was_down {
            st.hotkey_was_down = true;
            st.is_clicking = !st.is_clicking;
        }
    } else {
        st.hotkey_was_down = false;
    }
}

/// Applies one frame of the settings overlay.
pub fn apply_settings(
    st: &mut AppState,
    set_hotkey_clicked: bool,
    dismissed: bool,
    first: Option<u16>,
)
    ensures
        final(st)@ == settings_step(old(st)@, set_hotkey_clicked, dismissed, first),
{
    if !st.settings_open {
        return;
    }
    if set_hotkey_clicked && !st.rebinding_hotkey {
        st.rebinding_hotkey = true;
    }
    if dismissed {
        st.settings_open = false;
    }
    if st.rebinding_hotkey {
        if let Some(code) = first {
            st.hotkey_binding = code;
            st.rebinding_hotkey = false;
        }
    }
}

/// Applies the firing rule for one tick and returns the click to inject.
pub fn apply_fire(st: &mut AppState, now_ms: u64) -> (cmd: ClickCommand)
    requires
        now_ms >= old(st)@.last_click,
    ensures
        final(st)@ == fire_step(old(st)@, now_ms).0,
        cmd == fire_step(old(st)@, now_ms).1,
{
    if st.is_clicking && now_ms - st.last_click >= st.delay_ms {
        let cmd = if st.click_mode == ClickMode::FollowCursor {
            ClickCommand::ClickAtCursor
        } else {
            ClickCommand::MoveAndClick(st.fixed_position)
        };
        st.last_click = now_ms;
        cmd
    } else {
        ClickCommand::NoClick
    }
}

/// Applies the position-capture flow for one tick.
pub fn apply_capture(st: &mut AppState, left_button_down: bool, cursor: ScreenPos, now_ms: u64)
    ensures
        final(st)@ == capture_step(old(st)@, left_button_down, cursor, now_ms),
{
    if st.awaiting_position_capture && left_button_down {
        st.awaiting_position_capture = false;
        st.fixed_position = cursor;
        st.position_set_at = Some(now_ms);
    }
}

/// Applies the debug key for one tick.
pub fn apply_debug_key(st: &mut AppState, debug_key_pressed: bool)
    ensures
        final(st)@ == debug_step(old(st)@, debug_key_pressed),
{
    if debug_key_pressed {
        st.debug_mode = !st.debug_mode;
    }
}

/// One whole frame tick: applies every step in order and returns what the
/// host must do.
#[verifier::rlimit(60)]
pub fn tick(st: &mut AppState, inp: &TickInput, ui: &UiEvents) -> (fx: TickEffects)
    requires
        old(st)@.wf(),
        clock_after(old(st)@, inp.now_ms),
    ensures
        final(st)@ == tick_model(old(st)@, inp@, ui@),
        final(st)@.wf(),
        fx.click == tick_click(old(st)@, inp@, ui@),
        fx.console == console_effect(old(st)@, ui@),
{
    let ghost mp = panel_step(old(st)@, ui@, inp.now_ms);
    let console = apply_panel_events(st, ui, inp.now_ms);
    let down = key_is_down(&inp.keys_down, st.hotkey_binding);
    let ghost mh = hotkey_step(mp, inp@.keys_down.contains(mp.hotkey_binding));
    apply_hotkey(st, down);
    proof {
        assert(st@ == mh);
    }
    let first = first_key(&inp.keys_down);
    let ghost ms = settings_step(mh, ui@.set_hotkey_clicked, ui@.settings_dismissed, first_key_of(
        inp@.keys_down,
    ));
    apply_settings(st, ui.set_hotkey_clicked, ui.settings_dismissed, first);
    proof {
        assert(st@ == ms);
        assert(inp.now_ms >= ms.last_click);
    }
    let cmd = apply_fire(st, inp.now_ms);
    apply_capture(st, inp.left_button_down, inp.cursor, inp.now_ms);
    apply_debug_key(st, ui.debug_key_pressed);
    proof {
        lemma_tick_preserves_wf(old(st)@, inp@, ui@);
        assert(st@ == tick_model(old(st)@, inp@, ui@));
        assert(cmd == tick_click(old(st)@, inp@, ui@));
    }
    TickEffects { click: cmd, console }
}

} // verus!
