//! The application state record and its mathematical model.
//!
//! One mutable record drives the whole program: whether the click timer is
//! armed, when it last fired, the configured delay, where clicks land, the
//! position-capture and hotkey-rebinding sub-states, and the settings
//! overlay.  The host owns exactly one such record and hands it to the tick
//! functions once per rendered frame.

use vstd::prelude::*;
use crate::delay::{delay_of_digits, is_digit_char};

verus! {

/// Where injected clicks land: at the live cursor, or at a previously
/// recorded screen position.
#[derive(Clone, Copy, PartialEq, Eq, Structural, Debug)]
pub enum ClickMode {
    FollowCursor,
    FixedPosition,
}

/// An absolute screen coordinate.
#[derive(Clone, Copy, PartialEq, Eq, Structural, Debug)]
pub struct ScreenPos {
    pub x: i32,
    pub y: i32,
}

/// How long the "position set" confirmation stays visible, in milliseconds.
pub const POSITION_CONFIRMATION_MS: u64 = 1500;

/// The mutable application state.  All times are milliseconds on the host's
/// monotonic clock.
pub struct AppState {
    /// Whether the click timer is armed.
    pub is_clicking: bool,
    /// When the last click fired, or when the timer was armed.
    pub last_click: u64,
    /// The delay field's text, already reduced to its digits.
    pub delay_text: String,
    /// The minimum interval between clicks, derived from `delay_text`.
    pub delay_ms: u64,
    /// Whether the host's console window is currently shown.
    pub console_visible: bool,
    /// Where clicks are injected.
    pub click_mode: ClickMode,
    /// The recorded target of `FixedPosition` clicks.
    pub fixed_position: ScreenPos,
    /// True between a "set position" request and the next primary-button
    /// press, which is consumed to record the cursor position.
    pub awaiting_position_capture: bool,
    /// Whether the extra debug controls are shown.
    pub debug_mode: bool,
    /// When a fixed position was last recorded, if ever.
    pub position_set_at: Option<u64>,
    /// The key code of the global start/stop hotkey.
    pub hotkey_binding: u16,
    /// Whether the modal settings overlay is open.
    pub settings_open: bool,
    /// True between a "set hotkey" request and the next observed key press,
    /// which becomes the new binding.
    pub rebinding_hotkey: bool,
    /// Whether the hotkey was already down at the previous tick; makes the
    /// toggle edge-triggered.
    pub hotkey_was_down: bool,
    /// Whether the host platform can capture a click outside the window.
    pub supports_position_capture: bool,
}

/// The mathematical image of [`AppState`]: the same fields, with the delay
/// text as a sequence of characters.
pub struct StateModel {
    pub is_clicking: bool,
    pub last_click: u64,
    pub delay_text: Seq<char>,
    pub delay_ms: u64,
    pub console_visible: bool,
    pub click_mode: ClickMode,
    pub fixed_position: ScreenPos,
    pub awaiting_position_capture: bool,
    pub debug_mode: bool,
    pub position_set_at: Option<u64>,
    pub hotkey_binding: u16,
    pub settings_open: bool,
    pub rebinding_hotkey: bool,
    pub hotkey_was_down: bool,
    pub supports_position_capture: bool,
}

impl View for AppState {
    type V = StateModel;

    open spec fn view(&self) -> StateModel {
        StateModel {
            is_clicking: self.is_clicking,
            last_click: self.last_click,
            delay_text: self.delay_text@,
            delay_ms: self.delay_ms,
            console_visible: self.console_visible,
            click_mode: self.click_mode,
            fixed_position: self.fixed_position,
            awaiting_position_capture: self.awaiting_position_capture,
            debug_mode: self.debug_mode,
            position_set_at: self.position_set_at,
            hotkey_binding: self.hotkey_binding,
            settings_open: self.settings_open,
            rebinding_hotkey: self.rebinding_hotkey,
            hotkey_was_down: self.hotkey_was_down,
            supports_position_capture: self.supports_position_capture,
        }
    }
}

impl StateModel {
    /// The state's internal invariant: the delay text holds only digits, the
    /// delay is the number those digits denote, and a capture can only be
    /// pending on a platform that supports it.
    pub open spec fn wf(self) -> bool {
        &&& forall|i: int|
            0 <= i < self.delay_text.len() ==> is_digit_char(#[trigger] self.delay_text[i])
        &&& self.delay_ms == delay_of_digits(self.delay_text)
        &&& (self.awaiting_position_capture ==> self.supports_position_capture)
    }
}

/// The state a fresh record starts from: timer disarmed, delay text "0"
/// meaning no delay, clicks following the cursor, no capture pending, no
/// overlay open.
pub open spec fn initial_state(now_ms: u64, hotkey_binding: u16, supports_position_capture: bool) -> StateModel {
    StateModel {
        is_clicking: false,
        last_click: now_ms,
        delay_text: seq!['0'],
        delay_ms: 0,
        console_visible: false,
        click_mode: ClickMode::FollowCursor,
        fixed_position: ScreenPos { x: 0, y: 0 },
        awaiting_position_capture: false,
        debug_mode: false,
        position_set_at: None,
        hotkey_binding: hotkey_binding,
        settings_open: false,
        rebinding_hotkey: false,
        hotkey_was_down: false,
        supports_position_capture: supports_position_capture,
    }
}

impl AppState {
    /// Builds the startup state.  The host supplies the current time, its
    /// encoding of the default hotkey, and whether it can capture clicks
    /// outside the window.
    pub fn new(now_ms: u64, hotkey_binding: u16, supports_position_capture: bool) -> (st: AppState)
        ensures
            st@ == initial_state(now_ms, hotkey_binding, supports_position_capture),
            st@.wf(),
    {
        let delay_text = String::from_str("0");
        proof {
            reveal_strlit("0");
            assert(delay_text@ =~= seq!['0']);
            assert(seq!['0'].drop_last() =~= Seq::<char>::empty());
            assert(is_digit_char('0'));
            reveal_with_fuel(crate::delay::digits_val, 2);
            assert(crate::delay::digits_val(seq!['0']) == 0);
            assert(delay_of_digits(seq!['0']) == 0);
        }
        AppState {
            is_clicking: false,
            last_click: now_ms,
            delay_text,
            delay_ms: 0,
            console_visible: false,
            click_mode: ClickMode::FollowCursor,
            fixed_position: ScreenPos { x: 0, y: 0 },
            awaiting_position_capture: false,
            debug_mode: false,
            position_set_at: None,
            hotkey_binding,
            settings_open: false,
            rebinding_hotkey: false,
            hotkey_was_down: false,
            supports_position_capture,
        }
    }
}

} // verus!
