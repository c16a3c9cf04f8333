//! Whole-tick scenarios: hotkey edge-triggering, the firing rule, the two
//! click modes, the settings overlay's modality and the position-capture
//! flow.

use autoclicker::state::{AppState, ClickMode, ScreenPos};
use autoclicker::tick::{tick, ClickCommand, TickInput, UiEvents};

const HOTKEY: u16 = 66;

fn no_ui() -> UiEvents {
    UiEvents {
        delay_text: None,
        set_position_clicked: false,
        mode_choice: None,
        start_clicked: false,
        stop_clicked: false,
        toggle_console_clicked: false,
        settings_clicked: false,
        set_hotkey_clicked: false,
        settings_dismissed: false,
        debug_key_pressed: false,
    }
}

fn idle_input(now_ms: u64) -> TickInput {
    TickInput {
        now_ms,
        keys_down: vec![],
        left_button_down: false,
        cursor: ScreenPos { x: 0, y: 0 },
    }
}

fn keys_input(now_ms: u64, keys: Vec<u16>) -> TickInput {
    TickInput { keys_down: keys, ..idle_input(now_ms) }
}

#[test]
fn fresh_state_defaults() {
    let st = AppState::new(40, HOTKEY, true);
    assert!(!st.is_clicking);
    assert_eq!(st.last_click, 40);
    assert_eq!(st.delay_text, "0");
    assert_eq!(st.delay_ms, 0);
    assert!(!st.console_visible);
    assert_eq!(st.click_mode, ClickMode::FollowCursor);
    assert_eq!(st.fixed_position, ScreenPos { x: 0, y: 0 });
    assert!(!st.awaiting_position_capture);
    assert!(!st.debug_mode);
    assert_eq!(st.position_set_at, None);
    assert_eq!(st.hotkey_binding, HOTKEY);
    assert!(!st.settings_open);
    assert!(!st.rebinding_hotkey);
    assert!(!st.hotkey_was_down);
}

#[test]
fn held_hotkey_toggles_exactly_once() {
    let mut st = AppState::new(0, HOTKEY, true);
    tick(&mut st, &keys_input(1, vec![HOTKEY]), &no_ui());
    assert!(st.is_clicking);
    tick(&mut st, &keys_input(2, vec![HOTKEY]), &no_ui());
    tick(&mut st, &keys_input(3, vec![HOTKEY]), &no_ui());
    assert!(st.is_clicking);
    tick(&mut st, &idle_input(4), &no_ui());
    assert!(st.is_clicking);
    assert!(!st.hotkey_was_down);
    tick(&mut st, &keys_input(5, vec![HOTKEY]), &no_ui());
    assert!(!st.is_clicking);
}

#[test]
fn hotkey_is_recognised_among_other_keys() {
    let mut st = AppState::new(0, HOTKEY, true);
    tick(&mut st, &keys_input(1, vec![3, 9, HOTKEY, 12]), &no_ui());
    assert!(st.is_clicking);
}

#[test]
fn no_click_fires_before_the_delay_and_one_fires_at_it() {
    let mut st = AppState::new(0, HOTKEY, true);
    let set_delay = UiEvents {
        delay_text: Some("100".to_string()),
        start_clicked: true,
        ..no_ui()
    };
    let fx = tick(&mut st, &idle_input(1000), &set_delay);
    assert_eq!(st.delay_ms, 100);
    assert!(st.is_clicking);
    assert_eq!(st.last_click, 1000);
    assert_eq!(fx.click, ClickCommand::NoClick);

    let fx = tick(&mut st, &idle_input(1050), &no_ui());
    assert_eq!(fx.click, ClickCommand::NoClick);
    assert_eq!(st.last_click, 1000);

    let fx = tick(&mut st, &idle_input(1100), &no_ui());
    assert_eq!(fx.click, ClickCommand::ClickAtCursor);
    assert_eq!(st.last_click, 1100);

    let fx = tick(&mut st, &idle_input(1150), &no_ui());
    assert_eq!(fx.click, ClickCommand::NoClick);

    let fx = tick(&mut st, &idle_input(1200), &no_ui());
    assert_eq!(fx.click, ClickCommand::ClickAtCursor);
    assert_eq!(st.last_click, 1200);
}

#[test]
fn zero_delay_fires_every_tick() {
    let mut st = AppState::new(0, HOTKEY, true);
    tick(&mut st, &keys_input(1, vec![HOTKEY]), &no_ui());
    assert!(st.is_clicking);
    let fx = tick(&mut st, &idle_input(2), &no_ui());
    assert_eq!(fx.click, ClickCommand::ClickAtCursor);
    let fx = tick(&mut st, &idle_input(3), &no_ui());
    assert_eq!(fx.click, ClickCommand::ClickAtCursor);
}

#[test]
fn capture_records_the_cursor_exactly_once() {
    let mut st = AppState::new(0, HOTKEY, true);
    let choose_fixed = UiEvents { mode_choice: Some(ClickMode::FixedPosition), ..no_ui() };
    tick(&mut st, &idle_input(1), &choose_fixed);
    assert_eq!(st.click_mode, ClickMode::FixedPosition);

    let ask = UiEvents { set_position_clicked: true, ..no_ui() };
    tick(&mut st, &idle_input(2), &ask);
    assert!(st.awaiting_position_capture);

    let press = TickInput {
        left_button_down: true,
        cursor: ScreenPos { x: 300, y: 400 },
        ..idle_input(3)
    };
    tick(&mut st, &press, &no_ui());
    assert!(!st.awaiting_position_capture);
    assert_eq!(st.fixed_position, ScreenPos { x: 300, y: 400 });
    assert_eq!(st.position_set_at, Some(3));

    let second_press = TickInput {
        left_button_down: true,
        cursor: ScreenPos { x: 9, y: 9 },
        ..idle_input(4)
    };
    tick(&mut st, &second_press, &no_ui());
    assert_eq!(st.fixed_position, ScreenPos { x: 300, y: 400 });
}

#[test]
fn fixed_mode_clicks_move_to_the_stored_position() {
    let mut st = AppState::new(0, HOTKEY, true);
    let choose_fixed = UiEvents { mode_choice: Some(ClickMode::FixedPosition), ..no_ui() };
    tick(&mut st, &idle_input(1), &choose_fixed);
    let ask = UiEvents { set_position_clicked: true, ..no_ui() };
    tick(&mut st, &idle_input(2), &ask);
    let press = TickInput {
        left_button_down: true,
        cursor: ScreenPos { x: 300, y: 400 },
        ..idle_input(3)
    };
    tick(&mut st, &press, &no_ui());

    let start = UiEvents { start_clicked: true, ..no_ui() };
    tick(&mut st, &idle_input(10), &start);
    let away = TickInput { cursor: ScreenPos { x: -5, y: 77 }, ..idle_input(11) };
    let fx = tick(&mut st, &away, &no_ui());
    assert_eq!(fx.click, ClickCommand::MoveAndClick(ScreenPos { x: 300, y: 400 }));
}

#[test]
fn set_position_needs_fixed_mode_and_platform_support() {
    let mut st = AppState::new(0, HOTKEY, true);
    let ask = UiEvents { set_position_clicked: true, ..no_ui() };
    tick(&mut st, &idle_input(1), &ask);
    assert!(!st.awaiting_position_capture);

    let mut unsupported = AppState::new(0, HOTKEY, false);
    let choose_fixed = UiEvents { mode_choice: Some(ClickMode::FixedPosition), ..no_ui() };
    tick(&mut unsupported, &idle_input(1), &choose_fixed);
    tick(&mut unsupported, &idle_input(2), &ask);
    assert!(!unsupported.awaiting_position_capture);
}

#[test]
fn confirmation_window_blocks_a_new_capture_request() {
    let mut st = AppState::new(0, HOTKEY, true);
    let choose_fixed = UiEvents { mode_choice: Some(ClickMode::FixedPosition), ..no_ui() };
    tick(&mut st, &idle_input(1), &choose_fixed);
    let ask = UiEvents { set_position_clicked: true, ..no_ui() };
    tick(&mut st, &idle_input(2), &ask);
    let press = TickInput {
        left_button_down: true,
        cursor: ScreenPos { x: 10, y: 20 },
        ..idle_input(100)
    };
    tick(&mut st, &press, &no_ui());
    assert_eq!(st.position_set_at, Some(100));

    tick(&mut st, &idle_input(200), &ask);
    assert!(!st.awaiting_position_capture);

    tick(&mut st, &idle_input(1700), &ask);
    assert!(st.awaiting_position_capture);
}

#[test]
fn settings_overlay_disables_panel_and_hotkey() {
    let mut st = AppState::new(0, HOTKEY, true);
    let open = UiEvents { settings_clicked: true, ..no_ui() };
    tick(&mut st, &idle_input(1), &open);
    assert!(st.settings_open);

    let try_start = UiEvents { start_clicked: true, ..no_ui() };
    let fx = tick(&mut st, &keys_input(2, vec![HOTKEY]), &try_start);
    assert!(!st.is_clicking);
    assert_eq!(fx.click, ClickCommand::NoClick);
    assert_eq!(fx.console, None);

    let close = UiEvents { settings_dismissed: true, ..no_ui() };
    tick(&mut st, &idle_input(3), &close);
    assert!(!st.settings_open);

    tick(&mut st, &idle_input(4), &try_start);
    assert!(st.is_clicking);
}

#[test]
fn hotkey_rebinds_through_the_settings_overlay() {
    let mut st = AppState::new(0, HOTKEY, true);
    let open = UiEvents { settings_clicked: true, ..no_ui() };
    tick(&mut st, &idle_input(1), &open);

    let rebind = UiEvents { set_hotkey_clicked: true, ..no_ui() };
    tick(&mut st, &idle_input(2), &rebind);
    assert!(st.rebinding_hotkey);
    assert_eq!(st.hotkey_binding, HOTKEY);

    tick(&mut st, &keys_input(3, vec![7]), &no_ui());
    assert!(!st.rebinding_hotkey);
    assert_eq!(st.hotkey_binding, 7);

    let close = UiEvents { settings_dismissed: true, ..no_ui() };
    tick(&mut st, &idle_input(4), &close);

    tick(&mut st, &idle_input(5), &no_ui());
    tick(&mut st, &keys_input(6, vec![7]), &no_ui());
    assert!(st.is_clicking);
}

#[test]
fn console_toggle_needs_debug_mode_and_reports_the_new_visibility() {
    let mut st = AppState::new(0, HOTKEY, true);
    let press_console = UiEvents { toggle_console_clicked: true, ..no_ui() };
    let fx = tick(&mut st, &idle_input(1), &press_console);
    assert_eq!(fx.console, None);
    assert!(!st.console_visible);

    let press_debug_key = UiEvents { debug_key_pressed: true, ..no_ui() };
    tick(&mut st, &idle_input(2), &press_debug_key);
    assert!(st.debug_mode);

    let fx = tick(&mut st, &idle_input(3), &press_console);
    assert_eq!(fx.console, Some(true));
    assert!(st.console_visible);

    let fx = tick(&mut st, &idle_input(4), &press_console);
    assert_eq!(fx.console, Some(false));
    assert!(!st.console_visible);
}

#[test]
fn start_arms_the_timer_from_its_own_tick() {
    let mut st = AppState::new(0, HOTKEY, true);
    let set_delay = UiEvents { delay_text: Some("50x".to_string()), ..no_ui() };
    tick(&mut st, &idle_input(1), &set_delay);
    assert_eq!(st.delay_ms, 50);
    assert_eq!(st.delay_text, "50");

    let start = UiEvents { start_clicked: true, ..no_ui() };
    let fx = tick(&mut st, &idle_input(500), &start);
    assert_eq!(st.last_click, 500);
    assert_eq!(fx.click, ClickCommand::NoClick);

    let fx = tick(&mut st, &idle_input(549), &no_ui());
    assert_eq!(fx.click, ClickCommand::NoClick);
    let fx = tick(&mut st, &idle_input(550), &no_ui());
    assert_eq!(fx.click, ClickCommand::ClickAtCursor);
}

#[test]
fn stop_control_disarms() {
    let mut st = AppState::new(0, HOTKEY, true);
    let start = UiEvents { start_clicked: true, ..no_ui() };
    tick(&mut st, &idle_input(1), &start);
    assert!(st.is_clicking);
    let stop = UiEvents { stop_clicked: true, ..no_ui() };
    let fx = tick(&mut st, &idle_input(2), &stop);
    assert!(!st.is_clicking);
    assert_eq!(fx.click, ClickCommand::NoClick);
}
