use pi_constellation_mapper::controls::{FrameCommands, KeyInput, ViewToggles};

fn no_keys() -> KeyInput {
    KeyInput {
        fullscreen_key: false,
        horizon_key: false,
        reset_key: false,
        equal_key: false,
        keypad_add_key: false,
        minus_key: false,
        keypad_subtract_key: false,
    }
}

fn no_commands() -> FrameCommands {
    FrameCommands { set_fullscreen: None, reset_camera: false, zoom_in: false, zoom_out: false }
}

#[test]
fn start_up_state_shows_horizon_windowed() {
    let s = ViewToggles::new();
    assert!(s.show_horizon);
    assert!(!s.fullscreen);
}

#[test]
fn idle_frame_changes_nothing() {
    let mut s = ViewToggles::new();
    let cmds = s.handle_keys(no_keys());
    assert_eq!(s, ViewToggles::new());
    assert_eq!(cmds, no_commands());
}

#[test]
fn f_key_toggles_fullscreen_and_tells_window() {
    let mut s = ViewToggles::new();
    let keys = KeyInput { fullscreen_key: true, ..no_keys() };
    let cmds = s.handle_keys(keys);
    assert!(s.fullscreen);
    assert!(s.show_horizon);
    assert_eq!(cmds.set_fullscreen, Some(true));
    let cmds = s.handle_keys(keys);
    assert!(!s.fullscreen);
    assert_eq!(cmds.set_fullscreen, Some(false));
}

#[test]
fn h_key_toggles_horizon_only() {
    let mut s = ViewToggles::new();
    let cmds = s.handle_keys(KeyInput { horizon_key: true, ..no_keys() });
    assert!(!s.show_horizon);
    assert!(!s.fullscreen);
    assert_eq!(cmds, no_commands());
}

#[test]
fn same_keys_twice_restore_view() {
    let start = ViewToggles { show_horizon: false, fullscreen: true };
    let mut s = start;
    let keys = KeyInput { fullscreen_key: true, horizon_key: true, reset_key: true, ..no_keys() };
    s.handle_keys(keys);
    assert_eq!(s, ViewToggles { show_horizon: true, fullscreen: false });
    s.handle_keys(keys);
    assert_eq!(s, start);
}

#[test]
fn reset_key_resets_camera() {
    let mut s = ViewToggles::new();
    let cmds = s.handle_keys(KeyInput { reset_key: true, ..no_keys() });
    assert_eq!(cmds, FrameCommands { reset_camera: true, ..no_commands() });
}

#[test]
fn either_plus_key_zooms_in() {
    let mut s = ViewToggles::new();
    let a = s.handle_keys(KeyInput { equal_key: true, ..no_keys() });
    let b = s.handle_keys(KeyInput { keypad_add_key: true, ..no_keys() });
    assert_eq!(a, FrameCommands { zoom_in: true, ..no_commands() });
    assert_eq!(b, a);
}

#[test]
fn either_minus_key_zooms_out() {
    let mut s = ViewToggles::new();
    let a = s.handle_keys(KeyInput { minus_key: true, ..no_keys() });
    let b = s.handle_keys(KeyInput { keypad_subtract_key: true, ..no_keys() });
    assert_eq!(a, FrameCommands { zoom_out: true, ..no_commands() });
    assert_eq!(b, a);
}

#[test]
fn all_keys_in_one_frame() {
    let mut s = ViewToggles::new();
    let keys = KeyInput {
        fullscreen_key: true,
        horizon_key: true,
        reset_key: true,
        equal_key: true,
        keypad_add_key: true,
        minus_key: true,
        keypad_subtract_key: true,
    };
    let cmds = s.handle_keys(keys);
    assert_eq!(s, ViewToggles { show_horizon: false, fullscreen: true });
    assert_eq!(
        cmds,
        FrameCommands { set_fullscreen: Some(true), reset_camera: true, zoom_in: true, zoom_out: true }
    );
}
