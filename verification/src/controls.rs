//! Keyboard controls of the sky view, as a state machine from the keys
//! pressed in one frame to the next view state and the commands that the
//! frame loop must carry out.

use vstd::prelude::*;

verus! {

/// The view settings that the keyboard toggles.
#[derive(Clone, Copy, Debug, PartialEq, Eq)]
pub struct ViewToggles {
    /// Whether the horizon line and compass labels are drawn.
    pub show_horizon: bool,
    /// Whether the window is in fullscreen mode.
    pub fullscreen: bool,
}

/// The keys pressed during one frame.
#[derive(Clone, Copy, Debug, PartialEq, Eq)]
pub struct KeyInput {
    /// `F`: toggle fullscreen.
    pub fullscreen_key: bool,
    /// `H`: toggle the horizon.
    pub horizon_key: bool,
    /// `R`: reset the camera.
    pub reset_key: bool,
    /// `=`: zoom in.
    pub equal_key: bool,
    /// Keypad `+`: zoom in.
    pub keypad_add_key: bool,
    /// `-`: zoom out.
    pub minus_key: bool,
    /// Keypad `-`: zoom out.
    pub keypad_subtract_key: bool,
}

/// What the frame loop does with the camera and the window after the keys
/// of a frame were read. The camera commands are carried out in field
/// order: reset first, then zoom in, then zoom out.
#[derive(Clone, Copy, Debug, PartialEq, Eq)]
pub struct FrameCommands {
    /// `Some(f)`: switch the window's fullscreen mode to `f`.
    pub set_fullscreen: Option<bool>,
    /// Put the camera back to its start-up orientation and field of view.
    pub reset_camera: bool,
    /// Narrow the field of view by one zoom step.
    pub zoom_in: bool,
    /// Widen the field of view by one zoom step.
    pub zoom_out: bool,
}

/// The view settings after the keys of one frame: `F` flips fullscreen,
/// `H` flips the horizon, the other keys leave both alone.
pub open spec fn next_toggles(s: ViewToggles, keys: KeyInput) -> ViewToggles {
    ViewToggles {
        show_horizon: if keys.horizon_key { !s.show_horizon } else { s.show_horizon },
        fullscreen: if keys.fullscreen_key { !s.fullscreen } else { s.fullscreen },
    }
}

/// The commands owed for the keys of one frame pressed in state `s`.
pub open spec fn frame_commands(s: ViewToggles, keys: KeyInput) -> FrameCommands {
    FrameCommands {
        set_fullscreen: if keys.fullscreen_key { Some(!s.fullscreen) } else { None },
        reset_camera: keys.reset_key,
        zoom_in: keys.equal_key || keys.keypad_add_key,
        zoom_out: keys.minus_key || keys.keypad_subtract_key,
    }
}

/// No key pressed at all.
pub open spec fn no_keys(keys: KeyInput) -> bool {
    &&& !keys.fullscreen_key
    &&& !keys.horizon_key
    &&& !keys.reset_key
    &&& !keys.equal_key
    &&& !keys.keypad_add_key
    &&& !keys.minus_key
    &&& !keys.keypad_subtract_key
}

impl ViewToggles {
    /// The state at start-up: horizon shown, windowed.
    pub fn new() -> (s: ViewToggles)
        ensures
            s.show_horizon,
            !s.fullscreen,
    {
        ViewToggles { show_horizon: true, fullscreen: false }
    }

    /// Applies the keys of one frame: updates the toggles and returns the
    /// commands for the window and the camera.
    pub fn handle_keys(&mut self, keys: KeyInput) -> (cmds: FrameCommands)
        ensures
            *final(self) == next_toggles(*old(self), keys),
            cmds == frame_commands(*old(self), keys),
    {
        let mut set_fullscreen: Option<bool> = None;
        if keys.fullscreen_key {
            self.fullscreen = !self.fullscreen;
            set_fullscreen = Some(self.fullscreen);
        }
        if keys.horizon_key {
            self.show_horizon = !self.show_horizon;
        }
        FrameCommands {
            set_fullscreen,
            reset_camera: keys.reset_key,
            zoom_in: keys.equal_key || keys.keypad_add_key,
            zoom_out: keys.minus_key || keys.keypad_subtract_key,
        }
    }
}

/// Each key does its own job whatever else is pressed and whatever the view
/// state: `H` flips the horizon and nothing else does, `F` flips fullscreen
/// and nothing else does, the reset command comes exactly with `R`, zooming
/// in exactly with `=` or keypad `+`, zooming out exactly with `-` or
/// keypad `-`.
pub proof fn lemma_each_key_does_its_own_job(s: ViewToggles, keys: KeyInput)
    ensures
        next_toggles(s, keys).show_horizon == (s.show_horizon != keys.horizon_key),
        next_toggles(s, keys).fullscreen == (s.fullscreen != keys.fullscreen_key),
        frame_commands(s, keys).reset_camera == keys.reset_key,
        frame_commands(s, keys).zoom_in == (keys.equal_key || keys.keypad_add_key),
        frame_commands(s, keys).zoom_out == (keys.minus_key || keys.keypad_subtract_key),
{
}

/// Pressing the same keys in two frames in a row brings both view settings
/// back to where they were.
pub proof fn lemma_same_keys_twice_restore_view(s: ViewToggles, keys: KeyInput)
    ensures
        next_toggles(next_toggles(s, keys), keys) == s,
{
}

/// A frame in which no key is pressed changes no view setting and asks
/// nothing of the window or the camera.
pub proof fn lemma_idle_frame_changes_nothing(s: ViewToggles, keys: KeyInput)
    requires
        no_keys(keys),
    ensures
        next_toggles(s, keys) == s,
        frame_commands(s, keys) == (FrameCommands {
            set_fullscreen: None,
            reset_camera: false,
            zoom_in: false,
            zoom_out: false,
        }),
{
}

/// The window is told to change its fullscreen mode exactly in the frames
/// where `F` is pressed, and always to the mode that the view state then
/// records; `H` never touches the fullscreen mode and `F` never touches the
/// horizon.
pub proof fn lemma_fullscreen_command_matches_state(s: ViewToggles, keys: KeyInput)
    ensures
        frame_commands(s, keys).set_fullscreen is Some <==> keys.fullscreen_key,
        frame_commands(s, keys).set_fullscreen matches Some(f) ==> f == next_toggles(
            s,
            keys,
        ).fullscreen,
        !keys.fullscreen_key ==> next_toggles(s, keys).fullscreen == s.fullscreen,
        !keys.horizon_key ==> next_toggles(s, keys).show_horizon == s.show_horizon,
{
}

} // verus!
