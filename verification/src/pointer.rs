//! Pointer gestures of the sky view: dragging to look around, pinching and
//! wheeling to zoom, tapping or clicking to pick a star.
//!
//! Positions (`P`) and touch distances (`D`) are carried through unchanged;
//! the geometry on them (how far two points are apart) is asked of the
//! caller, so the tracker decides on gestures whatever the coordinates are.

use vstd::prelude::*;

verus! {

/// The fingers on the screen in one frame.
#[derive(Clone, Copy, Debug, PartialEq, Eq)]
pub enum TouchInput<P, D> {
    /// No finger touches the screen.
    Lifted,
    /// One finger, at this position.
    Single(P),
    /// Two or more fingers; the distance between the first two (at least
    /// one pixel).
    Pinch(D),
}

/// What the pointer devices report in one frame.
#[derive(Clone, Copy, Debug, PartialEq, Eq)]
pub struct PointerInput<P, D> {
    /// The fingers on the screen.
    pub touches: TouchInput<P, D>,
    /// The mouse position.
    pub mouse: P,
    /// The left mouse button went down in this frame.
    pub left_pressed: bool,
    /// The left mouse button is held.
    pub left_down: bool,
    /// The left mouse button went up in this frame.
    pub left_released: bool,
    /// The vertical wheel moved in this frame.
    pub wheel_moved: bool,
}

/// What one frame of pointer input asks of the camera, and the tap it
/// reports. The camera commands are carried out in field order: the
/// rotation first, then the zooms.
#[derive(Clone, Copy, Debug, PartialEq, Eq)]
pub struct PointerOutput<P, D> {
    /// Turn the camera by the drag from the first position to the second.
    pub rotate: Option<(P, P)>,
    /// Zoom by the ratio of the previous pinch distance to the current one.
    pub pinch_zoom: Option<(D, D)>,
    /// Zoom by the wheel's movement.
    pub wheel_zoom: bool,
    /// A tap or click at this position.
    pub tap: Option<P>,
}

/// The gesture state carried from frame to frame.
#[derive(Clone, Copy, Debug, PartialEq, Eq)]
pub struct PointerTracker<P, D> {
    /// The mouse position in the previous frame of a drag.
    pub mouse_last: Option<P>,
    /// Where the left button went down.
    pub mouse_start: Option<P>,
    /// The finger's position in the previous frame of a one-finger drag.
    pub touch_last: Option<P>,
    /// Where the current touch began.
    pub touch_start: Option<P>,
    /// The pinch distance in the previous frame of a pinch.
    pub pinch_last_distance: Option<D>,
}

/// A frame in which the fingers left the screen after a one-finger touch:
/// whether it was a tap is asked of the caller for the touch's start and
/// last position.
pub open spec fn touch_tap_asked<P, D>(s: PointerTracker<P, D>, i: PointerInput<P, D>) -> bool {
    &&& i.touches is Lifted
    &&& s.touch_start is Some
    &&& s.touch_last is Some
}

/// Where the left button went down, as seen when the button goes up in
/// this frame (a press in the same frame counts).
pub open spec fn click_start<P, D>(s: PointerTracker<P, D>, i: PointerInput<P, D>) -> Option<P> {
    if i.left_pressed {
        Some(i.mouse)
    } else {
        s.mouse_start
    }
}

/// A frame in which the left button goes up after going down: whether it
/// was a click is asked of the caller for the press position and the mouse.
/// It is asked only when the frame did not already end a touch tap.
pub open spec fn click_asked<P, D>(
    s: PointerTracker<P, D>,
    i: PointerInput<P, D>,
    touch_tap: bool,
) -> bool {
    &&& i.touches is Lifted
    &&& !(touch_tap_asked(s, i) && touch_tap)
    &&& i.left_released
    &&& click_start(s, i) is Some
}

/// One frame of the gesture tracker, given the caller's answers to the
/// touch-tap question (`touch_tap`) and the click question (`click`).
pub open spec fn pointer_step<P, D>(
    s: PointerTracker<P, D>,
    i: PointerInput<P, D>,
    touch_tap: bool,
    click: bool,
) -> (PointerTracker<P, D>, PointerOutput<P, D>) {
    match i.touches {
        TouchInput::Pinch(d) => (
            PointerTracker {
                mouse_last: None,
                mouse_start: None,
                touch_last: None,
                touch_start: s.touch_start,
                pinch_last_distance: Some(d),
            },
            PointerOutput {
                rotate: None,
                pinch_zoom: match s.pinch_last_distance {
                    Some(p) => Some((p, d)),
                    None => None,
                },
                wheel_zoom: false,
                tap: None,
            },
        ),
        TouchInput::Single(pos) => (
            PointerTracker {
                mouse_last: None,
                mouse_start: None,
                touch_last: Some(pos),
                touch_start: if s.touch_start is None {
                    Some(pos)
                } else {
                    s.touch_start
                },
                pinch_last_distance: None,
            },
            PointerOutput {
                rotate: match s.touch_last {
                    Some(prev) => Some((prev, pos)),
                    None => None,
                },
                pinch_zoom: None,
                wheel_zoom: false,
                tap: None,
            },
        ),
        TouchInput::Lifted => {
            if touch_tap_asked(s, i) && touch_tap {
                (
                    PointerTracker {
                        mouse_last: s.mouse_last,
                        mouse_start: s.mouse_start,
                        touch_last: None,
                        touch_start: None,
                        pinch_last_distance: None,
                    },
                    PointerOutput { rotate: None, pinch_zoom: None, wheel_zoom: false, tap: s.touch_last },
                )
            } else {
                let m = i.mouse;
                let pressed_last = if i.left_pressed {
                    Some(m)
                } else {
                    s.mouse_last
                };
                let rotate = if i.left_down {
                    match pressed_last {
                        Some(prev) => Some((prev, m)),
                        None => None,
                    }
                } else {
                    None
                };
                let held_last = if i.left_down {
                    Some(m)
                } else {
                    pressed_last
                };
                if i.left_released {
                    let state = PointerTracker {
                        mouse_last: None,
                        mouse_start: None,
                        touch_last: None,
                        touch_start: None,
                        pinch_last_distance: None,
                    };
                    if click_start(s, i) is Some && click {
                        (
                            state,
                            PointerOutput { rotate, pinch_zoom: None, wheel_zoom: false, tap: Some(m) },
                        )
                    } else {
                        (
                            state,
                            PointerOutput {
                                rotate,
                                pinch_zoom: None,
                                wheel_zoom: i.wheel_moved,
                                tap: None,
                            },
                        )
                    }
                } else {
                    (
                        PointerTracker {
                            mouse_last: held_last,
                            mouse_start: click_start(s, i),
                            touch_last: None,
                            touch_start: None,
                            pinch_last_distance: None,
                        },
                        PointerOutput { rotate, pinch_zoom: None, wheel_zoom: i.wheel_moved, tap: None },
                    )
                }
            }
        },
    }
}

impl<P: Copy, D: Copy> PointerTracker<P, D> {
    /// A tracker with no gesture under way.
    pub fn new() -> (t: PointerTracker<P, D>)
        ensures
            t.mouse_last is None,
            t.mouse_start is None,
            t.touch_last is None,
            t.touch_start is None,
            t.pinch_last_distance is None,
    {
        PointerTracker {
            mouse_last: None,
            mouse_start: None,
            touch_last: None,
            touch_start: None,
            pinch_last_distance: None,
        }
    }

    /// Takes one frame of pointer input. `is_touch_tap(start, last)` says
    /// whether a touch that began at `start` and ended at `last` was a tap;
    /// `is_click(press, release)` whether a button press at `press` released
    /// at `release` was a click.
    pub fn update<T, C>(&mut self, input: PointerInput<P, D>, is_touch_tap: &T, is_click: &C) -> (out:
        PointerOutput<P, D>) where T: Fn(P, P) -> bool, C: Fn(P, P) -> bool
        requires
            forall|a: P, b: P| is_touch_tap.requires((a, b)),
            forall|a: P, b: P| is_click.requires((a, b)),
        ensures
            exists|touch_tap: bool, click: bool|
                {
                    &&& touch_tap_asked(*old(self), input) ==> is_touch_tap.ensures(
                        (old(self).touch_start->0, old(self).touch_last->0),
                        touch_tap,
                    )
                    &&& click_asked(*old(self), input, touch_tap) ==> is_click.ensures(
                        (click_start(*old(self), input)->0, input.mouse),
                        click,
                    )
                    &&& (*final(self), out) == pointer_step(*old(self), input, touch_tap, click)
                },
    {
        match input.touches {
            TouchInput::Pinch(d) => {
                self.mouse_last = None;
                self.mouse_start = None;
                let pinch_zoom = match self.pinch_last_distance {
                    Some(p) => Some((p, d)),
                    None => None,
                };
                self.pinch_last_distance = Some(d);
                self.touch_last = None;
                let out = PointerOutput { rotate: None, pinch_zoom, wheel_zoom: false, tap: None };
                assert((*self, out) == pointer_step(*old(self), input, false, false));
                out
            },
            TouchInput::Single(pos) => {
                self.mouse_last = None;
                self.mouse_start = None;
                self.pinch_last_distance = None;
                if self.touch_start.is_none() {
                    self.touch_start = Some(pos);
                }
                let rotate = match self.touch_last {
                    Some(prev) => Some((prev, pos)),
                    None => None,
                };
                self.touch_last = Some(pos);
                let out = PointerOutput { rotate, pinch_zoom: None, wheel_zoom: false, tap: None };
                assert((*self, out) == pointer_step(*old(self), input, false, false));
                out
            },
            TouchInput::Lifted => {
                self.pinch_last_distance = None;
                let start = self.touch_start;
                let last = self.touch_last;
                self.touch_start = None;
                self.touch_last = None;
                let mut touch_tap = false;
                if let (Some(s0), Some(l0)) = (start, last) {
                    touch_tap = is_touch_tap(s0, l0);
                    if touch_tap {
                        let out = PointerOutput {
                            rotate: None,
                            pinch_zoom: None,
                            wheel_zoom: false,
                            tap: Some(l0),
                        };
                        assert((*self, out) == pointer_step(*old(self), input, true, false));
                        return out;
                    }
                }
                let m = input.mouse;
                if input.left_pressed {
                    self.mouse_start = Some(m);
                    self.mouse_last = Some(m);
                }
                let mut rotate: Option<(P, P)> = None;
                if input.left_down {
                    if let Some(prev) = self.mouse_last {
                        rotate = Some((prev, m));
                    }
                    self.mouse_last = Some(m);
                }
                let mut click = false;
                if input.left_released {
                    let press = self.mouse_start;
                    self.mouse_start = None;
                    self.mouse_last = None;
                    if let Some(p0) = press {
                        click = is_click(p0, m);
                        if click {
                            let out = PointerOutput {
                                rotate,
                                pinch_zoom: None,
                                wheel_zoom: false,
                                tap: Some(m),
                            };
                            assert((*self, out) == pointer_step(
                                *old(self),
                                input,
                                touch_tap,
                                true,
                            ));
                            return out;
                        }
                    }
                }
                let out = PointerOutput {
                    rotate,
                    pinch_zoom: None,
                    wheel_zoom: input.wheel_moved,
                    tap: None,
                };
                assert((*self, out) == pointer_step(*old(self), input, touch_tap, click));
                out
            },
        }
    }
}

/// While any finger touches the screen, the mouse's gesture state is
/// forgotten, the wheel is ignored and no tap is reported; a pinch never
/// turns the camera and a single finger never zooms it.
pub proof fn lemma_touch_frames<P, D>(
    s: PointerTracker<P, D>,
    i: PointerInput<P, D>,
    touch_tap: bool,
    click: bool,
)
    requires
        !(i.touches is Lifted),
    ensures
        ({
            let (t, out) = pointer_step(s, i, touch_tap, click);
            &&& t.mouse_last is None
            &&& t.mouse_start is None
            &&& out.tap is None
            &&& !out.wheel_zoom
            &&& i.touches is Pinch ==> out.rotate is None
            &&& i.touches is Single ==> out.pinch_zoom is None
        }),
{
}

/// A held mouse drag turns the camera by the movement since the previous
/// frame: in a frame with no finger down (and no touch tap ending) where the
/// left button is held but was not just pressed, the rotation runs from the
/// tracker's last mouse position to the current one, and the current
/// position becomes the last one unless the button is released.
pub proof fn lemma_mouse_drag_turns_by_last_movement<P, D>(
    s: PointerTracker<P, D>,
    i: PointerInput<P, D>,
    touch_tap: bool,
    click: bool,
)
    requires
        i.touches is Lifted,
        !(touch_tap_asked(s, i) && touch_tap),
        i.left_down,
        !i.left_pressed,
    ensures
        ({
            let (t, out) = pointer_step(s, i, touch_tap, click);
            &&& out.rotate == match s.mouse_last {
                Some(prev) => Some((prev, i.mouse)),
                None => None::<(P, P)>,
            }
            &&& !i.left_released ==> t.mouse_last == Some(i.mouse)
        }),
{
}

/// Over two consecutive frames of a held mouse drag the rotations chain: the
/// second frame's rotation starts where the first frame's mouse was.
pub proof fn lemma_mouse_drag_rotations_chain<P, D>(
    s: PointerTracker<P, D>,
    i1: PointerInput<P, D>,
    i2: PointerInput<P, D>,
    t1: bool,
    c1: bool,
    t2: bool,
    c2: bool,
)
    requires
        i1.touches is Lifted,
        i2.touches is Lifted,
        !(touch_tap_asked(s, i1) && t1),
        i1.left_down,
        !i1.left_released,
        i2.left_down,
        !i2.left_pressed,
    ensures
        ({
            let (mid, out1) = pointer_step(s, i1, t1, c1);
            let (_, out2) = pointer_step(mid, i2, t2, c2);
            &&& out2.rotate == Some((i1.mouse, i2.mouse))
            &&& out1.rotate matches Some(r) ==> r.1 == i1.mouse
        }),
{
}

/// Over two consecutive frames of a one-finger drag the camera turns by the
/// finger's movement between them.
pub proof fn lemma_touch_drag_turns_by_last_movement<P, D>(
    s: PointerTracker<P, D>,
    p1: P,
    p2: P,
    i1: PointerInput<P, D>,
    i2: PointerInput<P, D>,
    t1: bool,
    c1: bool,
    t2: bool,
    c2: bool,
)
    requires
        i1.touches == TouchInput::<P, D>::Single(p1),
        i2.touches == TouchInput::<P, D>::Single(p2),
    ensures
        ({
            let (mid, out1) = pointer_step(s, i1, t1, c1);
            let (_, out2) = pointer_step(mid, i2, t2, c2);
            &&& out2.rotate == Some((p1, p2))
            &&& out1.rotate matches Some(r) ==> r.1 == p1
        }),
{
}

/// In a pinch frame the camera zooms by the previous pinch distance to the
/// current one exactly when the tracker holds a previous pinch distance,
/// whatever came before it; the current distance is kept for the next frame.
pub proof fn lemma_pinch_zooms_when_previous_distance_known<P, D>(
    s: PointerTracker<P, D>,
    d: D,
    i: PointerInput<P, D>,
    touch_tap: bool,
    click: bool,
)
    requires
        i.touches == TouchInput::<P, D>::Pinch(d),
    ensures
        ({
            let (t, out) = pointer_step(s, i, touch_tap, click);
            &&& (out.pinch_zoom is Some <==> s.pinch_last_distance is Some)
            &&& s.pinch_last_distance matches Some(p) ==> out.pinch_zoom == Some((p, d))
            &&& t.pinch_last_distance == Some(d)
        }),
{
}

/// Two consecutive pinch frames zoom by the ratio of their distances,
/// whatever state the tracker was in before (a finger landing first, a
/// mouse drag, anything).
pub proof fn lemma_consecutive_pinch_frames_zoom<P, D>(
    s: PointerTracker<P, D>,
    d1: D,
    d2: D,
    i1: PointerInput<P, D>,
    i2: PointerInput<P, D>,
    t1: bool,
    c1: bool,
    t2: bool,
    c2: bool,
)
    requires
        i1.touches == TouchInput::<P, D>::Pinch(d1),
        i2.touches == TouchInput::<P, D>::Pinch(d2),
    ensures
        pointer_step(pointer_step(s, i1, t1, c1).0, i2, t2, c2).1.pinch_zoom == Some((d1, d2)),
{
}

/// A tap is reported only in a frame with no finger on the screen, and
/// only where the caller confirmed it: either the last position of a
/// touch that the caller judged a tap, or the mouse position of a press
/// and release that the caller judged a click.
pub proof fn lemma_taps_are_confirmed<P, D>(
    s: PointerTracker<P, D>,
    i: PointerInput<P, D>,
    touch_tap: bool,
    click: bool,
)
    ensures
        ({
            let (t, out) = pointer_step(s, i, touch_tap, click);
            out.tap is Some ==> {
                &&& i.touches is Lifted
                &&& (touch_tap_asked(s, i) && touch_tap && out.tap == s.touch_last) || (
                click_asked(s, i, touch_tap) && click && out.tap == Some(i.mouse))
            }
        }),
{
}

/// After a frame with no finger on the screen no touch gesture is under
/// way, and after the left button goes up no mouse drag is under way
/// (unless that frame already ended a touch tap, which leaves the mouse
/// alone).
pub proof fn lemma_gestures_end<P, D>(
    s: PointerTracker<P, D>,
    i: PointerInput<P, D>,
    touch_tap: bool,
    click: bool,
)
    ensures
        ({
            let (t, out) = pointer_step(s, i, touch_tap, click);
            &&& i.touches is Lifted ==> t.touch_start is None && t.touch_last is None
                && t.pinch_last_distance is None
            &&& (i.touches is Lifted && i.left_released && !(touch_tap_asked(s, i)
                && touch_tap)) ==> t.mouse_start is None
                && t.mouse_last is None
        }),
{
}

} // verus!
