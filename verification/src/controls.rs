//! Decisions the viewer takes on input: what each window event does to the
//! camera and to mouse capture, and which way each movement key pushes.
use vstd::prelude::*;

verus! {

/// Viewer settings.
pub struct AppSettings {
    /// Whether the camera moves freely.
    pub free_move: bool,
}

/// The keys the viewer reacts to.
#[derive(Clone, Copy, PartialEq, Eq, Structural, Debug)]
pub enum Key {
    Return,
    Escape,
    W,
    A,
    S,
    D,
    Q,
    E,
    Other,
}

/// A window event, reduced to what the decisions read: for mouse motion and
/// the wheel, on which axes the movement is nonzero.
#[derive(Clone, Copy, PartialEq, Eq, Structural, Debug)]
pub enum InputEvent {
    Quit,
    MouseMotion { moved_x: bool, moved_y: bool },
    MouseWheel { scrolled_x: bool, scrolled_y: bool },
    KeyDown(Key),
    Other,
}

/// What the main loop does in answer to one event.
#[derive(Clone, Copy, PartialEq, Eq, Structural, Debug)]
pub struct Response {
    /// Close the renderer and leave the loop.
    pub quit: bool,
    /// Turn the camera about its vertical axis by the horizontal motion.
    pub turn_horizontally: bool,
    /// Tilt the camera by the vertical motion.
    pub turn_vertically: bool,
    /// Change the field of view by the vertical wheel movement.
    pub zoom: bool,
    /// Change the star range by the horizontal wheel movement and reload the stars.
    pub change_range: bool,
    /// Switch relative mouse mode on (`Some(true)`) or off (`Some(false)`).
    pub capture_mouse: Option<bool>,
}

/// The response that does nothing.
pub open spec fn idle() -> Response {
    Response {
        quit: false,
        turn_horizontally: false,
        turn_vertically: false,
        zoom: false,
        change_range: false,
        capture_mouse: None,
    }
}

/// Mouse focus after `event`, starting from `focused`.
pub open spec fn focus_after(focused: bool, event: InputEvent) -> bool {
    match event {
        InputEvent::KeyDown(Key::Return) => true,
        InputEvent::KeyDown(Key::Escape) => false,
        _ => focused,
    }
}

/// The main loop's response to `event` when mouse focus is `focused`.
pub open spec fn response_to(focused: bool, event: InputEvent) -> Response {
    match event {
        InputEvent::Quit => Response { quit: true, ..idle() },
        InputEvent::MouseMotion { moved_x, moved_y } => Response {
            turn_horizontally: focused && moved_x,
            turn_vertically: focused && moved_y,
            ..idle()
        },
        InputEvent::MouseWheel { scrolled_x, scrolled_y } => Response {
            zoom: focused && scrolled_y,
            change_range: scrolled_x,
            ..idle()
        },
        InputEvent::KeyDown(Key::Return) => Response { capture_mouse: Some(true), ..idle() },
        InputEvent::KeyDown(Key::Escape) => Response { capture_mouse: Some(false), ..idle() },
        _ => idle(),
    }
}

/// Decides the main loop's answer to `event` when mouse focus is `focused`:
/// returns the new focus and the response.
pub fn respond(focused: bool, event: InputEvent) -> (res: (bool, Response))
    ensures
        res.0 == focus_after(focused, event),
        res.1 == response_to(focused, event),
        res.1.quit == (event == InputEvent::Quit),
        res.1.turn_horizontally == (focused && event is MouseMotion && event->moved_x),
        res.1.turn_vertically == (focused && event is MouseMotion && event->moved_y),
        res.1.zoom == (focused && event is MouseWheel && event->scrolled_y),
        res.1.change_range == (event is MouseWheel && event->scrolled_x),
        event == InputEvent::KeyDown(Key::Return) ==> res.0 && res.1.capture_mouse == Some(true),
        event == InputEvent::KeyDown(Key::Escape) ==> !res.0 && res.1.capture_mouse == Some(
            false,
        ),
        event != InputEvent::KeyDown(Key::Return) && event != InputEvent::KeyDown(Key::Escape)
            ==> res.0 == focused && res.1.capture_mouse is None,
{
    let none = Response {
        quit: false,
        turn_horizontally: false,
        turn_vertically: false,
        zoom: false,
        change_range: false,
        capture_mouse: None,
    };
    match event {
        InputEvent::Quit => (focused, Response { quit: true, ..none }),
        InputEvent::MouseMotion { moved_x, moved_y } => (
            focused,
            Response {
                turn_horizontally: focused && moved_x,
                turn_vertically: focused && moved_y,
                ..none
            },
        ),
        InputEvent::MouseWheel { scrolled_x, scrolled_y } => (
            focused,
            Response { zoom: focused && scrolled_y, change_range: scrolled_x, ..none },
        ),
        InputEvent::KeyDown(key) => {
            if key == Key::Return {
                (true, Response { capture_mouse: Some(true), ..none })
            } else if key == Key::Escape {
                (false, Response { capture_mouse: Some(false), ..none })
            } else {
                (focused, none)
            }
        },
        InputEvent::Other => (focused, none),
    }
}

/// Focus follows the last of Return and Escape: Return gives the mouse to the
/// viewer whatever the focus was, Escape takes it back.
pub proof fn lemma_focus_follows_return_and_escape(focused: bool)
    ensures
        focus_after(focused, InputEvent::KeyDown(Key::Return)),
        !focus_after(focused, InputEvent::KeyDown(Key::Escape)),
        response_to(focused, InputEvent::KeyDown(Key::Return)).capture_mouse == Some(true),
        response_to(focused, InputEvent::KeyDown(Key::Escape)).capture_mouse == Some(false),
{
}

/// Once Escape has released the mouse, no event turns or zooms the camera
/// until Return gives the mouse back; only events other than Return and
/// Escape leave the focus as it was.
pub proof fn lemma_released_mouse_leaves_view(focused: bool, event: InputEvent)
    requires
        event != InputEvent::KeyDown(Key::Return),
    ensures
        !response_to(focus_after(focused, InputEvent::KeyDown(Key::Escape)), event).turn_horizontally,
        !response_to(focus_after(focused, InputEvent::KeyDown(Key::Escape)), event).turn_vertically,
        !response_to(focus_after(focused, InputEvent::KeyDown(Key::Escape)), event).zoom,
        !focus_after(focus_after(focused, InputEvent::KeyDown(Key::Escape)), event),
{
}

/// The vertical wheel zooms, and only while the viewer has the mouse; the
/// horizontal wheel changes the range whatever the focus; neither changes
/// the focus, turns the camera, quits or touches mouse capture.
pub proof fn lemma_wheel_zooms_vertically(focused: bool, scrolled_x: bool, scrolled_y: bool)
    ensures
        response_to(focused, InputEvent::MouseWheel { scrolled_x, scrolled_y }).zoom == (focused
            && scrolled_y),
        response_to(focused, InputEvent::MouseWheel { scrolled_x, scrolled_y }).change_range
            == scrolled_x,
        !response_to(focused, InputEvent::MouseWheel { scrolled_x, scrolled_y }).turn_horizontally,
        !response_to(focused, InputEvent::MouseWheel { scrolled_x, scrolled_y }).turn_vertically,
        !response_to(focused, InputEvent::MouseWheel { scrolled_x, scrolled_y }).quit,
        response_to(focused, InputEvent::MouseWheel { scrolled_x, scrolled_y }).capture_mouse is None,
        focus_after(focused, InputEvent::MouseWheel { scrolled_x, scrolled_y }) == focused,
{
}

/// With the mouse held, each axis of mouse motion turns the camera on its
/// own: horizontal motion turns it, vertical motion tilts it, whatever the
/// other axis does; without the mouse nothing turns. Motion never zooms,
/// changes the range, quits or changes the focus.
pub proof fn lemma_motion_turns_per_axis(focused: bool, moved_x: bool, moved_y: bool)
    ensures
        response_to(focused, InputEvent::MouseMotion { moved_x, moved_y }).turn_horizontally
            == (focused && moved_x),
        response_to(focused, InputEvent::MouseMotion { moved_x, moved_y }).turn_vertically == (
        focused && moved_y),
        !response_to(focused, InputEvent::MouseMotion { moved_x, moved_y }).zoom,
        !response_to(focused, InputEvent::MouseMotion { moved_x, moved_y }).change_range,
        !response_to(focused, InputEvent::MouseMotion { moved_x, moved_y }).quit,
        focus_after(focused, InputEvent::MouseMotion { moved_x, moved_y }) == focused,
{
}

/// Only W, S, A and D walk the camera: W forward (-z), S back (+z), A left
/// (-x), D right (+x); every step has exactly one nonzero component, of size
/// one, and opposite keys walk opposite ways.
pub proof fn lemma_walk_keys(key: Key)
    ensures
        walk_step(key) is Some <==> (key == Key::W || key == Key::S || key == Key::A || key
            == Key::D),
        walk_step(Key::W) == Some((0i8, 0i8, -1i8)),
        walk_step(Key::S) == Some((0i8, 0i8, 1i8)),
        walk_step(Key::A) == Some((-1i8, 0i8, 0i8)),
        walk_step(Key::D) == Some((1i8, 0i8, 0i8)),
        walk_step(key) matches Some(d) ==> (d.0 != 0) as int + (d.1 != 0) as int + (d.2
            != 0) as int == 1 && -1 <= d.0 <= 1 && -1 <= d.1 <= 1 && -1 <= d.2 <= 1,
{
}

/// Only A, D, W, S, E and Q set a velocity: A and D along x, W and S along y,
/// Q and E along z, the two keys of a pair with opposite signs; every other
/// key (Return, Escape, any other) sets none.
pub proof fn lemma_thrust_keys(key: Key)
    ensures
        thrust_of(key) is Some <==> (key == Key::A || key == Key::D || key == Key::W || key
            == Key::S || key == Key::E || key == Key::Q),
        thrust_of(Key::A) == Some((0usize, -1i8)),
        thrust_of(Key::D) == Some((0usize, 1i8)),
        thrust_of(Key::W) == Some((1usize, -1i8)),
        thrust_of(Key::S) == Some((1usize, 1i8)),
        thrust_of(Key::E) == Some((2usize, 1i8)),
        thrust_of(Key::Q) == Some((2usize, -1i8)),
        thrust_of(Key::Return) is None,
        thrust_of(Key::Escape) is None,
        thrust_of(Key::Other) is None,
{
}

/// Horizontal wheel movement changes the star range whether or not the
/// viewer has the mouse.
pub proof fn lemma_range_ignores_focus(scrolled_x: bool, scrolled_y: bool)
    ensures
        response_to(true, InputEvent::MouseWheel { scrolled_x, scrolled_y }).change_range
            == scrolled_x,
        response_to(false, InputEvent::MouseWheel { scrolled_x, scrolled_y }).change_range
            == scrolled_x,
{
}

/// The direction in which the view controls walk the camera for `key`:
/// W forward (negative z), S back, A left (negative x), D right.
pub open spec fn walk_step(key: Key) -> Option<(i8, i8, i8)> {
    match key {
        Key::W => Some((0i8, 0i8, -1i8)),
        Key::S => Some((0i8, 0i8, 1i8)),
        Key::A => Some((-1i8, 0i8, 0i8)),
        Key::D => Some((1i8, 0i8, 0i8)),
        _ => None,
    }
}

/// The direction the camera is translated by while `key` is held.
pub fn walk_direction(key: Key) -> (res: Option<(i8, i8, i8)>)
    ensures
        res == walk_step(key),
        res is Some <==> (key == Key::W || key == Key::S || key == Key::A || key == Key::D),
        key == Key::W ==> res == Some((0i8, 0i8, -1i8)),
        key == Key::S ==> res == Some((0i8, 0i8, 1i8)),
        key == Key::A ==> res == Some((-1i8, 0i8, 0i8)),
        key == Key::D ==> res == Some((1i8, 0i8, 0i8)),
{
    match key {
        Key::W => Some((0, 0, -1)),
        Key::S => Some((0, 0, 1)),
        Key::A => Some((-1, 0, 0)),
        Key::D => Some((1, 0, 0)),
        _ => None,
    }
}

/// The axis (0 = x, 1 = y, 2 = z) and sign of the velocity a key press sets
/// in the free-flight renderer: A and D along x, W and S along y, Q and E
/// along z.
pub open spec fn thrust_of(key: Key) -> Option<(usize, i8)> {
    match key {
        Key::A => Some((0usize, -1i8)),
        Key::D => Some((0usize, 1i8)),
        Key::W => Some((1usize, -1i8)),
        Key::S => Some((1usize, 1i8)),
        Key::E => Some((2usize, 1i8)),
        Key::Q => Some((2usize, -1i8)),
        _ => None,
    }
}

/// The axis and sign of the velocity that pressing `key` sets.
pub fn thrust(key: Key) -> (res: Option<(usize, i8)>)
    ensures
        res == thrust_of(key),
        res matches Some(t) ==> t.0 < 3 && (t.1 == 1 || t.1 == -1),
        res is Some <==> (key == Key::A || key == Key::D || key == Key::W || key == Key::S || key
            == Key::E || key == Key::Q),
        key == Key::A ==> res == Some((0usize, -1i8)),
        key == Key::D ==> res == Some((0usize, 1i8)),
        key == Key::W ==> res == Some((1usize, -1i8)),
        key == Key::S ==> res == Some((1usize, 1i8)),
        key == Key::E ==> res == Some((2usize, 1i8)),
        key == Key::Q ==> res == Some((2usize, -1i8)),
{
    match key {
        Key::A => Some((0, -1)),
        Key::D => Some((0, 1)),
        Key::W => Some((1, -1)),
        Key::S => Some((1, 1)),
        Key::E => Some((2, 1)),
        Key::Q => Some((2, -1)),
        _ => None,
    }
}

/// `v` held to the range `[lo, hi]`.
pub open spec fn clamped(v: int, lo: int, hi: int) -> int {
    if v < lo {
        lo
    } else if v > hi {
        hi
    } else {
        v
    }
}

/// The grey level of a faded star label for a star `whole_distance` parsecs
/// away (the distance cut to a whole number): 20 divided by the distance held
/// to `[1, 99999]`, held to `[0, 255]`.
pub fn label_shade(whole_distance: i32) -> (shade: u8)
    ensures
        shade as int == clamped(20int / clamped(whole_distance as int, 1, 99999), 0, 255),
        1 <= whole_distance ==> shade as int == 20int / clamped(whole_distance as int, 1, 99999),
        shade <= 20,
{
    let d: i32 = if whole_distance < 1 {
        1
    } else if whole_distance > 99999 {
        99999
    } else {
        whole_distance
    };
    let q: i32 = 20 / d;
    assert(0 <= q <= 20) by (nonlinear_arith)
        requires
            1 <= d,
            q as int == 20int / (d as int),
    ;
    q as u8
}

/// A rumble on a gamepad: low and high frequency strength and duration in
/// milliseconds.
#[derive(Clone, Copy, PartialEq, Eq, Structural, Debug)]
pub struct Rumble {
    pub low_frequency: u16,
    pub high_frequency: u16,
    pub duration_ms: u32,
}

/// The rumble a gamepad plays for a game event: a short high-frequency buzz
/// when a star was selected and a gamepad is connected, nothing otherwise.
pub fn rumble_for(star_selected: bool, gamepad_connected: bool) -> (res: Option<Rumble>)
    ensures
        res is Some <==> (star_selected && gamepad_connected),
        res matches Some(r) ==> r == (Rumble {
            low_frequency: 0,
            high_frequency: 6500,
            duration_ms: 100,
        }),
{
    if star_selected && gamepad_connected {
        Some(Rumble { low_frequency: 0, high_frequency: 6500, duration_ms: 100 })
    } else {
        None
    }
}

} // verus!
