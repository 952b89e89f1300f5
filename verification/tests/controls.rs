use starviewer::controls::{
    label_shade, respond, rumble_for, thrust, walk_direction, InputEvent, Key, Response, Rumble,
};

fn idle() -> Response {
    Response {
        quit: false,
        turn_horizontally: false,
        turn_vertically: false,
        zoom: false,
        change_range: false,
        capture_mouse: None,
    }
}

#[test]
fn quit_closes_and_keeps_focus() {
    assert_eq!(respond(true, InputEvent::Quit), (true, Response { quit: true, ..idle() }));
    assert_eq!(respond(false, InputEvent::Quit), (false, Response { quit: true, ..idle() }));
}

#[test]
fn mouse_motion_turns_only_with_focus() {
    let motion = InputEvent::MouseMotion { moved_x: true, moved_y: false };
    assert_eq!(
        respond(true, motion),
        (true, Response { turn_horizontally: true, ..idle() })
    );
    assert_eq!(respond(false, motion), (false, idle()));
    let both = InputEvent::MouseMotion { moved_x: true, moved_y: true };
    assert_eq!(
        respond(true, both),
        (true, Response { turn_horizontally: true, turn_vertically: true, ..idle() })
    );
    let none = InputEvent::MouseMotion { moved_x: false, moved_y: false };
    assert_eq!(respond(true, none), (true, idle()));
}

#[test]
fn wheel_zooms_with_focus_and_changes_range_always() {
    let wheel = InputEvent::MouseWheel { scrolled_x: true, scrolled_y: true };
    assert_eq!(
        respond(true, wheel),
        (true, Response { zoom: true, change_range: true, ..idle() })
    );
    assert_eq!(respond(false, wheel), (false, Response { change_range: true, ..idle() }));
}

#[test]
fn return_and_escape_switch_focus() {
    assert_eq!(
        respond(false, InputEvent::KeyDown(Key::Return)),
        (true, Response { capture_mouse: Some(true), ..idle() })
    );
    assert_eq!(
        respond(true, InputEvent::KeyDown(Key::Escape)),
        (false, Response { capture_mouse: Some(false), ..idle() })
    );
    assert_eq!(respond(true, InputEvent::KeyDown(Key::W)), (true, idle()));
    assert_eq!(respond(false, InputEvent::Other), (false, idle()));
}

#[test]
fn escape_then_motion_does_not_turn() {
    let (focus, _) = respond(true, InputEvent::KeyDown(Key::Escape));
    let (focus, response) = respond(focus, InputEvent::MouseMotion { moved_x: true, moved_y: true });
    assert!(!focus);
    assert_eq!(response, idle());
    let (focus, _) = respond(focus, InputEvent::KeyDown(Key::Return));
    let (_, response) = respond(focus, InputEvent::MouseMotion { moved_x: true, moved_y: true });
    assert!(response.turn_horizontally && response.turn_vertically);
}

#[test]
fn walking_directions() {
    assert_eq!(walk_direction(Key::W), Some((0, 0, -1)));
    assert_eq!(walk_direction(Key::S), Some((0, 0, 1)));
    assert_eq!(walk_direction(Key::A), Some((-1, 0, 0)));
    assert_eq!(walk_direction(Key::D), Some((1, 0, 0)));
    assert_eq!(walk_direction(Key::Q), None);
    assert_eq!(walk_direction(Key::Return), None);
}

#[test]
fn thrust_axes_and_signs() {
    assert_eq!(thrust(Key::A), Some((0, -1)));
    assert_eq!(thrust(Key::D), Some((0, 1)));
    assert_eq!(thrust(Key::W), Some((1, -1)));
    assert_eq!(thrust(Key::S), Some((1, 1)));
    assert_eq!(thrust(Key::E), Some((2, 1)));
    assert_eq!(thrust(Key::Q), Some((2, -1)));
    assert_eq!(thrust(Key::Escape), None);
    assert_eq!(thrust(Key::Other), None);
}

#[test]
fn label_shade_values() {
    assert_eq!(label_shade(1), 20);
    assert_eq!(label_shade(3), 6);
    assert_eq!(label_shade(20), 1);
    assert_eq!(label_shade(21), 0);
    assert_eq!(label_shade(0), 20);
    assert_eq!(label_shade(-40), 20);
    assert_eq!(label_shade(i32::MAX), 0);
    assert_eq!(label_shade(i32::MIN), 20);
}

#[test]
fn rumble_only_for_a_selection_with_a_gamepad() {
    let buzz = Rumble { low_frequency: 0, high_frequency: 6500, duration_ms: 100 };
    assert_eq!(rumble_for(true, true), Some(buzz));
    assert_eq!(rumble_for(true, false), None);
    assert_eq!(rumble_for(false, true), None);
    assert_eq!(rumble_for(false, false), None);
}
