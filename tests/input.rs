use vrmp::action::{Action, ActionBin, ViewFlags};
use vrmp::input::{handle_input_event, InputEvent, Key, MouseButton};

fn still() -> ViewFlags {
    ViewFlags {
        is_running: true,
        is_gui: false,
        move_forward: false,
        move_backward: false,
        move_left: false,
        move_right: false,
    }
}

#[test]
fn events_become_actions() {
    let mut bin = ActionBin::create();
    let mut f = still();
    let mut m = (0, 0);
    handle_input_event(InputEvent::MouseDown(MouseButton::Right), false, true, &mut bin, &mut f, &mut m);
    handle_input_event(InputEvent::KeyDown(Key::Space), false, true, &mut bin, &mut f, &mut m);
    assert!(matches!(bin.dispatch(), Some(Action::ResetWorldOrigin)));
    handle_input_event(InputEvent::KeyDown(Key::Escape), false, true, &mut bin, &mut f, &mut m);
    assert!(matches!(bin.dispatch(), Some(Action::Quit)));
    handle_input_event(InputEvent::Quit, false, true, &mut bin, &mut f, &mut m);
    handle_input_event(InputEvent::MouseDown(MouseButton::Left), false, true, &mut bin, &mut f, &mut m);
    assert!(matches!(bin.dispatch(), Some(Action::Quit)));
    assert!(bin.dispatch().is_none());
}

#[test]
fn movement_keys_and_motion() {
    let mut bin = ActionBin::create();
    let mut f = still();
    let mut m = (0, 0);
    handle_input_event(InputEvent::KeyDown(Key::W), false, true, &mut bin, &mut f, &mut m);
    handle_input_event(InputEvent::KeyDown(Key::D), false, true, &mut bin, &mut f, &mut m);
    handle_input_event(InputEvent::KeyUp(Key::W), false, true, &mut bin, &mut f, &mut m);
    assert!(!f.move_forward && f.move_right);
    // the menu has the keyboard
    handle_input_event(InputEvent::KeyDown(Key::S), false, false, &mut bin, &mut f, &mut m);
    assert!(!f.move_backward);
    handle_input_event(InputEvent::MouseMotion(3, -4), false, true, &mut bin, &mut f, &mut m);
    handle_input_event(InputEvent::MouseMotion(2, 1), false, true, &mut bin, &mut f, &mut m);
    assert_eq!(m, (5, -3));
    handle_input_event(InputEvent::MouseMotion(100, 100), true, true, &mut bin, &mut f, &mut m);
    assert_eq!(m, (5, -3));
    handle_input_event(InputEvent::MouseMotion(i32::MAX, i32::MIN), false, true, &mut bin, &mut f, &mut m);
    assert_eq!(m, (i32::MAX, i32::MIN));
}

#[test]
fn resize_reports_size() {
    let mut bin = ActionBin::create();
    let mut f = still();
    let mut m = (0, 0);
    assert_eq!(
        handle_input_event(InputEvent::Resized(1280, 720), false, true, &mut bin, &mut f, &mut m),
        Some((1280, 720))
    );
    assert_eq!(handle_input_event(InputEvent::Resized(0, 720), false, true, &mut bin, &mut f, &mut m), None);
    assert_eq!(handle_input_event(InputEvent::Other, false, true, &mut bin, &mut f, &mut m), None);
}
