use frame_input::mouse::CursorIcon;
use frame_input::mouse::MouseButton;
use frame_input::mouse::MouseContext;
use frame_input::mouse::Point2;

fn point(x: i64, y: i64) -> Point2 {
    Point2 { x, y }
}

#[test]
fn new_tracker_is_zeroed() {
    let m = MouseContext::new();
    assert_eq!(m.position(), point(0, 0));
    assert_eq!(m.delta(), point(0, 0));
    assert_eq!(m.last_delta(), point(0, 0));
    assert!(!m.button_pressed(MouseButton::Left));
    assert!(!m.button_just_pressed(MouseButton::Left));
    assert!(!m.button_just_released(MouseButton::Left));
    assert_eq!(m.cursor_type(), CursorIcon::Default);
    assert!(!m.cursor_grabbed());
    assert!(!m.cursor_hidden());
}

#[test]
fn default_matches_new() {
    let d = MouseContext::default();
    let n = MouseContext::new();
    assert_eq!(d.position(), n.position());
    assert_eq!(d.delta(), n.delta());
    assert_eq!(d.last_delta(), n.last_delta());
    assert_eq!(d.cursor_type(), n.cursor_type());
    assert_eq!(d.cursor_grabbed(), n.cursor_grabbed());
    assert_eq!(d.cursor_hidden(), n.cursor_hidden());
    assert_eq!(
        d.button_pressed(MouseButton::Middle),
        n.button_pressed(MouseButton::Middle)
    );
}

#[test]
fn press_reads_as_edge_before_any_advance() {
    for b in [
        MouseButton::Left,
        MouseButton::Right,
        MouseButton::Middle,
        MouseButton::Back,
        MouseButton::Forward,
        MouseButton::Other(5),
    ] {
        let mut m = MouseContext::new();
        m.set_button(b, true);
        assert!(m.button_just_pressed(b));
        assert!(!m.button_just_released(b));
        assert!(m.button_pressed(b));
    }
}

#[test]
fn advance_turns_edge_into_held() {
    let mut m = MouseContext::new();
    m.set_button(MouseButton::Right, true);
    assert!(m.button_just_pressed(MouseButton::Right));
    m.save_mouse_state();
    assert!(!m.button_just_pressed(MouseButton::Right));
    assert!(!m.button_just_released(MouseButton::Right));
    assert!(m.button_pressed(MouseButton::Right));
}

#[test]
fn repeated_press_is_idempotent() {
    let mut once = MouseContext::new();
    once.set_button(MouseButton::Left, true);
    let mut twice = MouseContext::new();
    twice.set_button(MouseButton::Left, true);
    twice.set_button(MouseButton::Left, true);
    assert_eq!(
        once.button_pressed(MouseButton::Left),
        twice.button_pressed(MouseButton::Left)
    );
    assert_eq!(
        once.button_just_pressed(MouseButton::Left),
        twice.button_just_pressed(MouseButton::Left)
    );
    assert_eq!(
        once.button_just_released(MouseButton::Left),
        twice.button_just_released(MouseButton::Left)
    );
}

#[test]
fn repeated_release_is_idempotent() {
    let mut m = MouseContext::new();
    m.set_button(MouseButton::Left, true);
    m.save_mouse_state();
    m.set_button(MouseButton::Left, false);
    m.set_button(MouseButton::Left, false);
    assert!(!m.button_pressed(MouseButton::Left));
    assert!(m.button_just_released(MouseButton::Left));
}

#[test]
fn same_frame_flicker_is_not_an_edge_next_frame() {
    let mut m = MouseContext::new();
    m.set_button(MouseButton::Left, true);
    m.set_button(MouseButton::Left, false);
    assert!(!m.button_pressed(MouseButton::Left));
    m.save_mouse_state();
    assert!(!m.button_just_pressed(MouseButton::Left));
    assert!(!m.button_just_released(MouseButton::Left));
}

#[test]
fn release_of_never_pressed_button_is_a_no_op() {
    let mut m = MouseContext::new();
    m.set_button(MouseButton::Other(300), false);
    assert!(!m.button_pressed(MouseButton::Other(300)));
    assert!(!m.button_just_released(MouseButton::Other(300)));
}

#[test]
fn buttons_are_tracked_independently() {
    let mut m = MouseContext::new();
    m.set_button(MouseButton::Left, true);
    m.set_button(MouseButton::Right, true);
    m.save_mouse_state();
    m.set_button(MouseButton::Left, false);
    assert!(!m.button_pressed(MouseButton::Left));
    assert!(m.button_just_released(MouseButton::Left));
    assert!(m.button_pressed(MouseButton::Right));
    assert!(!m.button_just_released(MouseButton::Right));
    assert!(!m.button_pressed(MouseButton::Middle));
}

#[test]
fn full_press_release_scenario() {
    let mut m = MouseContext::new();
    m.set_button(MouseButton::Left, true);
    assert!(m.button_just_pressed(MouseButton::Left));
    assert!(m.button_pressed(MouseButton::Left));
    m.save_mouse_state();
    assert!(!m.button_just_pressed(MouseButton::Left));
    assert!(m.button_pressed(MouseButton::Left));
    m.set_button(MouseButton::Left, false);
    assert!(m.button_just_released(MouseButton::Left));
    m.save_mouse_state();
    assert!(!m.button_just_released(MouseButton::Left));
    assert!(!m.button_pressed(MouseButton::Left));
}
