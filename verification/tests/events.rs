use lazy_foo::event::{draw_after_event, wait_for_quit, InputEvent, Step};

#[test]
fn quit_ends_a_waiting_loop() {
    assert_eq!(wait_for_quit(Some(InputEvent::Quit)), Step::Quit);
}

#[test]
fn a_waiting_loop_draws_nothing() {
    assert_eq!(wait_for_quit(None), Step::Wait);
    assert_eq!(wait_for_quit(Some(InputEvent::Other)), Step::Wait);
    assert_eq!(wait_for_quit(Some(InputEvent::KeyDown { keycode: Some(27) })), Step::Wait);
    assert_eq!(wait_for_quit(Some(InputEvent::KeyDown { keycode: None })), Step::Wait);
    assert_eq!(wait_for_quit(Some(InputEvent::ControllerButtonDown { button: 0 })), Step::Wait);
}

#[test]
fn quit_ends_a_drawing_loop() {
    assert_eq!(draw_after_event(Some(InputEvent::Quit)), Step::Quit);
}

#[test]
fn a_drawing_loop_waits_while_the_queue_is_empty() {
    assert_eq!(draw_after_event(None), Step::Wait);
}

#[test]
fn a_drawing_loop_draws_after_every_other_event() {
    assert_eq!(draw_after_event(Some(InputEvent::Other)), Step::Redraw);
    assert_eq!(draw_after_event(Some(InputEvent::KeyDown { keycode: Some(27) })), Step::Redraw);
    assert_eq!(draw_after_event(Some(InputEvent::KeyDown { keycode: None })), Step::Redraw);
    assert_eq!(
        draw_after_event(Some(InputEvent::ControllerButtonDown { button: 3 })),
        Step::Redraw
    );
}
