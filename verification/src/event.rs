//! Input events as the lessons read them, and what a lesson's loop does next.

use vstd::prelude::*;

verus! {

/// An input event, reduced to what the lessons look at.
#[derive(Clone, Copy, Debug, PartialEq, Eq)]
pub enum InputEvent {
    /// The user asked to close the window.
    Quit,
    /// A key went down. `keycode` is SDL's code of the key, where it has one.
    KeyDown { keycode: Option<i32> },
    /// A button of a game controller went down. `button` is SDL's code of it.
    ControllerButtonDown { button: i32 },
    /// Any other event.
    Other,
}

/// What a lesson's loop does after one poll of the event queue.
#[derive(Clone, Copy, Debug, PartialEq, Eq)]
pub enum Step {
    /// Leave the loop.
    Quit,
    /// Poll again without drawing.
    Wait,
    /// Draw, then poll again.
    Redraw,
}

/// The step of a loop that only waits for the window to be closed.
pub open spec fn until_quit(polled: Option<InputEvent>) -> Step {
    if polled == Some(InputEvent::Quit) {
        Step::Quit
    } else {
        Step::Wait
    }
}

/// The step of a loop that draws after every event but the request to quit,
/// and does nothing while the queue is empty.
pub open spec fn redraw_on_event(polled: Option<InputEvent>) -> Step {
    match polled {
        None => Step::Wait,
        Some(InputEvent::Quit) => Step::Quit,
        Some(_) => Step::Redraw,
    }
}

/// Decides the step of a loop that only waits for the window to be closed.
pub fn wait_for_quit(polled: Option<InputEvent>) -> (step: Step)
    ensures
        step == until_quit(polled),
{
    match polled {
        Some(InputEvent::Quit) => Step::Quit,
        _ => Step::Wait,
    }
}

/// Decides the step of a loop that draws after every event.
pub fn draw_after_event(polled: Option<InputEvent>) -> (step: Step)
    ensures
        step == redraw_on_event(polled),
{
    match polled {
        None => Step::Wait,
        Some(InputEvent::Quit) => Step::Quit,
        Some(_) => Step::Redraw,
    }
}

/// Either kind of loop ends on the request to quit and on nothing else, and
/// neither draws while the queue is empty.
pub proof fn lemma_only_quit_ends_a_loop(polled: Option<InputEvent>)
    ensures
        until_quit(polled) == Step::Quit <==> polled == Some(InputEvent::Quit),
        redraw_on_event(polled) == Step::Quit <==> polled == Some(InputEvent::Quit),
        until_quit(polled) != Step::Redraw,
        polled is None ==> redraw_on_event(polled) == Step::Wait,
{
}

} // verus!
