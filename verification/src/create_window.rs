//! The lesson that opens a window, paints it white and waits to be closed.

use vstd::prelude::*;
use crate::console::{
    error_line, error_text, one_line, texts, SDL_FAILED, SURFACE_FAILED, UPDATE_FAILED,
};
use crate::event::{until_quit, wait_for_quit, InputEvent, Step};
use crate::shape::Rgb;

verus! {

/// Opens the line for anything between SDL and the window that could not be
/// had; the error follows.
pub const NO_WINDOW: &'static str = "Window could not be created! SDL_Error: ";

/// Opens the line for a surface that could not be painted; the error follows.
pub const FILL_FAILED: &'static str = "Unable to fill window! SDL Error: ";

/// What can stop the lesson, each with what the lesson knows of it.
#[derive(Debug, PartialEq, Eq)]
pub enum Failure {
    /// SDL did not start.
    Sdl { error: String },
    /// The video subsystem did not start.
    Video { error: String },
    /// The window could not be made.
    Window { error: String },
    /// The event queue could not be opened.
    EventPump { error: String },
    /// The window gave no surface to paint on.
    Surface { error: String },
    /// The surface could not be filled.
    Fill { error: String },
    /// The painted surface could not be shown.
    Update { error: String },
}

impl Failure {
    /// The lines that the lesson prints for this failure, first to last.
    pub open spec fn lines(self) -> Seq<Seq<char>> {
        match self {
            Failure::Sdl { error } => seq![error_text(SDL_FAILED@, error@)],
            Failure::Video { error } => seq![error_text(NO_WINDOW@, error@)],
            Failure::Window { error } => seq![error_text(NO_WINDOW@, error@)],
            Failure::EventPump { error } => seq![error_text(NO_WINDOW@, error@)],
            Failure::Surface { error } => seq![error_text(SURFACE_FAILED@, error@)],
            Failure::Fill { error } => seq![error_text(FILL_FAILED@, error@)],
            Failure::Update { error } => seq![error_text(UPDATE_FAILED@, error@)],
        }
    }

    /// Writes out the lines that the lesson prints for this failure.
    pub fn report(&self) -> (out: Vec<String>)
        ensures
            texts(out@) == self.lines(),
    {
        match self {
            Failure::Sdl { error } => one_line(error_line(SDL_FAILED, error.as_str())),
            Failure::Video { error } => one_line(error_line(NO_WINDOW, error.as_str())),
            Failure::Window { error } => one_line(error_line(NO_WINDOW, error.as_str())),
            Failure::EventPump { error } => one_line(error_line(NO_WINDOW, error.as_str())),
            Failure::Surface { error } => one_line(error_line(SURFACE_FAILED, error.as_str())),
            Failure::Fill { error } => one_line(error_line(FILL_FAILED, error.as_str())),
            Failure::Update { error } => one_line(error_line(UPDATE_FAILED, error.as_str())),
        }
    }
}

/// The colour that the window is painted in: white.
pub fn background() -> (colour: Rgb)
    ensures
        colour == (Rgb { red: 0xFF, green: 0xFF, blue: 0xFF }),
{
    Rgb { red: 0xFF, green: 0xFF, blue: 0xFF }
}

/// Decides what the loop does after one poll of the event queue: it leaves
/// on the request to quit and draws nothing otherwise.
pub fn on_event(polled: Option<InputEvent>) -> (step: Step)
    ensures
        step == until_quit(polled),
{
    wait_for_quit(polled)
}

} // verus!
