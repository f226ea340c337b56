//! The lesson that loads a PNG image, converts it to the screen's pixel
//! format and stretches it over the whole window.

use vstd::prelude::*;
use crate::console::{
    asset_line, asset_text, entry_line, entry_text, error_line, error_text, fixed_line,
    one_line, texts, three_lines, two_lines, BLIT_FAILED, EVENT_PUMP_FAILED,
    IMAGE_SUPPORT_FAILED, INIT_FAILED, LOAD_FAILED, MEDIA_FAILED, OPTIMIZE_FAILED, SDL_FAILED,
    SURFACE_FAILED, UPDATE_FAILED, WINDOW_FAILED,
};
use crate::event::{draw_after_event, redraw_on_event, InputEvent, Step};
use crate::screen::{SCREEN_HEIGHT, SCREEN_WIDTH};
use crate::shape::Rect;

verus! {

/// The image that the lesson shows.
pub const IMAGE: &'static str = "imgs/loading_other_image/loaded.png";

/// How the console names the image when it cannot be loaded.
pub const IMAGE_LABEL: &'static str = "PNG";

/// What can stop the lesson, each with what the lesson knows of it.
#[derive(Debug, PartialEq, Eq)]
pub enum Failure {
    /// SDL did not start.
    Sdl { error: String },
    /// The video subsystem did not start.
    Video { error: String },
    /// The window could not be made.
    Window { error: String },
    /// The loader for PNG images did not start.
    ImageSupport { error: String },
    /// The image file could not be read.
    Load { error: String },
    /// The image could not be converted to the screen's pixel format.
    Optimize { error: String },
    /// The event queue could not be opened.
    EventPump { error: String },
    /// The window gave no surface to draw on.
    Surface { error: String },
    /// The image could not be copied to the window.
    Blit { error: String },
    /// The window could not be brought up to date.
    Update { error: String },
}

impl Failure {
    /// The lines that the lesson prints for this failure, first to last.
    pub open spec fn lines(self) -> Seq<Seq<char>> {
        match self {
            Failure::Sdl { error } => seq![error_text(SDL_FAILED@, error@), INIT_FAILED@],
            Failure::Video { error } => seq![error_text(WINDOW_FAILED@, error@), INIT_FAILED@],
            Failure::Window { error } => seq![error_text(WINDOW_FAILED@, error@), INIT_FAILED@],
            Failure::ImageSupport { error } => seq![
                error_text(IMAGE_SUPPORT_FAILED@, error@),
                INIT_FAILED@,
            ],
            Failure::Load { error } => seq![
                asset_text(LOAD_FAILED@, IMAGE@, error@),
                entry_text(IMAGE_LABEL@),
                MEDIA_FAILED@,
            ],
            Failure::Optimize { error } => seq![
                asset_text(OPTIMIZE_FAILED@, IMAGE@, error@),
                entry_text(IMAGE_LABEL@),
                MEDIA_FAILED@,
            ],
            Failure::EventPump { error } => seq![error_text(EVENT_PUMP_FAILED@, error@)],
            Failure::Surface { error } => seq![error_text(SURFACE_FAILED@, error@)],
            Failure::Blit { error } => seq![error_text(BLIT_FAILED@, error@)],
            Failure::Update { error } => seq![error_text(UPDATE_FAILED@, error@)],
        }
    }

    /// Writes out the lines that the lesson prints for this failure.
    pub fn report(&self) -> (out: Vec<String>)
        ensures
            texts(out@) == self.lines(),
    {
        match self {
            Failure::Sdl { error } => two_lines(
                error_line(SDL_FAILED, error.as_str()),
                fixed_line(INIT_FAILED),
            ),
            Failure::Video { error } => two_lines(
                error_line(WINDOW_FAILED, error.as_str()),
                fixed_line(INIT_FAILED),
            ),
            Failure::Window { error } => two_lines(
                error_line(WINDOW_FAILED, error.as_str()),
                fixed_line(INIT_FAILED),
            ),
            Failure::ImageSupport { error } => two_lines(
                error_line(IMAGE_SUPPORT_FAILED, error.as_str()),
                fixed_line(INIT_FAILED),
            ),
            Failure::Load { error } => three_lines(
                asset_line(LOAD_FAILED, IMAGE, error.as_str()),
                entry_line(IMAGE_LABEL),
                fixed_line(MEDIA_FAILED),
            ),
            Failure::Optimize { error } => three_lines(
                asset_line(OPTIMIZE_FAILED, IMAGE, error.as_str()),
                entry_line(IMAGE_LABEL),
                fixed_line(MEDIA_FAILED),
            ),
            Failure::EventPump { error } => one_line(
                error_line(EVENT_PUMP_FAILED, error.as_str()),
            ),
            Failure::Surface { error } => one_line(error_line(SURFACE_FAILED, error.as_str())),
            Failure::Blit { error } => one_line(error_line(BLIT_FAILED, error.as_str())),
            Failure::Update { error } => one_line(error_line(UPDATE_FAILED, error.as_str())),
        }
    }
}

/// The area that the image is stretched over: the whole window.
pub fn stretch_area() -> (area: Rect)
    ensures
        area == (Rect { x: 0, y: 0, width: SCREEN_WIDTH, height: SCREEN_HEIGHT }),
{
    Rect { x: 0, y: 0, width: SCREEN_WIDTH, height: SCREEN_HEIGHT }
}

/// Decides what the loop does after one poll of the event queue: it draws
/// the stretched image after every event but the request to quit.
pub fn on_event(polled: Option<InputEvent>) -> (step: Step)
    ensures
        step == redraw_on_event(polled),
{
    draw_after_event(polled)
}

} // verus!
