//! The lesson that loads a PNG image into a texture and lets the renderer
//! copy it to the window.

use vstd::prelude::*;
use crate::console::{
    asset_line, asset_text, entry_line, entry_text, error_line, error_text, fixed_line,
    one_line, texts, three_lines, two_lines, EVENT_PUMP_FAILED, IMAGE_SUPPORT_FAILED,
    INIT_FAILED, LOAD_FAILED, MEDIA_FAILED, RENDERER_FAILED, SDL_FAILED, WINDOW_FAILED,
};
use crate::event::{draw_after_event, redraw_on_event, InputEvent, Step};
use crate::shape::Pen;

verus! {

/// The image that the lesson shows.
pub const IMAGE: &'static str = "imgs/texture_loading/texture.png";

/// How the console names the image when it cannot be loaded.
pub const IMAGE_LABEL: &'static str = "PNG";

/// Opens the line for an image that could not be made a texture; path and
/// error follow.
pub const TEXTURE_FAILED: &'static str = "Unable to create texture from ";

/// Opens the line for a texture that could not be copied to the window; the
/// error follows.
pub const COPY_FAILED: &'static str = "Unable to copy texture! SDL Error: ";

/// What can stop the lesson, each with what the lesson knows of it.
#[derive(Debug, PartialEq, Eq)]
pub enum Failure {
    /// SDL did not start.
    Sdl { error: String },
    /// The video subsystem did not start.
    Video { error: String },
    /// The window could not be made.
    Window { error: String },
    /// The renderer could not be made.
    Renderer { error: String },
    /// The loader for PNG images did not start.
    ImageSupport { error: String },
    /// The image file could not be read.
    Load { error: String },
    /// The image could not be made a texture.
    Texture { error: String },
    /// The event queue could not be opened.
    EventPump { error: String },
    /// The texture could not be copied to the window.
    Copy { error: String },
}

impl Failure {
    /// The lines that the lesson prints for this failure, first to last.
    pub open spec fn lines(self) -> Seq<Seq<char>> {
        match self {
            Failure::Sdl { error } => seq![error_text(SDL_FAILED@, error@), INIT_FAILED@],
            Failure::Video { error } => seq![error_text(WINDOW_FAILED@, error@), INIT_FAILED@],
            Failure::Window { error } => seq![error_text(WINDOW_FAILED@, error@), INIT_FAILED@],
            Failure::Renderer { error } => seq![
                error_text(RENDERER_FAILED@, error@),
                INIT_FAILED@,
            ],
            Failure::ImageSupport { error } => seq![
                error_text(IMAGE_SUPPORT_FAILED@, error@),
                INIT_FAILED@,
            ],
            Failure::Load { error } => seq![
                asset_text(LOAD_FAILED@, IMAGE@, error@),
                entry_text(IMAGE_LABEL@),
                MEDIA_FAILED@,
            ],
            Failure::Texture { error } => seq![
                asset_text(TEXTURE_FAILED@, IMAGE@, error@),
                entry_text(IMAGE_LABEL@),
                MEDIA_FAILED@,
            ],
            Failure::EventPump { error } => seq![error_text(EVENT_PUMP_FAILED@, error@)],
            Failure::Copy { error } => seq![error_text(COPY_FAILED@, error@)],
        }
    }

    /// Writes out the lines that the lesson prints for this failure.
    pub fn report(&self) -> (out: Vec<String>)
        ensures
            texts(out@) == self.lines(),
    {
        match self {
            Failure::Sdl { error } => two_lines(
                error_line(SDL_FAILED, error.as_str()),
                fixed_line(INIT_FAILED),
            ),
            Failure::Video { error } => two_lines(
                error_line(WINDOW_FAILED, error.as_str()),
                fixed_line(INIT_FAILED),
            ),
            Failure::Window { error } => two_lines(
                error_line(WINDOW_FAILED, error.as_str()),
                fixed_line(INIT_FAILED),
            ),
            Failure::Renderer { error } => two_lines(
                error_line(RENDERER_FAILED, error.as_str()),
                fixed_line(INIT_FAILED),
            ),
            Failure::ImageSupport { error } => two_lines(
                error_line(IMAGE_SUPPORT_FAILED, error.as_str()),
                fixed_line(INIT_FAILED),
            ),
            Failure::Load { error } => three_lines(
                asset_line(LOAD_FAILED, IMAGE, error.as_str()),
                entry_line(IMAGE_LABEL),
                fixed_line(MEDIA_FAILED),
            ),
            Failure::Texture { error } => three_lines(
                asset_line(TEXTURE_FAILED, IMAGE, error.as_str()),
                entry_line(IMAGE_LABEL),
                fixed_line(MEDIA_FAILED),
            ),
            Failure::EventPump { error } => one_line(
                error_line(EVENT_PUMP_FAILED, error.as_str()),
            ),
            Failure::Copy { error } => one_line(error_line(COPY_FAILED, error.as_str())),
        }
    }
}

/// The colour that the renderer is set to draw in once it exists: white.
pub fn draw_colour() -> (colour: Pen)
    ensures
        colour == Pen::White,
{
    Pen::White
}

/// Decides what the loop does after one poll of the event queue: it copies
/// the texture to the window after every event but the request to quit.
pub fn on_event(polled: Option<InputEvent>) -> (step: Step)
    ensures
        step == redraw_on_event(polled),
{
    draw_after_event(polled)
}

} // verus!
