//! The lines that the lessons write to the console.

use vstd::prelude::*;
use vstd::string::*;

verus! {

/// Opens the line for SDL failing to start; the error follows.
pub const SDL_FAILED: &'static str = "SDL could not initialize! SDL_Error: ";

/// Opens the line for a window that could not be made; the error follows.
pub const WINDOW_FAILED: &'static str = "Window could not be created! SDL_Error: %";

/// Opens the line for an event queue that could not be opened; the error follows.
pub const EVENT_PUMP_FAILED: &'static str = "Event pump could not be created! SDL_Error: %";

/// Opens the line for a window that gave no surface to draw on; the error follows.
pub const SURFACE_FAILED: &'static str = "Window surface could not be obtained! SDL_Error: ";

/// Opens the line for an image that could not be copied to the window; the
/// error follows.
pub const BLIT_FAILED: &'static str = "Unable to blit image! SDL Error: ";

/// Opens the line for a window that could not be brought up to date; the
/// error follows.
pub const UPDATE_FAILED: &'static str = "Unable to update window! SDL Error: ";

/// Opens the line for a renderer that could not be made; the error follows.
pub const RENDERER_FAILED: &'static str = "Renderer could not be created! SDL Error: ";

/// Opens the line for the image loader failing to start; the error follows.
pub const IMAGE_SUPPORT_FAILED: &'static str = "SDL_image could not initialize! SDL_image Error: ";

/// Opens the line for an image file that could not be read; path and error follow.
pub const LOAD_FAILED: &'static str = "Unable to load image ";

/// Opens the line for an image that could not be converted to the screen's
/// pixel format; path and error follow.
pub const OPTIMIZE_FAILED: &'static str = "Unable to optimize image ";

/// Stands between the path of an asset and the error in a line about it.
pub const ASSET_ERROR: &'static str = "! SDL Error: ";

/// The line of a lesson whose start-up failed.
pub const INIT_FAILED: &'static str = "Failed to initialize!";

/// The line of a lesson whose media could not be loaded.
pub const MEDIA_FAILED: &'static str = "Failed to load media!";

/// The line printed when the hint for linear texture filtering is refused.
pub const FILTERING_REFUSED: &'static str = "Warning: Linear texture filtering not enabled!";

/// The text of a line that names the error behind a failure.
pub open spec fn error_text(wording: Seq<char>, error: Seq<char>) -> Seq<char> {
    wording + error
}

/// The text of a line about an asset: the wording, the asset's path, and the
/// error after a fixed separator.
pub open spec fn asset_text(wording: Seq<char>, path: Seq<char>, error: Seq<char>) -> Seq<char> {
    wording + path + ASSET_ERROR@ + error
}

/// The text of the line for a table entry that could not be loaded.
pub open spec fn entry_text(label: Seq<char>) -> Seq<char> {
    "Failed to load "@ + label + " image!"@
}

/// What a list of lines says, line by line.
pub open spec fn texts(lines: Seq<String>) -> Seq<Seq<char>> {
    lines.map_values(|line: String| line@)
}

/// A line that names the error behind a failure.
pub fn error_line(wording: &str, error: &str) -> (line: String)
    ensures
        line@ == error_text(wording@, error@),
{
    let mut line = String::from_str(wording);
    line.append(error);
    line
}

/// A line about an asset that could not be brought into use.
pub fn asset_line(wording: &str, path: &str, error: &str) -> (line: String)
    ensures
        line@ == asset_text(wording@, path@, error@),
{
    let mut line = String::from_str(wording);
    line.append(path);
    line.append(ASSET_ERROR);
    line.append(error);
    line
}

/// The line for a table entry that could not be loaded.
pub fn entry_line(label: &str) -> (line: String)
    ensures
        line@ == entry_text(label@),
{
    let mut line = String::from_str("Failed to load ");
    line.append(label);
    line.append(" image!");
    line
}

/// A fixed line, as an owned string.
pub fn fixed_line(wording: &str) -> (line: String)
    ensures
        line@ == wording@,
{
    String::from_str(wording)
}

/// No lines: there is nothing to say.
pub fn silence() -> (lines: Vec<String>)
    ensures
        texts(lines@) == Seq::<Seq<char>>::empty(),
{
    let lines: Vec<String> = Vec::new();
    assert(texts(lines@) =~= Seq::<Seq<char>>::empty());
    lines
}

/// One line.
pub fn one_line(first: String) -> (lines: Vec<String>)
    ensures
        texts(lines@) == seq![first@],
{
    let mut lines: Vec<String> = Vec::new();
    lines.push(first);
    assert(texts(lines@) =~= seq![first@]);
    lines
}

/// Two lines, in the order given.
pub fn two_lines(first: String, second: String) -> (lines: Vec<String>)
    ensures
        texts(lines@) == seq![first@, second@],
{
    let mut lines: Vec<String> = Vec::new();
    lines.push(first);
    lines.push(second);
    assert(texts(lines@) =~= seq![first@, second@]);
    lines
}

/// Three lines, in the order given.
pub fn three_lines(first: String, second: String, third: String) -> (lines: Vec<String>)
    ensures
        texts(lines@) == seq![first@, second@, third@],
{
    let mut lines: Vec<String> = Vec::new();
    lines.push(first);
    lines.push(second);
    lines.push(third);
    assert(texts(lines@) =~= seq![first@, second@, third@]);
    lines
}

/// What a lesson prints after asking for linear texture filtering: nothing
/// when the hint was accepted, a warning when it was refused.
pub fn filtering_notice(accepted: bool) -> (lines: Vec<String>)
    ensures
        accepted ==> texts(lines@) == Seq::<Seq<char>>::empty(),
        !accepted ==> texts(lines@) == seq![FILTERING_REFUSED@],
{
    if accepted {
        silence()
    } else {
        one_line(fixed_line(FILTERING_REFUSED))
    }
}

} // verus!
