//! The lesson that shows one image per arrow key.

use vstd::prelude::*;
use crate::console::{
    asset_line, asset_text, entry_line, entry_text, error_line, error_text, fixed_line,
    one_line, texts, three_lines, two_lines, BLIT_FAILED, EVENT_PUMP_FAILED, INIT_FAILED,
    LOAD_FAILED, MEDIA_FAILED, SDL_FAILED, SURFACE_FAILED, UPDATE_FAILED, WINDOW_FAILED,
};
use crate::event::{redraw_on_event, InputEvent, Step};
use crate::media::{distinct_keys, has_key, Asset};

verus! {

/// Key of the image shown while no arrow key selects another.
pub const DEFAULT_KEY: i32 = 0;

/// SDL's code of the right arrow key.
pub const KEY_RIGHT: i32 = 1073741903;

/// SDL's code of the left arrow key.
pub const KEY_LEFT: i32 = 1073741904;

/// SDL's code of the down arrow key.
pub const KEY_DOWN: i32 = 1073741905;

/// SDL's code of the up arrow key.
pub const KEY_UP: i32 = 1073741906;

/// The images of the lesson, in the order in which they are loaded.
pub open spec fn media_table() -> Seq<Asset> {
    seq![
        Asset { key: DEFAULT_KEY, path: "imgs/key_presses/press.bmp", label: "default" },
        Asset { key: KEY_UP, path: "imgs/key_presses/up.bmp", label: "up" },
        Asset { key: KEY_DOWN, path: "imgs/key_presses/down.bmp", label: "down" },
        Asset { key: KEY_LEFT, path: "imgs/key_presses/left.bmp", label: "left" },
        Asset { key: KEY_RIGHT, path: "imgs/key_presses/right.bmp", label: "right" },
    ]
}

/// Whether `keycode` is the code of one of the four arrow keys.
pub open spec fn is_arrow(keycode: i32) -> bool {
    keycode == KEY_UP || keycode == KEY_DOWN || keycode == KEY_LEFT || keycode == KEY_RIGHT
}

/// The key of the image shown after one poll of the event queue: an arrow
/// key selects its own image, any other key the default one, with or
/// without a key code, and everything else leaves the image as it is.
pub open spec fn next_key(current: i32, polled: Option<InputEvent>) -> i32 {
    match polled {
        Some(InputEvent::KeyDown { keycode: Some(code) }) => if is_arrow(code) {
            code
        } else {
            DEFAULT_KEY
        },
        Some(InputEvent::KeyDown { keycode: None }) => DEFAULT_KEY,
        _ => current,
    }
}

/// What can stop the lesson, each with what the lesson knows of it.
#[derive(Debug, PartialEq, Eq)]
pub enum Failure {
    /// SDL did not start.
    Sdl { error: String },
    /// The video subsystem did not start.
    Video { error: String },
    /// The window could not be made.
    Window { error: String },
    /// The event queue could not be opened.
    EventPump { error: String },
    /// The image file of `asset` could not be read.
    Load { asset: Asset, error: String },
    /// The window gave no surface to draw on.
    Surface { error: String },
    /// The image could not be copied to the window.
    Blit { error: String },
    /// The window could not be brought up to date.
    Update { error: String },
}

impl Failure {
    /// The lines that the lesson prints for this failure, first to last.
    pub open spec fn lines(self) -> Seq<Seq<char>> {
        match self {
            Failure::Sdl { error } => seq![error_text(SDL_FAILED@, error@), INIT_FAILED@],
            Failure::Video { error } => seq![error_text(WINDOW_FAILED@, error@), INIT_FAILED@],
            Failure::Window { error } => seq![error_text(WINDOW_FAILED@, error@), INIT_FAILED@],
            Failure::EventPump { error } => seq![error_text(EVENT_PUMP_FAILED@, error@)],
            Failure::Load { asset, error } => seq![
                asset_text(LOAD_FAILED@, asset.path@, error@),
                entry_text(asset.label@),
                MEDIA_FAILED@,
            ],
            Failure::Surface { error } => seq![error_text(SURFACE_FAILED@, error@)],
            Failure::Blit { error } => seq![error_text(BLIT_FAILED@, error@)],
            Failure::Update { error } => seq![error_text(UPDATE_FAILED@, error@)],
        }
    }

    /// Writes out the lines that the lesson prints for this failure.
    pub fn report(&self) -> (out: Vec<String>)
        ensures
            texts(out@) == self.lines(),
    {
        match self {
            Failure::Sdl { error } => two_lines(
                error_line(SDL_FAILED, error.as_str()),
                fixed_line(INIT_FAILED),
            ),
            Failure::Video { error } => two_lines(
                error_line(WINDOW_FAILED, error.as_str()),
                fixed_line(INIT_FAILED),
            ),
            Failure::Window { error } => two_lines(
                error_line(WINDOW_FAILED, error.as_str()),
                fixed_line(INIT_FAILED),
            ),
            Failure::EventPump { error } => one_line(
                error_line(EVENT_PUMP_FAILED, error.as_str()),
            ),
            Failure::Load { asset, error } => three_lines(
                asset_line(LOAD_FAILED, asset.path, error.as_str()),
                entry_line(asset.label),
                fixed_line(MEDIA_FAILED),
            ),
            Failure::Surface { error } => one_line(error_line(SURFACE_FAILED, error.as_str())),
            Failure::Blit { error } => one_line(error_line(BLIT_FAILED, error.as_str())),
            Failure::Update { error } => one_line(error_line(UPDATE_FAILED, error.as_str())),
        }
    }
}

/// The images of the lesson, in the order in which they are loaded. No two
/// share a key.
pub fn media() -> (table: Vec<Asset>)
    ensures
        table@ == media_table(),
        distinct_keys(table@),
{
    let mut table: Vec<Asset> = Vec::new();
    table.push(Asset { key: DEFAULT_KEY, path: "imgs/key_presses/press.bmp", label: "default" });
    table.push(Asset { key: KEY_UP, path: "imgs/key_presses/up.bmp", label: "up" });
    table.push(Asset { key: KEY_DOWN, path: "imgs/key_presses/down.bmp", label: "down" });
    table.push(Asset { key: KEY_LEFT, path: "imgs/key_presses/left.bmp", label: "left" });
    table.push(Asset { key: KEY_RIGHT, path: "imgs/key_presses/right.bmp", label: "right" });
    assert(table@ =~= media_table());
    table
}

/// Handles one poll of the event queue: gives the key of the image to show
/// from now on, and what the loop does next. A key of the table leads to a
/// key of the table.
pub fn on_event(current: i32, polled: Option<InputEvent>) -> (next: (i32, Step))
    ensures
        next.0 == next_key(current, polled),
        next.1 == redraw_on_event(polled),
        has_key(media_table(), current) ==> has_key(media_table(), next.0),
{
    proof {
        lemma_table_keys();
    }
    match polled {
        None => (current, Step::Wait),
        Some(InputEvent::Quit) => (current, Step::Quit),
        Some(InputEvent::KeyDown { keycode: Some(code) }) => {
            if code == KEY_UP || code == KEY_DOWN || code == KEY_LEFT || code == KEY_RIGHT {
                (code, Step::Redraw)
            } else {
                (DEFAULT_KEY, Step::Redraw)
            }
        },
        Some(InputEvent::KeyDown { keycode: None }) => (DEFAULT_KEY, Step::Redraw),
        Some(_) => (current, Step::Redraw),
    }
}

/// The table holds the default key and the four arrow keys, and nothing else.
pub proof fn lemma_table_keys()
    ensures
        forall|key: i32| #[trigger]
            has_key(media_table(), key) <==> (key == DEFAULT_KEY || is_arrow(key)),
{
    let table = media_table();
    assert(table[0].key == DEFAULT_KEY);
    assert(table[1].key == KEY_UP);
    assert(table[2].key == KEY_DOWN);
    assert(table[3].key == KEY_LEFT);
    assert(table[4].key == KEY_RIGHT);
}

} // verus!
