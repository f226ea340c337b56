//! The lesson that shows one image per face button of a game controller.

use vstd::prelude::*;
use crate::console::{
    asset_line, asset_text, entry_line, entry_text, error_line, error_text, fixed_line,
    one_line, texts, three_lines, two_lines, BLIT_FAILED, EVENT_PUMP_FAILED, INIT_FAILED,
    LOAD_FAILED, MEDIA_FAILED, SDL_FAILED, SURFACE_FAILED, UPDATE_FAILED, WINDOW_FAILED,
};
use crate::event::{InputEvent, Step};
use crate::media::{distinct_keys, has_key, Asset};

verus! {

/// Key of the image shown while no face button selects another.
pub const DEFAULT_KEY: i32 = -2;

/// SDL's code of the controller button A.
pub const BUTTON_A: i32 = 0;

/// SDL's code of the controller button B.
pub const BUTTON_B: i32 = 1;

/// SDL's code of the controller button X.
pub const BUTTON_X: i32 = 2;

/// SDL's code of the controller button Y.
pub const BUTTON_Y: i32 = 3;

/// The file of controller mappings that the lesson loads.
pub const MAPPING_FILE: &'static str = "controller_mapping.txt";

/// The mode in which the file of mappings is opened.
pub const MAPPING_MODE: &'static str = "rb";

/// Index of the controller that the lesson opens.
pub const CONTROLLER_INDEX: u32 = 0;

/// Opens the line for the controller subsystem failing to start; the error follows.
pub const CONTROLLER_FAILED: &'static str = "SDL could not initialize! SDL Error: ";

/// Opens the line for controller mappings that could not be read; the file
/// and the error follow.
pub const MAPPING_FAILED: &'static str = "Unable to load controller mappings ";

/// Opens the line for joysticks that could not be counted; the error follows.
pub const COUNT_FAILED: &'static str = "Unable to count joysticks! SDL Error: ";

/// Opens the line for a controller that could not be opened; the error follows.
pub const OPEN_FAILED: &'static str = "Unable to open game controller! SDL Error: ";

/// The line printed when no joystick is attached.
pub const NO_JOYSTICK: &'static str = "Warning: No joysticks connected!";

/// The images of the lesson, in the order in which they are loaded.
pub open spec fn media_table() -> Seq<Asset> {
    seq![
        Asset { key: DEFAULT_KEY, path: "imgs/gamepads_and_joysticks/press.bmp", label: "default" },
        Asset { key: BUTTON_A, path: "imgs/gamepads_and_joysticks/A.bmp", label: "up" },
        Asset { key: BUTTON_B, path: "imgs/gamepads_and_joysticks/B.bmp", label: "down" },
        Asset { key: BUTTON_X, path: "imgs/gamepads_and_joysticks/X.bmp", label: "left" },
        Asset { key: BUTTON_Y, path: "imgs/gamepads_and_joysticks/Y.bmp", label: "right" },
    ]
}

/// Whether `button` is one of the four face buttons.
pub open spec fn is_face_button(button: i32) -> bool {
    button == BUTTON_A || button == BUTTON_B || button == BUTTON_X || button == BUTTON_Y
}

/// The key of the image shown after one poll of the event queue: a face
/// button selects its own image, any other button and any key the default
/// one, and everything else leaves the image as it is.
pub open spec fn next_key(current: i32, polled: Option<InputEvent>) -> i32 {
    match polled {
        Some(InputEvent::ControllerButtonDown { button }) => if is_face_button(button) {
            button
        } else {
            DEFAULT_KEY
        },
        Some(InputEvent::KeyDown { .. }) => DEFAULT_KEY,
        _ => current,
    }
}

/// What can stop the lesson, each with what the lesson knows of it.
#[derive(Debug, PartialEq, Eq)]
pub enum Failure {
    /// SDL did not start.
    Sdl { error: String },
    /// The video subsystem did not start.
    Video { error: String },
    /// The window could not be made.
    Window { error: String },
    /// The image file of `asset` could not be read.
    Load { asset: Asset, error: String },
    /// The controller subsystem did not start.
    Controller { error: String },
    /// The file of controller mappings could not be opened or read.
    Mapping { error: String },
    /// The joysticks could not be counted.
    JoystickCount { error: String },
    /// No joystick is attached.
    NoJoystick,
    /// The controller could not be opened.
    OpenController { error: String },
    /// The event queue could not be opened.
    EventPump { error: String },
    /// The window gave no surface to draw on.
    Surface { error: String },
    /// The image could not be copied to the window.
    Blit { error: String },
    /// The window could not be brought up to date.
    Update { error: String },
}

impl Failure {
    /// The lines that the lesson prints for this failure, first to last.
    pub open spec fn lines(self) -> Seq<Seq<char>> {
        match self {
            Failure::Sdl { error } => seq![error_text(SDL_FAILED@, error@), INIT_FAILED@],
            Failure::Video { error } => seq![error_text(WINDOW_FAILED@, error@), INIT_FAILED@],
            Failure::Window { error } => seq![error_text(WINDOW_FAILED@, error@), INIT_FAILED@],
            Failure::Load { asset, error } => seq![
                asset_text(LOAD_FAILED@, asset.path@, error@),
                entry_text(asset.label@),
                MEDIA_FAILED@,
            ],
            Failure::Controller { error } => seq![error_text(CONTROLLER_FAILED@, error@)],
            Failure::Mapping { error } => seq![
                asset_text(MAPPING_FAILED@, MAPPING_FILE@, error@),
            ],
            Failure::JoystickCount { error } => seq![error_text(COUNT_FAILED@, error@)],
            Failure::NoJoystick => seq![NO_JOYSTICK@],
            Failure::OpenController { error } => seq![error_text(OPEN_FAILED@, error@)],
            Failure::EventPump { error } => seq![error_text(EVENT_PUMP_FAILED@, error@)],
            Failure::Surface { error } => seq![error_text(SURFACE_FAILED@, error@)],
            Failure::Blit { error } => seq![error_text(BLIT_FAILED@, error@)],
            Failure::Update { error } => seq![error_text(UPDATE_FAILED@, error@)],
        }
    }

    /// Writes out the lines that the lesson prints for this failure.
    pub fn report(&self) -> (out: Vec<String>)
        ensures
            texts(out@) == self.lines(),
    {
        match self {
            Failure::Sdl { error } => two_lines(
                error_line(SDL_FAILED, error.as_str()),
                fixed_line(INIT_FAILED),
            ),
            Failure::Video { error } => two_lines(
                error_line(WINDOW_FAILED, error.as_str()),
                fixed_line(INIT_FAILED),
            ),
            Failure::Window { error } => two_lines(
                error_line(WINDOW_FAILED, error.as_str()),
                fixed_line(INIT_FAILED),
            ),
            Failure::Load { asset, error } => three_lines(
                asset_line(LOAD_FAILED, asset.path, error.as_str()),
                entry_line(asset.label),
                fixed_line(MEDIA_FAILED),
            ),
            Failure::Controller { error } => one_line(
                error_line(CONTROLLER_FAILED, error.as_str()),
            ),
            Failure::Mapping { error } => one_line(
                asset_line(MAPPING_FAILED, MAPPING_FILE, error.as_str()),
            ),
            Failure::JoystickCount { error } => one_line(
                error_line(COUNT_FAILED, error.as_str()),
            ),
            Failure::NoJoystick => one_line(fixed_line(NO_JOYSTICK)),
            Failure::OpenController { error } => one_line(
                error_line(OPEN_FAILED, error.as_str()),
            ),
            Failure::EventPump { error } => one_line(
                error_line(EVENT_PUMP_FAILED, error.as_str()),
            ),
            Failure::Surface { error } => one_line(error_line(SURFACE_FAILED, error.as_str())),
            Failure::Blit { error } => one_line(error_line(BLIT_FAILED, error.as_str())),
            Failure::Update { error } => one_line(error_line(UPDATE_FAILED, error.as_str())),
        }
    }
}

/// The images of the lesson, in the order in which they are loaded. No two
/// share a key.
pub fn media() -> (table: Vec<Asset>)
    ensures
        table@ == media_table(),
        distinct_keys(table@),
{
    let mut table: Vec<Asset> = Vec::new();
    table.push(
        Asset { key: DEFAULT_KEY, path: "imgs/gamepads_and_joysticks/press.bmp", label: "default" },
    );
    table.push(Asset { key: BUTTON_A, path: "imgs/gamepads_and_joysticks/A.bmp", label: "up" });
    table.push(Asset { key: BUTTON_B, path: "imgs/gamepads_and_joysticks/B.bmp", label: "down" });
    table.push(Asset { key: BUTTON_X, path: "imgs/gamepads_and_joysticks/X.bmp", label: "left" });
    table.push(Asset { key: BUTTON_Y, path: "imgs/gamepads_and_joysticks/Y.bmp", label: "right" });
    assert(table@ =~= media_table());
    table
}

/// Checks that a joystick is attached, given how many SDL counts.
pub fn require_joystick(count: u32) -> (checked: Result<(), Failure>)
    ensures
        count >= 1 <==> checked is Ok,
        checked is Err ==> checked->Err_0 == Failure::NoJoystick,
{
    if count < 1 {
        Err(Failure::NoJoystick)
    } else {
        Ok(())
    }
}

/// Handles one poll of the event queue: gives the key of the image to show
/// from now on, and what the loop does next. A key of the table leads to a
/// key of the table.
pub fn on_event(current: i32, polled: Option<InputEvent>) -> (next: (i32, Step))
    ensures
        next.0 == next_key(current, polled),
        next.1 == crate::event::redraw_on_event(polled),
        has_key(media_table(), current) ==> has_key(media_table(), next.0),
{
    proof {
        lemma_table_keys();
    }
    match polled {
        None => (current, Step::Wait),
        Some(InputEvent::Quit) => (current, Step::Quit),
        Some(InputEvent::ControllerButtonDown { button }) => {
            if button == BUTTON_A || button == BUTTON_B || button == BUTTON_X || button == BUTTON_Y {
                (button, Step::Redraw)
            } else {
                (DEFAULT_KEY, Step::Redraw)
            }
        },
        Some(InputEvent::KeyDown { .. }) => (DEFAULT_KEY, Step::Redraw),
        Some(InputEvent::Other) => (current, Step::Redraw),
    }
}

/// The table holds the default key and the four face buttons, and nothing else.
pub proof fn lemma_table_keys()
    ensures
        forall|key: i32| #[trigger]
            has_key(media_table(), key) <==> (key == DEFAULT_KEY || is_face_button(key)),
{
    let table = media_table();
    assert(table[0].key == DEFAULT_KEY);
    assert(table[1].key == BUTTON_A);
    assert(table[2].key == BUTTON_B);
    assert(table[3].key == BUTTON_X);
    assert(table[4].key == BUTTON_Y);
}

} // verus!
