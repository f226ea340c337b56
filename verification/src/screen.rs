//! The window that every lesson opens.

use vstd::prelude::*;

verus! {

/// Width of the window, in pixels.
pub const SCREEN_WIDTH: u32 = 640;

/// Height of the window, in pixels.
pub const SCREEN_HEIGHT: u32 = 480;

/// Title of the window.
pub const WINDOW_TITLE: &'static str = "SDL Tutorial";

/// Name of the hint that selects how textures are scaled.
pub const SCALE_QUALITY_HINT: &'static str = "SDL_RENDER_SCALE_QUALITY";

/// Value of that hint which asks for linear filtering.
pub const LINEAR_FILTERING: &'static str = "1";

} // verus!
