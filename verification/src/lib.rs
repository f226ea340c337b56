//! The decisions behind a series of small SDL lessons, kept apart from SDL itself.
//!
//! Every lesson opens a window, loads a few fixed images and then polls input
//! in a loop. What a lesson prints when a step fails, which image it shows
//! after an input event, what it draws in a frame and which files it loads is
//! decided here, on plain values. The program around this library makes the
//! SDL calls and hands their outcomes in.

pub mod console;
pub mod event;
pub mod media;
pub mod screen;
pub mod shape;

pub mod create_window;
pub mod gamepads_and_joysticks;
pub mod geometry_rendering;
pub mod image_screen;
pub mod key_presses;
pub mod loading_other_image;
pub mod optimized_surface;
pub mod texture_loading;
