//! The lesson that draws a filled area, an outline, a line and a dotted
//! column in every frame.

use vstd::prelude::*;
use crate::console::{
    error_line, error_text, fixed_line, one_line, texts, two_lines, EVENT_PUMP_FAILED,
    INIT_FAILED, RENDERER_FAILED, SDL_FAILED, WINDOW_FAILED,
};
use crate::event::{draw_after_event, redraw_on_event, InputEvent, Step};
use crate::shape::{Pen, Point, Rect};

verus! {

/// The vertical distance between two dots of the dotted column.
pub const DOT_SPACING: u32 = 4;

/// Opens the line for an instruction that the renderer could not carry out;
/// the error follows.
pub const DRAW_FAILED: &'static str = "Unable to draw! SDL Error: ";

/// One instruction to the renderer.
#[derive(Clone, Copy, Debug, PartialEq, Eq)]
pub enum Draw {
    /// Draw in this colour from now on.
    Color(Pen),
    /// Paint the whole window in the current colour.
    Clear,
    /// Fill an area.
    Fill(Rect),
    /// Draw the border of an area.
    Outline(Rect),
    /// Draw a line between two points.
    Line { from: Point, to: Point },
    /// Draw one point.
    Dot(Point),
    /// Show what was drawn.
    Present,
}

/// Whether a window of this size can be drawn on: both sides are positions
/// that a point can hold.
pub open spec fn drawable(width: u32, height: u32) -> bool {
    width <= i32::MAX && height <= i32::MAX
}

/// The filled area: the middle of the window, half as wide and half as high.
pub open spec fn filled_area(width: u32, height: u32) -> Rect {
    Rect { x: (width / 4) as i32, y: (height / 4) as i32, width: width / 2, height: height / 2 }
}

/// The outlined area: two thirds of the window, a sixth in from the top left.
pub open spec fn outlined_area(width: u32, height: u32) -> Rect {
    Rect {
        x: (width / 6) as i32,
        y: (height / 6) as i32,
        width: (width * 2 / 3) as u32,
        height: (height * 2 / 3) as u32,
    }
}

/// The left end of the line across the middle of the window.
pub open spec fn line_start(height: u32) -> Point {
    Point { x: 0, y: (height / 2) as i32 }
}

/// The right end of the line across the middle of the window.
pub open spec fn line_end(width: u32, height: u32) -> Point {
    Point { x: width as i32, y: (height / 2) as i32 }
}

/// How many dots the dotted column has: one per `DOT_SPACING` rows, from
/// the top row on.
pub open spec fn dot_count(height: u32) -> nat {
    ((height + DOT_SPACING - 1) / (DOT_SPACING as int)) as nat
}

/// The `index`-th dot of the column down the middle of the window.
pub open spec fn dot(width: u32, index: int) -> Point {
    Point { x: (width / 2) as i32, y: (DOT_SPACING * index) as i32 }
}

/// The instructions that open a frame, up to the colour of the dots.
pub open spec fn frame_head(width: u32, height: u32) -> Seq<Draw> {
    seq![
        Draw::Color(Pen::White),
        Draw::Clear,
        Draw::Color(Pen::Red),
        Draw::Fill(filled_area(width, height)),
        Draw::Color(Pen::Green),
        Draw::Outline(outlined_area(width, height)),
        Draw::Color(Pen::Blue),
        Draw::Line { from: line_start(height), to: line_end(width, height) },
        Draw::Color(Pen::Yellow),
    ]
}

/// The instructions that draw the dotted column, top to bottom.
pub open spec fn frame_dots(width: u32, height: u32) -> Seq<Draw> {
    Seq::new(dot_count(height), |index: int| Draw::Dot(dot(width, index)))
}

/// All instructions of one frame, in order.
pub open spec fn frame_plan(width: u32, height: u32) -> Seq<Draw> {
    frame_head(width, height) + frame_dots(width, height) + seq![Draw::Present]
}

/// What can stop the lesson, each with what the lesson knows of it.
#[derive(Debug, PartialEq, Eq)]
pub enum Failure {
    /// SDL did not start.
    Sdl { error: String },
    /// The video subsystem did not start.
    Video { error: String },
    /// The window could not be made.
    Window { error: String },
    /// The renderer could not be made.
    Renderer { error: String },
    /// The event queue could not be opened.
    EventPump { error: String },
    /// The renderer could not carry out an instruction of the frame.
    Draw { error: String },
}

impl Failure {
    /// The lines that the lesson prints for this failure, first to last.
    pub open spec fn lines(self) -> Seq<Seq<char>> {
        match self {
            Failure::Sdl { error } => seq![error_text(SDL_FAILED@, error@), INIT_FAILED@],
            Failure::Video { error } => seq![error_text(WINDOW_FAILED@, error@), INIT_FAILED@],
            Failure::Window { error } => seq![error_text(WINDOW_FAILED@, error@), INIT_FAILED@],
            Failure::Renderer { error } => seq![
                error_text(RENDERER_FAILED@, error@),
                INIT_FAILED@,
            ],
            Failure::EventPump { error } => seq![error_text(EVENT_PUMP_FAILED@, error@)],
            Failure::Draw { error } => seq![error_text(DRAW_FAILED@, error@)],
        }
    }

    /// Writes out the lines that the lesson prints for this failure.
    pub fn report(&self) -> (out: Vec<String>)
        ensures
            texts(out@) == self.lines(),
    {
        match self {
            Failure::Sdl { error } => two_lines(
                error_line(SDL_FAILED, error.as_str()),
                fixed_line(INIT_FAILED),
            ),
            Failure::Video { error } => two_lines(
                error_line(WINDOW_FAILED, error.as_str()),
                fixed_line(INIT_FAILED),
            ),
            Failure::Window { error } => two_lines(
                error_line(WINDOW_FAILED, error.as_str()),
                fixed_line(INIT_FAILED),
            ),
            Failure::Renderer { error } => two_lines(
                error_line(RENDERER_FAILED, error.as_str()),
                fixed_line(INIT_FAILED),
            ),
            Failure::EventPump { error } => one_line(
                error_line(EVENT_PUMP_FAILED, error.as_str()),
            ),
            Failure::Draw { error } => one_line(error_line(DRAW_FAILED, error.as_str())),
        }
    }
}

/// Every dot of the column lies on a row of the window, halfway across, and
/// `DOT_SPACING` rows below the dot before it.
pub proof fn lemma_dots_lie_in_the_window(width: u32, height: u32, index: int)
    requires
        drawable(width, height),
        0 <= index < dot_count(height),
    ensures
        0 <= dot(width, index).y < height,
        dot(width, index).x == width / 2,
        index > 0 ==> dot(width, index).y == dot(width, index - 1).y + DOT_SPACING,
{
}

/// A frame holds ten instructions besides its dots, and ends by showing
/// what was drawn.
pub proof fn lemma_frame_length(width: u32, height: u32)
    ensures
        frame_plan(width, height).len() == 10 + dot_count(height),
        frame_plan(width, height).last() == Draw::Present,
{
}

/// Decides what the loop does after one poll of the event queue: it draws a
/// frame after every event but the request to quit.
pub fn on_event(polled: Option<InputEvent>) -> (step: Step)
    ensures
        step == redraw_on_event(polled),
{
    draw_after_event(polled)
}

/// Lists the instructions of one frame for a window of the given size.
pub fn frame(width: u32, height: u32) -> (plan: Vec<Draw>)
    requires
        drawable(width, height),
    ensures
        plan@ == frame_plan(width, height),
{
    let mut plan: Vec<Draw> = Vec::new();
    plan.push(Draw::Color(Pen::White));
    plan.push(Draw::Clear);
    plan.push(Draw::Color(Pen::Red));
    plan.push(
        Draw::Fill(
            Rect {
                x: (width / 4) as i32,
                y: (height / 4) as i32,
                width: width / 2,
                height: height / 2,
            },
        ),
    );
    plan.push(Draw::Color(Pen::Green));
    plan.push(
        Draw::Outline(
            Rect {
                x: (width / 6) as i32,
                y: (height / 6) as i32,
                width: width * 2 / 3,
                height: height * 2 / 3,
            },
        ),
    );
    plan.push(Draw::Color(Pen::Blue));
    plan.push(
        Draw::Line {
            from: Point { x: 0, y: (height / 2) as i32 },
            to: Point { x: width as i32, y: (height / 2) as i32 },
        },
    );
    plan.push(Draw::Color(Pen::Yellow));
    assert(plan@ =~= frame_head(width, height));
    let mut row: u32 = 0;
    let ghost mut drawn: int = 0;
    while row < height
        invariant
            drawable(width, height),
            row == DOT_SPACING * drawn,
            0 <= drawn <= dot_count(height),
            plan@ == frame_head(width, height) + frame_dots(width, height).take(drawn),
        decreases height + DOT_SPACING - row,
    {
        plan.push(Draw::Dot(Point { x: (width / 2) as i32, y: row as i32 }));
        proof {
            assert(frame_dots(width, height).take(drawn + 1) =~= frame_dots(width, height).take(
                drawn,
            ).push(Draw::Dot(dot(width, drawn))));
            drawn = drawn + 1;
        }
        row = row + DOT_SPACING;
    }
    assert(frame_dots(width, height).take(drawn) =~= frame_dots(width, height));
    plan.push(Draw::Present);
    plan
}

} // verus!
