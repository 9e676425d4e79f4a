use vstd::prelude::*;

verus! {

/// COLORREF value of pure red (0x00bbggrr layout).
pub const RED: u32 = 0x0000_00FF;

/// COLORREF value of pure green.
pub const GREEN: u32 = 0x0000_FF00;

/// COLORREF value of pure blue.
pub const BLUE: u32 = 0x00FF_0000;

/// COLORREF value of white, the light text background that keeps dark text legible on red.
pub const WHITE: u32 = 0x00FF_FFFF;

/// The background selection: which colour the client area is filled with.
#[allow(non_camel_case_types)]
#[derive(Clone, Copy, Debug, PartialEq, Eq, Structural)]
pub enum WindowState {
    RED,
    GREEN,
    BLUE,
}

impl WindowState {
    /// The selection that follows `self` in the cycle BLUE, RED, GREEN.
    pub open spec fn successor(self) -> WindowState {
        match self {
            WindowState::BLUE => WindowState::RED,
            WindowState::RED => WindowState::GREEN,
            WindowState::GREEN => WindowState::BLUE,
        }
    }

    /// Advances the selection by one step of the cycle.
    pub fn next(&self) -> (r: WindowState)
        ensures
            r == self.successor(),
    {
        match self {
            WindowState::BLUE => WindowState::RED,
            WindowState::RED => WindowState::GREEN,
            WindowState::GREEN => WindowState::BLUE,
        }
    }
}

/// The solid colour the client area is filled with under a selection.
pub open spec fn fill_color_of(s: WindowState) -> u32 {
    match s {
        WindowState::RED => RED,
        WindowState::GREEN => GREEN,
        WindowState::BLUE => BLUE,
    }
}

/// The background behind the text under a selection: the fill colour itself,
/// except on red, where it is white.
pub open spec fn text_background_of(s: WindowState) -> u32 {
    match s {
        WindowState::RED => WHITE,
        WindowState::GREEN => GREEN,
        WindowState::BLUE => BLUE,
    }
}

/// A rectangle in the layout of a Win32 RECT.
#[derive(Clone, Copy, Debug, PartialEq, Eq, Structural)]
pub struct Rect {
    pub left: i32,
    pub top: i32,
    pub right: i32,
    pub bottom: i32,
}

/// The instruction drawn over the fill, starting at the origin.
pub open spec fn instruction_text() -> Seq<char> {
    "Please click the Button to change the window\u{2019}s color"@
}

/// Everything one paint pass draws: the filled area, its colour, the
/// background of the text, the text and where it starts.
#[derive(Clone, Copy, Debug, PartialEq, Eq)]
pub struct PaintPlan {
    pub fill_color: u32,
    pub text_background: u32,
    pub fill_rect: Rect,
    pub text: &'static str,
    pub text_x: i32,
    pub text_y: i32,
}

impl PaintPlan {
    /// Whether this is the plan for painting under `state` a window with the
    /// given bounds: the selection's fill and text background over
    /// `fill_rect_of(bounds)`, and the instruction text at the origin.
    pub open spec fn is_plan_for(self, state: WindowState, bounds: Rect) -> bool {
        &&& self.fill_color == fill_color_of(state)
        &&& self.text_background == text_background_of(state)
        &&& self.fill_rect == fill_rect_of(bounds)
        &&& self.text@ == instruction_text()
        &&& self.text_x == 0
        &&& self.text_y == 0
    }
}

/// Why a paint or a repaint cannot go ahead.
#[derive(Clone, Copy, Debug, PartialEq, Eq, Structural)]
pub enum PaintError {
    /// The window's bounds could not be obtained.
    NoBounds,
    /// The window's width or height does not fit in an `i32`.
    SizeOverflow,
}

/// Whether the width and the height of `bounds` fit in an `i32`.
pub open spec fn size_fits(bounds: Rect) -> bool {
    &&& i32::MIN <= bounds.right - bounds.left <= i32::MAX
    &&& i32::MIN <= bounds.bottom - bounds.top <= i32::MAX
}

/// The rectangle that is filled for a window with the given bounds: the
/// window's width and height, with the top-left corner at the origin,
/// whatever the window's position on the screen. The window's bounds
/// enclose its client area, so this covers the whole client area.
pub open spec fn fill_rect_of(bounds: Rect) -> Rect {
    Rect {
        left: 0,
        top: 0,
        right: (bounds.right - bounds.left) as i32,
        bottom: (bounds.bottom - bounds.top) as i32,
    }
}

/// The fill colour for a selection.
pub fn fill_color(s: &WindowState) -> (r: u32)
    ensures
        r == fill_color_of(*s),
{
    match s {
        WindowState::RED => RED,
        WindowState::GREEN => GREEN,
        WindowState::BLUE => BLUE,
    }
}

/// The text background for a selection.
pub fn text_background(s: &WindowState) -> (r: u32)
    ensures
        r == text_background_of(*s),
{
    match s {
        WindowState::RED => WHITE,
        WindowState::GREEN => GREEN,
        WindowState::BLUE => BLUE,
    }
}

/// Plans the paint of the client area under `state`, given the window's
/// bounds as the host reported them (`None` where it could not). The fill
/// covers the window's width and height from the origin, whatever the
/// window's position; the instruction text starts at the origin.
pub fn handling_paintmessage(state: &WindowState, window_bounds: Option<Rect>) -> (r: Result<
    PaintPlan,
    PaintError,
>)
    ensures
        window_bounds is None ==> r == Err::<PaintPlan, PaintError>(PaintError::NoBounds),
        window_bounds matches Some(b) && !size_fits(b) ==> r == Err::<PaintPlan, PaintError>(
            PaintError::SizeOverflow,
        ),
        window_bounds is Some && size_fits(window_bounds->0) ==> (r matches Ok(p)
            && p.is_plan_for(*state, window_bounds->0)),
{
    match window_bounds {
        None => Err(PaintError::NoBounds),
        Some(bounds) => {
            let width = bounds.right.checked_sub(bounds.left);
            let height = bounds.bottom.checked_sub(bounds.top);
            match (width, height) {
                (Some(w), Some(h)) => {
                    let mut rect = bounds;
                    rect.left = 0;
                    rect.top = 0;
                    rect.right = w;
                    rect.bottom = h;
                    let text = "Please click the Button to change the window\u{2019}s color";
                    proof {
                        reveal_strlit("Please click the Button to change the window\u{2019}s color");
                    }
                    Ok(
                        PaintPlan {
                            fill_color: fill_color(state),
                            text_background: text_background(state),
                            fill_rect: rect,
                            text,
                            text_x: 0,
                            text_y: 0,
                        },
                    )
                },
                _ => Err(PaintError::SizeOverflow),
            }
        },
    }
}

} // verus!
