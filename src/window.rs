use vstd::prelude::*;

use crate::paint::{PaintError, Rect, WindowState};

verus! {

/// Message code sent once when the window is created.
pub const WM_CREATE: u32 = 0x0001;

/// Message code sent when the window is destroyed.
pub const WM_DESTROY: u32 = 0x0002;

/// Message code sent after the window has been resized.
pub const WM_SIZE: u32 = 0x0005;

/// Message code asking the window to paint its client area.
pub const WM_PAINT: u32 = 0x000F;

/// Message code sent when a control, such as the button, is activated.
pub const WM_COMMAND: u32 = 0x0111;

/// Position of the button inside the client area.
pub const BUTTON_X: i32 = 300;

pub const BUTTON_Y: i32 = 300;

/// Size of the button.
pub const BUTTON_WIDTH: i32 = 100;

pub const BUTTON_HEIGHT: i32 = 100;

/// A window message, sorted by the kinds that the window handles.
#[derive(Clone, Copy, Debug, PartialEq, Eq, Structural)]
pub enum Message {
    Create,
    Destroy,
    Size,
    Paint,
    Command { wparam: usize, lparam: isize },
    Other { message: u32, wparam: usize, lparam: isize },
}

/// The kind of a raw message with its two context parameters.
pub open spec fn message_of(message: u32, wparam: usize, lparam: isize) -> Message {
    if message == WM_CREATE {
        Message::Create
    } else if message == WM_DESTROY {
        Message::Destroy
    } else if message == WM_SIZE {
        Message::Size
    } else if message == WM_PAINT {
        Message::Paint
    } else if message == WM_COMMAND {
        Message::Command { wparam, lparam }
    } else {
        Message::Other { message, wparam, lparam }
    }
}

impl Message {
    /// Sorts a raw message code with its two context parameters.
    pub fn classify(message: u32, wparam: usize, lparam: isize) -> (r: Message)
        ensures
            r == message_of(message, wparam, lparam),
    {
        if message == WM_CREATE {
            Message::Create
        } else if message == WM_DESTROY {
            Message::Destroy
        } else if message == WM_SIZE {
            Message::Size
        } else if message == WM_PAINT {
            Message::Paint
        } else if message == WM_COMMAND {
            Message::Command { wparam, lparam }
        } else {
            Message::Other { message, wparam, lparam }
        }
    }
}

/// Text on the button.
pub const BUTTON_LABEL: &'static str = "OK";

/// A child push button of the window: its label and its placement in the
/// client area.
#[derive(Clone, Copy, Debug, PartialEq, Eq)]
pub struct ButtonSpec {
    pub label: &'static str,
    pub x: i32,
    pub y: i32,
    pub width: i32,
    pub height: i32,
}

/// A request to redraw part of the window, with the redraw options used here.
#[derive(Clone, Copy, Debug, PartialEq, Eq, Structural)]
pub struct RedrawRequest {
    pub region: Rect,
    pub erase: bool,
    pub invalidate: bool,
    pub all_children: bool,
    pub update_now: bool,
}

/// What the host is to do for a message, and what the window procedure returns.
#[derive(Clone, Copy, Debug, PartialEq, Eq)]
pub enum Reply {
    /// Run the paint routine under this selection, then return 0.
    Paint(WindowState),
    /// Return 0 and do nothing else.
    Acknowledge,
    /// Obtain the window's bounds, hand them to `full_window_redraw`, and
    /// issue the request it gives; then return 0.
    RepaintWindow,
    /// Create the one button as a child of the window, issue the redraw
    /// request, then return 0.
    CreateButton { button: ButtonSpec, redraw: RedrawRequest },
    /// Post a quit message with this exit code, then return 0.
    Quit { exit_code: i32 },
    /// A command that the window did not expect: stop the process, showing
    /// both context parameters.
    Abort { wparam: usize, lparam: isize },
    /// Leave the message to the host's default handling.
    Default,
}

/// The one button: labelled "OK", at (300, 300), 100 by 100.
pub open spec fn the_button() -> ButtonSpec {
    ButtonSpec { label: BUTTON_LABEL, x: BUTTON_X, y: BUTTON_Y, width: BUTTON_WIDTH, height: BUTTON_HEIGHT }
}

/// The redraw issued right after the button is created: an empty region,
/// updated at once, children included.
pub open spec fn creation_redraw() -> RedrawRequest {
    RedrawRequest {
        region: Rect { left: 0, top: 0, right: 0, bottom: 0 },
        erase: false,
        invalidate: false,
        all_children: true,
        update_now: true,
    }
}

/// The repaint after a selection change: the whole window bounds, erased and
/// invalidated, children included.
pub open spec fn full_redraw_of(bounds: Rect) -> RedrawRequest {
    RedrawRequest {
        region: bounds,
        erase: true,
        invalidate: true,
        all_children: true,
        update_now: false,
    }
}

/// Whether a message is an activation of the button.
pub open spec fn is_activation(message: Message) -> bool {
    message matches Message::Command { wparam, .. } && wparam == 0
}

/// The selection after handling `message` under `s`.
pub open spec fn selection_after(s: WindowState, message: Message) -> WindowState {
    if is_activation(message) {
        s.successor()
    } else {
        s
    }
}

/// What the window answers to `message` under the selection `s`.
pub open spec fn reply_to(s: WindowState, message: Message) -> Reply {
    match message {
        Message::Paint => Reply::Paint(s),
        Message::Size => Reply::Acknowledge,
        Message::Command { wparam, lparam } => if wparam == 0 {
            Reply::RepaintWindow
        } else {
            Reply::Abort { wparam, lparam }
        },
        Message::Create => Reply::CreateButton { button: the_button(), redraw: creation_redraw() },
        Message::Destroy => Reply::Quit { exit_code: 0 },
        Message::Other { .. } => Reply::Default,
    }
}

/// The selection after handling every message of `messages` in order,
/// starting from `s`.
pub open spec fn selection_after_all(s: WindowState, messages: Seq<Message>) -> WindowState
    decreases messages.len(),
{
    if messages.len() == 0 {
        s
    } else {
        selection_after(selection_after_all(s, messages.drop_last()), messages.last())
    }
}

/// Starting from BLUE, a run of `n` button activations leaves the selection
/// at position `n mod 3` of the cycle BLUE, RED, GREEN.
pub proof fn lemma_activations_cycle(messages: Seq<Message>)
    requires
        forall|i: int| 0 <= i < messages.len() ==> is_activation(#[trigger] messages[i]),
    ensures
        selection_after_all(WindowState::BLUE, messages) == seq![
            WindowState::BLUE,
            WindowState::RED,
            WindowState::GREEN,
        ][(messages.len() % 3) as int],
    decreases messages.len(),
{
    if messages.len() > 0 {
        let rest = messages.drop_last();
        assert forall|i: int| 0 <= i < rest.len() implies is_activation(#[trigger] rest[i]) by {
            assert(rest[i] == messages[i]);
        }
        lemma_activations_cycle(rest);
        assert(is_activation(messages[messages.len() - 1]));
    }
}

/// The window controller: owns the background selection and decides what
/// each message does to it.
pub struct Controller {
    state: WindowState,
}

impl Controller {
    /// The current background selection.
    pub closed spec fn selection(self) -> WindowState {
        self.state
    }

    /// A controller at the initial selection, BLUE.
    pub fn new() -> (r: Controller)
        ensures
            r.selection() == WindowState::BLUE,
    {
        Controller { state: WindowState::BLUE }
    }

    /// The current background selection.
    pub fn state(&self) -> (r: WindowState)
        ensures
            r == self.selection(),
    {
        self.state
    }

    /// Handles one message. Only an activation of the button (a command
    /// whose first parameter is 0) changes the selection, by one step of the
    /// cycle; a command from any other origin is answered with `Abort`.
    pub fn handle(&mut self, message: Message) -> (r: Reply)
        ensures
            r == reply_to(old(self).selection(), message),
            final(self).selection() == selection_after(old(self).selection(), message),
    {
        match message {
            Message::Paint => Reply::Paint(self.state),
            Message::Size => Reply::Acknowledge,
            Message::Command { wparam, lparam } => {
                if wparam == 0 {
                    self.state = self.state.next();
                    Reply::RepaintWindow
                } else {
                    Reply::Abort { wparam, lparam }
                }
            },
            Message::Create => Reply::CreateButton {
                button: ButtonSpec {
                    label: BUTTON_LABEL,
                    x: BUTTON_X,
                    y: BUTTON_Y,
                    width: BUTTON_WIDTH,
                    height: BUTTON_HEIGHT,
                },
                redraw: RedrawRequest {
                    region: Rect { left: 0, top: 0, right: 0, bottom: 0 },
                    erase: false,
                    invalidate: false,
                    all_children: true,
                    update_now: true,
                },
            },
            Message::Destroy => Reply::Quit { exit_code: 0 },
            Message::Other { .. } => Reply::Default,
        }
    }
}

/// The repaint request after a selection change, given the window's bounds
/// as the host reported them (`None` where it could not).
pub fn full_window_redraw(bounds: Option<Rect>) -> (r: Result<RedrawRequest, PaintError>)
    ensures
        bounds is None ==> r == Err::<RedrawRequest, PaintError>(PaintError::NoBounds),
        bounds matches Some(b) ==> r == Ok::<RedrawRequest, PaintError>(full_redraw_of(b)),
{
    match bounds {
        None => Err(PaintError::NoBounds),
        Some(b) => Ok(
            RedrawRequest {
                region: b,
                erase: true,
                invalidate: true,
                all_children: true,
                update_now: false,
            },
        ),
    }
}

} // verus!
