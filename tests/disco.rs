use windows_disco::paint::{
    fill_color, handling_paintmessage, text_background, PaintError, PaintPlan, Rect, WindowState,
    BLUE, GREEN, RED, WHITE,
};
use windows_disco::window::{
    full_window_redraw, ButtonSpec, Controller, Message, RedrawRequest, Reply, WM_COMMAND,
    BUTTON_LABEL, WM_CREATE, WM_DESTROY, WM_PAINT, WM_SIZE,
};

fn bounds() -> Rect {
    Rect { left: 120, top: 80, right: 920, bottom: 680 }
}

fn click() -> Message {
    Message::Command { wparam: 0, lparam: 0x1234 }
}

#[test]
fn one_activation_moves_to_red_and_repaints_whole_window() {
    let mut c = Controller::new();
    assert_eq!(c.state(), WindowState::BLUE);
    assert_eq!(c.handle(click()), Reply::RepaintWindow);
    assert_eq!(c.state(), WindowState::RED);
    let redraw = full_window_redraw(Some(bounds())).unwrap();
    assert_eq!(
        redraw,
        RedrawRequest {
            region: bounds(),
            erase: true,
            invalidate: true,
            all_children: true,
            update_now: false,
        }
    );
}

#[test]
fn three_activations_return_to_blue() {
    let mut c = Controller::new();
    for _ in 0..3 {
        assert_eq!(c.handle(click()), Reply::RepaintWindow);
    }
    assert_eq!(c.state(), WindowState::BLUE);
}

#[test]
fn activations_follow_the_cycle() {
    let cycle = [WindowState::BLUE, WindowState::RED, WindowState::GREEN];
    let mut c = Controller::new();
    for n in 0..10usize {
        assert_eq!(c.state(), cycle[n % 3]);
        c.handle(click());
    }
}

#[test]
fn creation_makes_one_button_and_one_redraw() {
    let mut c = Controller::new();
    let r = c.handle(Message::classify(WM_CREATE, 0, 0));
    assert_eq!(
        r,
        Reply::CreateButton {
            button: ButtonSpec { label: "OK", x: 300, y: 300, width: 100, height: 100 },
            redraw: RedrawRequest {
                region: Rect { left: 0, top: 0, right: 0, bottom: 0 },
                erase: false,
                invalidate: false,
                all_children: true,
                update_now: true,
            },
        }
    );
    assert_eq!(c.state(), WindowState::BLUE);
}

#[test]
fn foreign_command_aborts() {
    let mut c = Controller::new();
    let r = c.handle(Message::classify(WM_COMMAND, 7, -3));
    assert_eq!(r, Reply::Abort { wparam: 7, lparam: -3 });
    assert_ne!(r, Reply::Acknowledge);
    assert_eq!(c.state(), WindowState::BLUE);
}

#[test]
fn paint_red_uses_white_text_background() {
    let plan = handling_paintmessage(&WindowState::RED, Some(bounds())).unwrap();
    assert_eq!(plan.fill_color, 0x000000FF);
    assert_eq!(plan.text_background, 0x00FFFFFF);
}

#[test]
fn paint_blue_and_green_use_matching_text_background() {
    let blue = handling_paintmessage(&WindowState::BLUE, Some(bounds())).unwrap();
    assert_eq!((blue.fill_color, blue.text_background), (0x00FF0000, 0x00FF0000));
    let green = handling_paintmessage(&WindowState::GREEN, Some(bounds())).unwrap();
    assert_eq!((green.fill_color, green.text_background), (0x0000FF00, 0x0000FF00));
}

#[test]
fn paint_fill_starts_at_origin() {
    let plan = handling_paintmessage(&WindowState::GREEN, Some(bounds())).unwrap();
    assert_eq!(
        plan,
        PaintPlan {
            fill_color: GREEN,
            text_background: GREEN,
            fill_rect: Rect { left: 0, top: 0, right: 800, bottom: 600 },
            text: "Please click the Button to change the window\u{2019}s color",
            text_x: 0,
            text_y: 0,
        }
    );
    let negative = Rect { left: -500, top: -40, right: 300, bottom: 560 };
    let plan = handling_paintmessage(&WindowState::RED, Some(negative)).unwrap();
    assert_eq!(plan.fill_rect, Rect { left: 0, top: 0, right: 800, bottom: 600 });
}

#[test]
fn paint_text_is_the_instruction() {
    let plan = handling_paintmessage(&WindowState::BLUE, Some(bounds())).unwrap();
    assert_eq!(plan.text, "Please click the Button to change the window\u{2019}s color");
    assert_eq!(plan.text.chars().count(), 52);
}

#[test]
fn paint_with_oversized_bounds_fails() {
    let wide = Rect { left: i32::MIN, top: 0, right: 10, bottom: 10 };
    assert_eq!(handling_paintmessage(&WindowState::RED, Some(wide)), Err(PaintError::SizeOverflow));
    let tall = Rect { left: 0, top: -10, right: 10, bottom: i32::MAX };
    assert_eq!(handling_paintmessage(&WindowState::RED, Some(tall)), Err(PaintError::SizeOverflow));
}

#[test]
fn paint_without_bounds_fails() {
    assert_eq!(handling_paintmessage(&WindowState::RED, None), Err(PaintError::NoBounds));
}

#[test]
fn repaint_without_bounds_fails() {
    assert_eq!(full_window_redraw(None), Err(PaintError::NoBounds));
}

#[test]
fn colour_lookups() {
    assert_eq!(fill_color(&WindowState::RED), RED);
    assert_eq!(fill_color(&WindowState::GREEN), GREEN);
    assert_eq!(fill_color(&WindowState::BLUE), BLUE);
    assert_eq!(text_background(&WindowState::BLUE), BLUE);
    assert_eq!(text_background(&WindowState::RED), WHITE);
    assert_eq!(text_background(&WindowState::GREEN), GREEN);
    assert_eq!(BUTTON_LABEL, "OK");
    assert_eq!(WindowState::GREEN.next(), WindowState::BLUE);
}

#[test]
fn other_messages_leave_the_selection() {
    let mut c = Controller::new();
    c.handle(click());
    assert_eq!(c.handle(Message::classify(WM_PAINT, 0, 0)), Reply::Paint(WindowState::RED));
    assert_eq!(c.handle(Message::classify(WM_SIZE, 0, 0)), Reply::Acknowledge);
    assert_eq!(c.handle(Message::classify(0x004E, 5, 6)), Reply::Default);
    assert_eq!(c.handle(Message::classify(WM_DESTROY, 0, 0)), Reply::Quit { exit_code: 0 });
    assert_eq!(
        c.handle(Message::classify(0x0200, 1, 2)),
        Reply::Default
    );
    assert_eq!(
        Message::classify(0x0200, 1, 2),
        Message::Other { message: 0x0200, wparam: 1, lparam: 2 }
    );
    assert_eq!(c.state(), WindowState::RED);
}
