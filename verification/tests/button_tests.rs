use window_chrome::button::Button;
use window_chrome::button::FlashTick;
use window_chrome::button::MouseEvent;
use window_chrome::button::PaintBase;
use window_chrome::button::PressFlash;
use window_chrome::button::State;
use window_chrome::color::Color;
use window_chrome::color::Colors;
use window_chrome::color::stock_button_colors;

fn color(argb: u32) -> Color {
    window_chrome::color::color_from_argb(argb)
}

#[test]
fn new_button_starts_idle_with_stock_colors() {
    let b = Button::new(None);
    assert_eq!(b.state(), State::Idle);
    assert!(!b.is_down);
    assert!(!b.has_capture);
    assert!(!b.track_mouse_leave);
    assert_eq!(*b.colors(), stock_button_colors());
    assert_eq!(b.colors().default(), color(0xff646464));
    assert_eq!(b.colors().hover(), color(0xff505050));
    assert_eq!(b.colors().down(), color(0xff3c3c3c));
}

#[test]
fn click_inside_fires_exactly_once() {
    let mut b = Button::new(None);
    let mut clicks = 0;

    let r = b.handle_event(MouseEvent::PrimaryButtonDown);
    if r.clicked {
        clicks += 1;
    }
    assert!(r.redraw);
    assert!(r.acquire_capture);
    assert!(r.suppress_default);
    assert_eq!(b.state(), State::Down);
    assert!(b.has_capture);

    let r = b.handle_event(MouseEvent::PrimaryButtonUp { inside: true });
    if r.clicked {
        clicks += 1;
    }
    assert!(r.release_capture);
    assert!(!r.suppress_default);
    assert_eq!(b.state(), State::Hover);
    assert!(!b.has_capture);

    assert_eq!(clicks, 1);
}

#[test]
fn release_outside_does_not_click() {
    let mut b = Button::new(None);
    let down = b.handle_event(MouseEvent::PrimaryButtonDown);
    assert!(!down.clicked);
    let up = b.handle_event(MouseEvent::PrimaryButtonUp { inside: false });
    assert!(!up.clicked);
    assert!(up.release_capture);
    assert_eq!(b.state(), State::Idle);
}

#[test]
fn release_without_press_does_not_click() {
    let mut b = Button::new(None);
    let up = b.handle_event(MouseEvent::PrimaryButtonUp { inside: true });
    assert!(!up.clicked);
    assert_eq!(b.state(), State::Hover);
}

#[test]
fn mouse_leave_resets_to_idle_from_every_state() {
    // from hover
    let mut b = Button::new(None);
    b.handle_event(MouseEvent::MouseMove { inside: true, primary_held: false });
    assert_eq!(b.state(), State::Hover);
    let r = b.handle_event(MouseEvent::MouseLeave);
    assert_eq!(b.state(), State::Idle);
    assert!(r.redraw);
    assert!(!b.track_mouse_leave);

    // from down
    let mut b = Button::new(None);
    b.handle_event(MouseEvent::PrimaryButtonDown);
    b.handle_event(MouseEvent::MouseLeave);
    assert_eq!(b.state(), State::Idle);

    // from idle
    let mut b = Button::new(None);
    b.handle_event(MouseEvent::MouseLeave);
    assert_eq!(b.state(), State::Idle);
}

#[test]
fn mouse_move_arms_leave_tracking_once_until_consumed() {
    let mut b = Button::new(None);
    let r = b.handle_event(MouseEvent::MouseMove { inside: true, primary_held: false });
    assert!(r.arm_leave_tracking);
    let r = b.handle_event(MouseEvent::MouseMove { inside: true, primary_held: false });
    assert!(!r.arm_leave_tracking);
    b.handle_event(MouseEvent::MouseLeave);
    let r = b.handle_event(MouseEvent::MouseMove { inside: true, primary_held: false });
    assert!(r.arm_leave_tracking);
}

#[test]
fn mouse_move_during_press_follows_held_button() {
    let mut b = Button::new(None);
    b.handle_event(MouseEvent::PrimaryButtonDown);
    let r = b.handle_event(MouseEvent::MouseMove { inside: true, primary_held: true });
    assert_eq!(b.state(), State::Down);
    assert!(!r.redraw);
    b.handle_event(MouseEvent::MouseMove { inside: true, primary_held: false });
    assert_eq!(b.state(), State::Hover);
}

#[test]
fn mouse_move_outside_during_press_keeps_hover_branch() {
    // the retained branch: a move routed to the control with the cursor
    // outside its bounds still sets hover
    let mut b = Button::new(None);
    b.handle_event(MouseEvent::PrimaryButtonDown);
    b.handle_event(MouseEvent::MouseMove { inside: false, primary_held: true });
    assert_eq!(b.state(), State::Hover);
}

#[test]
fn set_colors_replaces_only_colors() {
    let mut b = Button::new(None);
    b.handle_event(MouseEvent::PrimaryButtonDown);
    let custom = Colors::new(color(0xff010203), color(0xff040506), color(0xff070809));
    b.set_colors(&custom);
    assert_eq!(*b.colors(), custom);
    assert_eq!(b.state(), State::Down);
}

#[test]
fn paint_fill_color_follows_state() {
    let custom = Colors::new(color(0xff010203), color(0xff040506), color(0xff070809));
    let mut b = Button::new(Some(custom));
    assert_eq!(b.paint_fill_color(), color(0xff010203));
    b.handle_event(MouseEvent::MouseMove { inside: true, primary_held: false });
    assert_eq!(b.paint_fill_color(), color(0xff040506));
    b.handle_event(MouseEvent::PrimaryButtonDown);
    assert_eq!(b.paint_fill_color(), color(0xff070809));
}

#[test]
fn paint_plan_two_phase() {
    let b = Button::new(None);
    let p = b.paint_plan(false, true);
    assert_eq!(p.base, PaintBase::Fill(color(0xff646464)));
    assert!(p.overlay);
    let p = b.paint_plan(true, false);
    assert_eq!(p.base, PaintBase::Custom);
    assert!(!p.overlay);
}

#[test]
fn press_flash_repaints_until_duration_elapses() {
    let mut f = PressFlash::new();
    assert!(!f.active);
    f.on_press(1000);
    assert!(f.active);
    assert_eq!(f.pressed_at_ms, 1000);

    assert_eq!(f.on_tick(1010), FlashTick { redraw: true, reschedule: true });
    assert_eq!(f.on_tick(1049), FlashTick { redraw: true, reschedule: true });
    assert_eq!(f.on_tick(1050), FlashTick { redraw: false, reschedule: false });
    assert!(!f.active);
    assert_eq!(f.on_tick(1060), FlashTick { redraw: false, reschedule: false });
}
