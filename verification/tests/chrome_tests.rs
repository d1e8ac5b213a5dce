use window_chrome::button::MouseEvent;
use window_chrome::button::State;
use window_chrome::chrome::ChromeAction;
use window_chrome::chrome::ChromeButtonId;
use window_chrome::chrome::CloseGlyph;
use window_chrome::chrome::MaximizeGlyph;
use window_chrome::chrome::Window;
use window_chrome::chrome::chrome_click_action;
use window_chrome::chrome::chrome_item_color;
use window_chrome::chrome::close_button_colors;
use window_chrome::chrome::close_glyph;
use window_chrome::chrome::close_icon_color;
use window_chrome::chrome::maximize_glyph;
use window_chrome::chrome::minimize_glyph_rect;
use window_chrome::chrome::title_bar_button_colors;
use window_chrome::chrome::window_paint_plan;
use window_chrome::color::Color;
use window_chrome::color::color_from_colorref;
use window_chrome::color::rgb;
use window_chrome::geometry::Point;
use window_chrome::geometry::Rect;
use window_chrome::layout::HitRegion;

fn client_500() -> Rect {
    Rect { left: 0, top: 0, right: 500, bottom: 500 }
}

fn cref(r: u8, g: u8, b: u8) -> Color {
    color_from_colorref(rgb(r, g, b))
}

#[test]
fn chrome_palette_matches_design() {
    let title = title_bar_button_colors();
    assert_eq!(title.default(), cref(150, 200, 180));
    assert_eq!(title.hover(), cref(130, 180, 160));
    assert_eq!(title.down(), cref(120, 167, 148));

    let close = close_button_colors();
    assert_eq!(close.default(), cref(150, 200, 180));
    assert_eq!(close.hover(), cref(232, 17, 35));
    assert_eq!(close.down(), cref(232, 73, 76));
}

#[test]
fn item_color_depends_on_focus_and_hover() {
    assert_eq!(chrome_item_color(true, false), cref(33, 33, 33));
    assert_eq!(chrome_item_color(false, true), cref(33, 33, 33));
    assert_eq!(chrome_item_color(true, true), cref(33, 33, 33));
    assert_eq!(chrome_item_color(false, false), cref(127, 127, 127));
}

#[test]
fn close_icon_turns_light_while_engaged() {
    assert_eq!(close_icon_color(State::Idle, true), cref(33, 33, 33));
    assert_eq!(close_icon_color(State::Idle, false), cref(127, 127, 127));
    let white = window_chrome::color::color_from_argb(0xffffffff);
    assert_eq!(close_icon_color(State::Hover, false), white);
    assert_eq!(close_icon_color(State::Down, true), white);
}

#[test]
fn click_actions_per_button() {
    assert_eq!(chrome_click_action(ChromeButtonId::Minimize, false), ChromeAction::Minimize);
    assert_eq!(
        chrome_click_action(ChromeButtonId::Maximize, false),
        ChromeAction::SetMaximized(true)
    );
    assert_eq!(
        chrome_click_action(ChromeButtonId::Maximize, true),
        ChromeAction::SetMaximized(false)
    );
    assert_eq!(chrome_click_action(ChromeButtonId::Close, true), ChromeAction::Close);
}

#[test]
fn reposition_computes_chrome_layout() {
    let mut w = Window::new(false);
    w.reposition_components(client_500(), 23, 96);
    assert_eq!(w.layout.title_bar, Rect { left: 0, top: 0, right: 500, bottom: 25 });
    assert_eq!(w.layout.close, Rect { left: 453, top: 1, right: 500, bottom: 25 });
    assert_eq!(w.layout.maximize, Rect { left: 406, top: 1, right: 453, bottom: 25 });
    assert_eq!(w.layout.minimize, Rect { left: 359, top: 1, right: 406, bottom: 25 });
    assert_eq!(w.layout.tab, Rect { left: 0, top: 3, right: 259, bottom: 25 });
}

#[test]
fn reposition_twice_is_idempotent() {
    let mut w = Window::new(false);
    w.reposition_components(client_500(), 23, 96);
    let first = w.layout;
    w.reposition_components(client_500(), 23, 96);
    assert_eq!(w.layout, first);
}

#[test]
fn window_hit_test_uses_stored_titlebar() {
    let mut w = Window::new(false);
    w.reposition_components(client_500(), 23, 96);
    assert_eq!(w.non_client_hit_test(10, 4, 4), HitRegion::Caption);
    assert_eq!(w.non_client_hit_test(30, 4, 4), HitRegion::Client);
    assert_eq!(w.non_client_hit_test(5, 4, 4), HitRegion::TopResize);
}

#[test]
fn maximize_click_pair_toggles_exactly_once() {
    let mut w = Window::new(false);
    w.reposition_components(client_500(), 23, 96);

    // first pair: restored -> maximized, exactly one action
    let (_, a) = w.handle_button_event(
        ChromeButtonId::Maximize,
        MouseEvent::PrimaryButtonDown,
        false,
    );
    assert_eq!(a, None);
    let (r, a) = w.handle_button_event(
        ChromeButtonId::Maximize,
        MouseEvent::PrimaryButtonUp { inside: true },
        false,
    );
    assert!(r.clicked);
    assert_eq!(a, Some(ChromeAction::SetMaximized(true)));

    // second pair against the new live state: maximized -> restored
    let (_, a) = w.handle_button_event(
        ChromeButtonId::Maximize,
        MouseEvent::PrimaryButtonDown,
        true,
    );
    assert_eq!(a, None);
    let (_, a) = w.handle_button_event(
        ChromeButtonId::Maximize,
        MouseEvent::PrimaryButtonUp { inside: true },
        true,
    );
    assert_eq!(a, Some(ChromeAction::SetMaximized(false)));
}

#[test]
fn minimize_and_close_clicks_request_their_actions() {
    let mut w = Window::new(false);
    w.handle_button_event(ChromeButtonId::Minimize, MouseEvent::PrimaryButtonDown, false);
    let (_, a) = w.handle_button_event(
        ChromeButtonId::Minimize,
        MouseEvent::PrimaryButtonUp { inside: true },
        false,
    );
    assert_eq!(a, Some(ChromeAction::Minimize));

    w.handle_button_event(ChromeButtonId::Close, MouseEvent::PrimaryButtonDown, false);
    let (_, a) = w.handle_button_event(
        ChromeButtonId::Close,
        MouseEvent::PrimaryButtonUp { inside: false },
        false,
    );
    assert_eq!(a, None);
    w.handle_button_event(ChromeButtonId::Close, MouseEvent::PrimaryButtonDown, false);
    let (_, a) = w.handle_button_event(
        ChromeButtonId::Close,
        MouseEvent::PrimaryButtonUp { inside: true },
        false,
    );
    assert_eq!(a, Some(ChromeAction::Close));
}

#[test]
fn paint_plan_fills_background_titlebar_and_shadow() {
    let p = window_paint_plan(client_500(), 23, 96, true);
    assert_eq!(p.background, cref(200, 250, 230));
    assert_eq!(p.title_bar, Rect { left: 0, top: 0, right: 500, bottom: 25 });
    assert_eq!(p.title_bar_color, cref(150, 200, 180));
    assert_eq!(p.shadow, Rect { left: 0, top: 0, right: 500, bottom: 1 });
    assert_eq!(p.shadow_color, cref(112, 112, 112));

    let p = window_paint_plan(client_500(), 23, 96, false);
    assert_eq!(p.shadow_color, cref(170, 170, 170));
}

#[test]
fn glyphs_center_in_button_bounds() {
    let bounds = Rect { left: 0, top: 0, right: 47, bottom: 24 };

    let bar = minimize_glyph_rect(bounds);
    assert_eq!(bar, Rect { left: 19, top: 11, right: 28, bottom: 12 });

    let g = maximize_glyph(bounds, false);
    assert_eq!(
        g,
        MaximizeGlyph::Maximize { outline: Rect { left: 19, top: 7, right: 28, bottom: 16 } }
    );

    let g = maximize_glyph(bounds, true);
    assert_eq!(
        g,
        MaximizeGlyph::Restore {
            back_outline: Rect { left: 21, top: 7, right: 28, bottom: 14 },
            front_fill: Rect { left: 19, top: 9, right: 26, bottom: 16 },
            front_outline: Rect { left: 19, top: 9, right: 26, bottom: 16 },
        }
    );

    let g = close_glyph(bounds);
    assert_eq!(
        g,
        CloseGlyph {
            first_start: Point { x: 19, y: 7 },
            first_end: Point { x: 28, y: 16 },
            second_start: Point { x: 19, y: 16 },
            second_end: Point { x: 28, y: 7 },
        }
    );
}
