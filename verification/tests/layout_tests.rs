use window_chrome::geometry::Point;
use window_chrome::geometry::Rect;
use window_chrome::geometry::center_rect_in_rect;
use window_chrome::geometry::dpi_scale;
use window_chrome::geometry::pt_in_rect;
use window_chrome::layout::HitRegion;
use window_chrome::layout::adjust_requested_client_rect;
use window_chrome::layout::fake_shadow_rect;
use window_chrome::layout::get_titlebar_button_rects;
use window_chrome::layout::get_titlebar_rect;
use window_chrome::layout::hit_test;

fn client_500() -> Rect {
    Rect { left: 0, top: 0, right: 500, bottom: 500 }
}

#[test]
fn dpi_scale_exact_values() {
    assert_eq!(dpi_scale(23, 96), 23);
    assert_eq!(dpi_scale(47, 96), 47);
    // 47 * 144 / 96 = 70.5, truncated
    assert_eq!(dpi_scale(47, 144), 70);
    // 23 * 144 / 96 = 34.5, truncated
    assert_eq!(dpi_scale(23, 144), 34);
    assert_eq!(dpi_scale(0, 96), 0);
}

#[test]
fn titlebar_rect_spans_top_band() {
    // caption stub 23 at dpi 96, plus the two border pixels
    let r = get_titlebar_rect(client_500(), 23, 96);
    assert_eq!(r, Rect { left: 0, top: 0, right: 500, bottom: 25 });

    let r = get_titlebar_rect(client_500(), 23, 144);
    assert_eq!(r, Rect { left: 0, top: 0, right: 500, bottom: 36 });
}

#[test]
fn fake_shadow_is_one_pixel_strip() {
    let r = fake_shadow_rect(client_500());
    assert_eq!(r, Rect { left: 0, top: 0, right: 500, bottom: 1 });
}

#[test]
fn titlebar_buttons_lie_right_to_left() {
    let title_bar = get_titlebar_rect(client_500(), 23, 96);
    let rects = get_titlebar_button_rects(&title_bar, 96);
    assert_eq!(rects.close, Rect { left: 453, top: 1, right: 500, bottom: 25 });
    assert_eq!(rects.maximize, Rect { left: 406, top: 1, right: 453, bottom: 25 });
    assert_eq!(rects.minimize, Rect { left: 359, top: 1, right: 406, bottom: 25 });
}

#[test]
fn hit_test_boundary_at_default_metrics() {
    // dpi 96: frame 4 + padded border 4 give the 8 pixel band; caption stub
    // 23 gives the title-bar bottom 25
    assert_eq!(hit_test(10, 4, 4, 25), HitRegion::Caption);
    assert_eq!(hit_test(30, 4, 4, 25), HitRegion::Client);
    assert_eq!(hit_test(5, 4, 4, 25), HitRegion::TopResize);
    // boundaries
    assert_eq!(hit_test(0, 4, 4, 25), HitRegion::Caption);
    assert_eq!(hit_test(7, 4, 4, 25), HitRegion::TopResize);
    assert_eq!(hit_test(8, 4, 4, 25), HitRegion::Caption);
    assert_eq!(hit_test(24, 4, 4, 25), HitRegion::Caption);
    assert_eq!(hit_test(25, 4, 4, 25), HitRegion::Client);
    assert_eq!(hit_test(-3, 4, 4, 25), HitRegion::Caption);
}

#[test]
fn adjust_requested_client_rect_trims_frames() {
    let requested = Rect { left: 100, top: 100, right: 600, bottom: 600 };
    let r = adjust_requested_client_rect(requested, 4, 4, 4, false);
    assert_eq!(r, Rect { left: 108, top: 100, right: 592, bottom: 592 });
    let r = adjust_requested_client_rect(requested, 4, 4, 4, true);
    assert_eq!(r, Rect { left: 108, top: 104, right: 592, bottom: 592 });
}

#[test]
fn center_rect_keeps_size() {
    let mut icon = Rect { left: 0, top: 0, right: 9, bottom: 9 };
    let outer = Rect { left: 0, top: 0, right: 47, bottom: 24 };
    center_rect_in_rect(&mut icon, &outer);
    assert_eq!(icon, Rect { left: 19, top: 7, right: 28, bottom: 16 });

    let mut bar = Rect { left: 0, top: 0, right: 9, bottom: 1 };
    center_rect_in_rect(&mut bar, &outer);
    assert_eq!(bar, Rect { left: 19, top: 11, right: 28, bottom: 12 });
}

#[test]
fn pt_in_rect_is_half_open() {
    let r = Rect { left: 10, top: 10, right: 20, bottom: 20 };
    assert!(pt_in_rect(Point { x: 10, y: 10 }, r));
    assert!(pt_in_rect(Point { x: 19, y: 19 }, r));
    assert!(!pt_in_rect(Point { x: 20, y: 10 }, r));
    assert!(!pt_in_rect(Point { x: 10, y: 20 }, r));
    assert!(!pt_in_rect(Point { x: 9, y: 15 }, r));
}
