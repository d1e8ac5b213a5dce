//! Title-bar metrics, the non-client hit test, and the frame adjustment of
//! the requested client rectangle.
//!
//! The measured inputs — the themed caption size, the window's DPI, the
//! frame and padded-border metrics, the client rectangle — come from the
//! host's platform queries; everything here is pure rectangle math on them.

use vstd::prelude::*;

use crate::geometry::Rect;
use crate::geometry::dpi_scale;
use crate::geometry::spec_dpi_scale;

verus! {

/// Extra height added to the scaled caption size: one pixel of border at
/// the top and one at the bottom.
pub const TOP_AND_BOTTOM_BORDERS: i32 = 2;

/// Height of the painted strip standing in for the native top border that
/// the client-area extension suppresses.
pub const FAKE_SHADOW_HEIGHT: i32 = 1;

/// Width of one title-bar button in logical pixels, before DPI scaling.
pub const TITLEBAR_BUTTON_WIDTH: i32 = 47;

/// The title bar: the top band of the client rectangle, as high as the
/// DPI-scaled caption plus the two border pixels.
pub open spec fn spec_titlebar_rect(client: Rect, caption_height: int, dpi: int) -> Rect {
    Rect {
        bottom: (client.top + spec_dpi_scale(caption_height, dpi) + TOP_AND_BOTTOM_BORDERS) as i32,
        ..client
    }
}

/// Computes the title-bar rectangle from the client rectangle, the themed
/// caption height and the window's DPI.
pub fn get_titlebar_rect(client: Rect, caption_height: i32, dpi: u32) -> (r: Rect)
    requires
        0 <= caption_height,
        caption_height * dpi <= i32::MAX,
        client.top + spec_dpi_scale(caption_height as int, dpi as int) + TOP_AND_BOTTOM_BORDERS
            <= i32::MAX,
    ensures
        r == spec_titlebar_rect(client, caption_height as int, dpi as int),
        r.left == client.left && r.right == client.right && r.top == client.top,
{
    let height = dpi_scale(caption_height, dpi) + TOP_AND_BOTTOM_BORDERS;
    Rect { bottom: client.top + height, ..client }
}

/// The fake-shadow strip: the top [`FAKE_SHADOW_HEIGHT`] pixels of the
/// client rectangle.
pub open spec fn spec_fake_shadow_rect(client: Rect) -> Rect {
    Rect { bottom: (client.top + FAKE_SHADOW_HEIGHT) as i32, ..client }
}

/// Computes the one-pixel strip painted at the very top of the client area.
pub fn fake_shadow_rect(client: Rect) -> (r: Rect)
    requires
        client.top + FAKE_SHADOW_HEIGHT <= i32::MAX,
    ensures
        r == spec_fake_shadow_rect(client),
{
    Rect { bottom: client.top + FAKE_SHADOW_HEIGHT, ..client }
}

/// The three chrome-button rectangles, laid out right to left from the
/// title bar's right edge.
#[derive(Clone, Copy, Debug, PartialEq, Eq, Structural)]
pub struct TitleBarButtonRects {
    pub close: Rect,
    pub maximize: Rect,
    pub minimize: Rect,
}

/// The chrome buttons: each one DPI-scaled button width wide, abutting the
/// previous, dropped below the fake-shadow strip; close sits rightmost.
pub open spec fn spec_titlebar_button_rects(title_bar: Rect, dpi: int) -> TitleBarButtonRects {
    let width = spec_dpi_scale(TITLEBAR_BUTTON_WIDTH as int, dpi);
    let top = (title_bar.top + FAKE_SHADOW_HEIGHT) as i32;
    TitleBarButtonRects {
        close: Rect {
            left: (title_bar.right - width) as i32,
            top,
            right: title_bar.right,
            bottom: title_bar.bottom,
        },
        maximize: Rect {
            left: (title_bar.right - 2 * width) as i32,
            top,
            right: (title_bar.right - width) as i32,
            bottom: title_bar.bottom,
        },
        minimize: Rect {
            left: (title_bar.right - 3 * width) as i32,
            top,
            right: (title_bar.right - 2 * width) as i32,
            bottom: title_bar.bottom,
        },
    }
}

/// Computes the close, maximize and minimize rectangles right to left from
/// the title bar's right edge.
pub fn get_titlebar_button_rects(title_bar: &Rect, dpi: u32) -> (r: TitleBarButtonRects)
    requires
        TITLEBAR_BUTTON_WIDTH * dpi <= i32::MAX,
        title_bar.top + FAKE_SHADOW_HEIGHT <= i32::MAX,
        i32::MIN <= title_bar.right - 3 * spec_dpi_scale(TITLEBAR_BUTTON_WIDTH as int, dpi as int),
    ensures
        r == spec_titlebar_button_rects(*title_bar, dpi as int),
{
    let button_width = dpi_scale(TITLEBAR_BUTTON_WIDTH, dpi);
    let top = title_bar.top + FAKE_SHADOW_HEIGHT;
    let close = Rect {
        left: title_bar.right - button_width,
        top,
        right: title_bar.right,
        bottom: title_bar.bottom,
    };
    let maximize = Rect {
        left: close.left - button_width,
        top,
        right: close.left,
        bottom: title_bar.bottom,
    };
    let minimize = Rect {
        left: maximize.left - button_width,
        top,
        right: maximize.left,
        bottom: title_bar.bottom,
    };
    TitleBarButtonRects { close, maximize, minimize }
}

/// The window region a cursor position falls in, for the manual part of the
/// non-client hit test.  The resize borders that the platform's default
/// test already classifies are passed through by the host and never reach
/// this classification.
#[derive(Clone, Copy, Debug, PartialEq, Eq, Structural)]
pub enum HitRegion {
    /// Within the top resize-padding band: resize from the top.
    TopResize,
    /// Above the title bar's bottom: the caption, so the window manager
    /// drags and snaps the window.
    Caption,
    /// Ordinary client area.
    Client,
}

/// The manual classification: the open band `0 < y < frame_y + padding` is
/// the top resize handle; otherwise anything strictly above the title bar's
/// bottom is caption; everything else is client.
pub open spec fn spec_hit_region(
    cursor_y: int,
    frame_y: int,
    padding: int,
    title_bar_bottom: int,
) -> HitRegion {
    if 0 < cursor_y && cursor_y < frame_y + padding {
        HitRegion::TopResize
    } else if cursor_y < title_bar_bottom {
        HitRegion::Caption
    } else {
        HitRegion::Client
    }
}

/// Classifies a client-relative cursor Y against the top resize band and
/// the computed title-bar bottom.
pub fn hit_test(cursor_y: i32, frame_y: i32, padding: i32, title_bar_bottom: i32) -> (h: HitRegion)
    requires
        i32::MIN <= frame_y + padding <= i32::MAX,
    ensures
        h == spec_hit_region(cursor_y as int, frame_y as int, padding as int,
            title_bar_bottom as int),
        h is TopResize <==> 0 < cursor_y < frame_y + padding,
        h is Caption <==> (!(0 < cursor_y < frame_y + padding) && cursor_y < title_bar_bottom),
        h is Client <==> (!(0 < cursor_y < frame_y + padding) && cursor_y >= title_bar_bottom),
{
    if 0 < cursor_y && cursor_y < frame_y + padding {
        HitRegion::TopResize
    } else if cursor_y < title_bar_bottom {
        HitRegion::Caption
    } else {
        HitRegion::Client
    }
}

/// The client rectangle after the frame adjustment: the side frames and the
/// bottom frame are trimmed away; when maximized, the top is pushed down by
/// the padded border so the content is not clipped by the screen edge.  The
/// top is otherwise left alone — that is what extends the client area over
/// the title bar.
pub open spec fn spec_adjusted_client_rect(
    requested: Rect,
    frame_x: int,
    frame_y: int,
    padding: int,
    maximized: bool,
) -> Rect {
    Rect {
        left: (requested.left + frame_x + padding) as i32,
        top: if maximized {
            (requested.top + padding) as i32
        } else {
            requested.top
        },
        right: (requested.right - (frame_x + padding)) as i32,
        bottom: (requested.bottom - (frame_y + padding)) as i32,
    }
}

/// Adjusts the platform's requested client rectangle for a borderless
/// window: trims the side and bottom frames, keeps the top edge so the
/// client area covers the title bar.
pub fn adjust_requested_client_rect(
    requested: Rect,
    frame_x: i32,
    frame_y: i32,
    padding: i32,
    maximized: bool,
) -> (r: Rect)
    requires
        i32::MIN <= frame_x + padding <= i32::MAX,
        i32::MIN <= frame_y + padding <= i32::MAX,
        i32::MIN <= requested.left + frame_x + padding <= i32::MAX,
        i32::MIN <= requested.right - (frame_x + padding) <= i32::MAX,
        i32::MIN <= requested.bottom - (frame_y + padding) <= i32::MAX,
        i32::MIN <= requested.top + padding <= i32::MAX,
    ensures
        r == spec_adjusted_client_rect(requested, frame_x as int, frame_y as int, padding as int,
            maximized),
{
    Rect {
        left: requested.left + (frame_x + padding),
        top: if maximized {
            requested.top + padding
        } else {
            requested.top
        },
        right: requested.right - (frame_x + padding),
        bottom: requested.bottom - (frame_y + padding),
    }
}

} // verus!
