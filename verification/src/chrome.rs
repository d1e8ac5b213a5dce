//! The window-chrome controller: the top-level window that owner-draws its
//! title bar, hosts the minimize/maximize/close buttons and an optional tab
//! strip, and repositions them on every resize.
//!
//! The host owns the native window and the message pump; it feeds measured
//! values (client rectangle, DPI, themed caption height, focus, the live
//! maximized state) in and carries rectangles, colors and [`ChromeAction`]s
//! out.

use vstd::prelude::*;

use crate::button::Button;
use crate::button::ButtonResponse;
use crate::button::MouseEvent;
use crate::button::State;
use crate::button::spec_new_button;
use crate::button::spec_response;
use crate::button::spec_step;
use crate::color::Color;
use crate::color::Colors;
use crate::color::color_from_argb;
use crate::color::color_from_colorref;
use crate::color::rgb;
use crate::color::spec_color_from_argb;
use crate::color::spec_color_from_colorref;
use crate::color::spec_rgb;
use crate::geometry::Point;
use crate::geometry::Rect;
use crate::geometry::center_rect_in_rect;
use crate::geometry::spec_centered;
use crate::geometry::spec_dpi_scale;
use crate::layout::FAKE_SHADOW_HEIGHT;
use crate::layout::HitRegion;
use crate::layout::TITLEBAR_BUTTON_WIDTH;
use crate::layout::TOP_AND_BOTTOM_BORDERS;
use crate::layout::fake_shadow_rect;
use crate::layout::get_titlebar_button_rects;
use crate::layout::get_titlebar_rect;
use crate::layout::hit_test;
use crate::layout::spec_fake_shadow_rect;
use crate::layout::spec_hit_region;
use crate::layout::spec_titlebar_button_rects;
use crate::layout::spec_titlebar_rect;
use crate::tab_bar::TabBar;

verus! {

/// Side of the square glyphs drawn on the chrome buttons, in pixels.
pub const ICON_DIMENSION: i32 = 9;

/// Width of the band kept free between the tab strip and the minimize
/// button.
pub const TAB_STRIP_RIGHT_MARGIN: i32 = 100;

/// The color set of the minimize and maximize buttons: the title-bar green,
/// darkening on hover and press.
pub open spec fn spec_title_bar_button_colors() -> Colors {
    Colors {
        default: spec_color_from_colorref(spec_rgb(150, 200, 180)),
        hover: spec_color_from_colorref(spec_rgb(130, 180, 160)),
        down: spec_color_from_colorref(spec_rgb(120, 167, 148)),
    }
}

/// The color set of the minimize and maximize buttons.
pub fn title_bar_button_colors() -> (c: Colors)
    ensures
        c == spec_title_bar_button_colors(),
{
    Colors {
        default: color_from_colorref(rgb(150, 200, 180)),
        hover: color_from_colorref(rgb(130, 180, 160)),
        down: color_from_colorref(rgb(120, 167, 148)),
    }
}

/// The color set of the close button: the title-bar green, turning red on
/// hover and a lighter red while pressed.
pub open spec fn spec_close_button_colors() -> Colors {
    Colors {
        default: spec_color_from_colorref(spec_rgb(150, 200, 180)),
        hover: spec_color_from_colorref(spec_rgb(232, 17, 35)),
        down: spec_color_from_colorref(spec_rgb(232, 73, 76)),
    }
}

/// The color set of the close button.
pub fn close_button_colors() -> (c: Colors)
    ensures
        c == spec_close_button_colors(),
{
    Colors {
        default: color_from_colorref(rgb(150, 200, 180)),
        hover: color_from_colorref(rgb(232, 17, 35)),
        down: color_from_colorref(rgb(232, 73, 76)),
    }
}

/// The glyph color of a title-bar item: near-black while the window has
/// focus or the cursor rests on the button, dimmed gray otherwise.
pub open spec fn spec_chrome_item_color(has_focus: bool, mouse_over: bool) -> Color {
    if has_focus || mouse_over {
        spec_color_from_colorref(spec_rgb(33, 33, 33))
    } else {
        spec_color_from_colorref(spec_rgb(127, 127, 127))
    }
}

/// The glyph color of the minimize and maximize items.
pub fn chrome_item_color(has_focus: bool, mouse_over: bool) -> (c: Color)
    ensures
        c == spec_chrome_item_color(has_focus, mouse_over),
{
    if has_focus || mouse_over {
        color_from_colorref(rgb(33, 33, 33))
    } else {
        color_from_colorref(rgb(127, 127, 127))
    }
}

/// The color of the close button's cross: the focus-dependent item color
/// while idle, white while hovered or pressed.
pub open spec fn spec_close_icon_color(state: State, has_focus: bool) -> Color {
    if state == State::Idle {
        spec_chrome_item_color(has_focus, false)
    } else {
        spec_color_from_argb(0xffffffff)
    }
}

/// The color of the close button's cross.
pub fn close_icon_color(state: State, has_focus: bool) -> (c: Color)
    ensures
        c == spec_close_icon_color(state, has_focus),
{
    match state {
        State::Idle => chrome_item_color(has_focus, false),
        _ => color_from_argb(0xffffffff),
    }
}

/// The three chrome buttons.
#[derive(Clone, Copy, Debug, PartialEq, Eq, Structural)]
pub enum ChromeButtonId {
    Minimize,
    Maximize,
    Close,
}

/// What a completed click on a chrome button asks of the platform.
#[derive(Clone, Copy, Debug, PartialEq, Eq, Structural)]
pub enum ChromeAction {
    /// Minimize the window.
    Minimize,
    /// Maximize when `true`, restore when `false`.
    SetMaximized(bool),
    /// Post a close request, so the application may veto or clean up.
    Close,
}

/// The action a click on `id` asks for, given the window's live maximized
/// state: minimize minimizes, maximize toggles, close posts a close
/// request.
pub open spec fn spec_chrome_click_action(id: ChromeButtonId, is_maximized: bool) -> ChromeAction {
    match id {
        ChromeButtonId::Minimize => ChromeAction::Minimize,
        ChromeButtonId::Maximize => ChromeAction::SetMaximized(!is_maximized),
        ChromeButtonId::Close => ChromeAction::Close,
    }
}

/// Maps a clicked chrome button to its platform action.
pub fn chrome_click_action(id: ChromeButtonId, is_maximized: bool) -> (a: ChromeAction)
    ensures
        a == spec_chrome_click_action(id, is_maximized),
{
    match id {
        ChromeButtonId::Minimize => ChromeAction::Minimize,
        ChromeButtonId::Maximize => ChromeAction::SetMaximized(!is_maximized),
        ChromeButtonId::Close => ChromeAction::Close,
    }
}

/// The child rectangles the chrome computes on creation and on every
/// resize.
#[derive(Clone, Copy, Debug, PartialEq, Eq, Structural)]
pub struct ChromeLayout {
    pub title_bar: Rect,
    pub minimize: Rect,
    pub maximize: Rect,
    pub close: Rect,
    pub tab: Rect,
}

/// An all-zero rectangle, the children's position before the first layout.
pub open spec fn spec_zero_rect() -> Rect {
    Rect { left: 0, top: 0, right: 0, bottom: 0 }
}

/// The inputs under which the chrome layout stays within `i32`.
pub open spec fn spec_layout_inputs_ok(client: Rect, caption_height: int, dpi: int) -> bool {
    &&& 0 <= caption_height
    &&& caption_height * dpi <= i32::MAX
    &&& client.top + spec_dpi_scale(caption_height, dpi) + TOP_AND_BOTTOM_BORDERS <= i32::MAX
    &&& TITLEBAR_BUTTON_WIDTH * dpi <= i32::MAX
    &&& i32::MIN <= client.right - 3 * spec_dpi_scale(TITLEBAR_BUTTON_WIDTH as int, dpi)
        - TAB_STRIP_RIGHT_MARGIN
}

/// The whole chrome layout from the client rectangle, the themed caption
/// height and the DPI: the title bar on top, the three buttons right to
/// left from its right edge, and the tab strip in the remaining band to
/// their left, below the fake-shadow strip.
pub open spec fn spec_chrome_layout(client: Rect, caption_height: int, dpi: int) -> ChromeLayout {
    let title_bar = spec_titlebar_rect(client, caption_height, dpi);
    let buttons = spec_titlebar_button_rects(title_bar, dpi);
    ChromeLayout {
        title_bar,
        minimize: buttons.minimize,
        maximize: buttons.maximize,
        close: buttons.close,
        tab: Rect {
            top: (FAKE_SHADOW_HEIGHT + 2) as i32,
            right: (buttons.minimize.left - TAB_STRIP_RIGHT_MARGIN) as i32,
            ..title_bar
        },
    }
}

/// The chrome window: the three owned chrome buttons, the optional tab
/// strip, and the last computed child layout.
pub struct Window {
    pub minimize_button: Button,
    pub maximize_button: Button,
    pub close_button: Button,
    pub tab_bar: Option<TabBar>,
    pub layout: ChromeLayout,
}

impl Window {
    /// Every owned control is well formed.
    pub open spec fn wf(self) -> bool {
        &&& self.minimize_button.wf()
        &&& self.maximize_button.wf()
        &&& self.close_button.wf()
        &&& (self.tab_bar matches Option::Some(t) ==> t.wf())
    }

    /// A fresh chrome window: the three buttons with their chrome color
    /// sets, an empty tab strip when asked for, and no layout yet.
    pub fn new(with_tab_bar: bool) -> (w: Window)
        ensures
            w.minimize_button == spec_new_button(
                Option::Some(spec_title_bar_button_colors()),
            ),
            w.maximize_button == spec_new_button(
                Option::Some(spec_title_bar_button_colors()),
            ),
            w.close_button == spec_new_button(Option::Some(spec_close_button_colors())),
            with_tab_bar ==> (w.tab_bar matches Option::Some(t) && t.tab_count == 0),
            !with_tab_bar ==> w.tab_bar is None,
            w.layout == (ChromeLayout {
                title_bar: spec_zero_rect(),
                minimize: spec_zero_rect(),
                maximize: spec_zero_rect(),
                close: spec_zero_rect(),
                tab: spec_zero_rect(),
            }),
            w.wf(),
    {
        let zero = Rect { left: 0, top: 0, right: 0, bottom: 0 };
        Window {
            minimize_button: Button::new(Some(title_bar_button_colors())),
            maximize_button: Button::new(Some(title_bar_button_colors())),
            close_button: Button::new(Some(close_button_colors())),
            tab_bar: if with_tab_bar {
                Some(TabBar::new())
            } else {
                None
            },
            layout: ChromeLayout {
                title_bar: zero,
                minimize: zero,
                maximize: zero,
                close: zero,
                tab: zero,
            },
        }
    }

    /// Recomputes every child rectangle from the current client rectangle,
    /// caption height and DPI, and stores them.  The host moves the native
    /// children to the stored rectangles, unconditionally.
    pub fn reposition_components(&mut self, client: Rect, caption_height: i32, dpi: u32)
        requires
            spec_layout_inputs_ok(client, caption_height as int, dpi as int),
        ensures
            final(self).layout == spec_chrome_layout(client, caption_height as int, dpi as int),
            final(self).minimize_button == old(self).minimize_button,
            final(self).maximize_button == old(self).maximize_button,
            final(self).close_button == old(self).close_button,
            final(self).tab_bar == old(self).tab_bar,
    {
        let title_bar = get_titlebar_rect(client, caption_height, dpi);
        let buttons = get_titlebar_button_rects(&title_bar, dpi);
        self.layout = ChromeLayout {
            title_bar,
            minimize: buttons.minimize,
            maximize: buttons.maximize,
            close: buttons.close,
            tab: Rect {
                top: FAKE_SHADOW_HEIGHT + 2,
                right: buttons.minimize.left - TAB_STRIP_RIGHT_MARGIN,
                ..title_bar
            },
        };
    }

    /// The manual non-client hit test against the stored layout: the top
    /// resize band wins, then anything above the title bar's bottom is
    /// caption, the rest is client.  The host only calls this after the
    /// platform's default test found none of the resize borders.
    pub fn non_client_hit_test(&self, cursor_y: i32, frame_y: i32, padding: i32) -> (h: HitRegion)
        requires
            i32::MIN <= frame_y + padding <= i32::MAX,
        ensures
            h == spec_hit_region(cursor_y as int, frame_y as int, padding as int,
                self.layout.title_bar.bottom as int),
    {
        hit_test(cursor_y, frame_y, padding, self.layout.title_bar.bottom)
    }

    /// Dispatches a mouse event to the chrome button `id`; a completed
    /// click becomes the button's platform action, computed from the live
    /// maximized state.
    pub fn handle_button_event(
        &mut self,
        id: ChromeButtonId,
        event: MouseEvent,
        is_maximized: bool,
    ) -> (r: (ButtonResponse, Option<ChromeAction>))
        ensures
            final(self).minimize_button == (if id == ChromeButtonId::Minimize {
                spec_step(old(self).minimize_button, event)
            } else {
                old(self).minimize_button
            }),
            final(self).maximize_button == (if id == ChromeButtonId::Maximize {
                spec_step(old(self).maximize_button, event)
            } else {
                old(self).maximize_button
            }),
            final(self).close_button == (if id == ChromeButtonId::Close {
                spec_step(old(self).close_button, event)
            } else {
                old(self).close_button
            }),
            final(self).tab_bar == old(self).tab_bar,
            final(self).layout == old(self).layout,
            r.0 == spec_response(
                match id {
                    ChromeButtonId::Minimize => old(self).minimize_button,
                    ChromeButtonId::Maximize => old(self).maximize_button,
                    ChromeButtonId::Close => old(self).close_button,
                },
                event,
            ),
            r.1 == (if r.0.clicked {
                Option::Some(spec_chrome_click_action(id, is_maximized))
            } else {
                Option::<ChromeAction>::None
            }),
            old(self).wf() ==> final(self).wf(),
    {
        let response = match id {
            ChromeButtonId::Minimize => self.minimize_button.handle_event(event),
            ChromeButtonId::Maximize => self.maximize_button.handle_event(event),
            ChromeButtonId::Close => self.close_button.handle_event(event),
        };
        proof {
            if old(self).wf() {
                crate::button::lemma_step_preserves_wf(
                    match id {
                        ChromeButtonId::Minimize => old(self).minimize_button,
                        ChromeButtonId::Maximize => old(self).maximize_button,
                        ChromeButtonId::Close => old(self).close_button,
                    },
                    event,
                );
            }
        }
        let action = if response.clicked {
            Some(chrome_click_action(id, is_maximized))
        } else {
            None
        };
        (response, action)
    }
}

/// One window paint: fill the client background, fill the title-bar band,
/// and fill the one-pixel fake-shadow strip at the very top with its
/// focus-dependent color.
#[derive(Clone, Copy, Debug, PartialEq, Eq, Structural)]
pub struct WindowPaintPlan {
    pub background: Color,
    pub title_bar: Rect,
    pub title_bar_color: Color,
    pub shadow: Rect,
    pub shadow_color: Color,
}

/// The paint plan: pale-green background, green title-bar band over the
/// computed title bar, and the shadow strip darker with focus than without.
pub open spec fn spec_window_paint_plan(
    client: Rect,
    caption_height: int,
    dpi: int,
    has_focus: bool,
) -> WindowPaintPlan {
    WindowPaintPlan {
        background: spec_color_from_colorref(spec_rgb(200, 250, 230)),
        title_bar: spec_titlebar_rect(client, caption_height, dpi),
        title_bar_color: spec_color_from_colorref(spec_rgb(150, 200, 180)),
        shadow: spec_fake_shadow_rect(client),
        shadow_color: if has_focus {
            spec_color_from_colorref(spec_rgb(112, 112, 112))
        } else {
            spec_color_from_colorref(spec_rgb(170, 170, 170))
        },
    }
}

/// Computes what one window paint must fill and with which colors.
pub fn window_paint_plan(client: Rect, caption_height: i32, dpi: u32, has_focus: bool) -> (p:
    WindowPaintPlan)
    requires
        0 <= caption_height,
        caption_height * dpi <= i32::MAX,
        client.top + spec_dpi_scale(caption_height as int, dpi as int) + TOP_AND_BOTTOM_BORDERS
            <= i32::MAX,
    ensures
        p == spec_window_paint_plan(client, caption_height as int, dpi as int, has_focus),
{
    WindowPaintPlan {
        background: color_from_colorref(rgb(200, 250, 230)),
        title_bar: get_titlebar_rect(client, caption_height, dpi),
        title_bar_color: color_from_colorref(rgb(150, 200, 180)),
        shadow: fake_shadow_rect(client),
        shadow_color: if has_focus {
            color_from_colorref(rgb(112, 112, 112))
        } else {
            color_from_colorref(rgb(170, 170, 170))
        },
    }
}

/// The minimize glyph: a horizontal bar, [`ICON_DIMENSION`] wide and one
/// pixel high, centered in the button.
pub fn minimize_glyph_rect(bounds: Rect) -> (r: Rect)
    requires
        ICON_DIMENSION <= bounds.width() <= i32::MAX,
        1 <= bounds.height() <= i32::MAX,
    ensures
        r == spec_centered(
            Rect { left: 0, top: 0, right: ICON_DIMENSION, bottom: 1 },
            bounds,
        ),
{
    let mut icon = Rect { left: 0, top: 0, right: ICON_DIMENSION, bottom: 1 };
    center_rect_in_rect(&mut icon, &bounds);
    icon
}

/// The maximize glyph: a centered square outline, replaced by the
/// overlapping double-rectangle restore glyph while the window is
/// maximized.  The back rectangle is outlined; the front one is filled
/// with the button's background color, then outlined.
#[derive(Clone, Copy, Debug, PartialEq, Eq, Structural)]
pub enum MaximizeGlyph {
    Restore { back_outline: Rect, front_fill: Rect, front_outline: Rect },
    Maximize { outline: Rect },
}

/// The restore variant offsets the centered square by two pixels each way.
pub open spec fn spec_maximize_glyph(bounds: Rect, is_maximized: bool) -> MaximizeGlyph {
    let icon = spec_centered(
        Rect { left: 0, top: 0, right: ICON_DIMENSION, bottom: ICON_DIMENSION },
        bounds,
    );
    if is_maximized {
        MaximizeGlyph::Restore {
            back_outline: Rect {
                left: (icon.left + 2) as i32,
                top: icon.top,
                right: icon.right,
                bottom: (icon.bottom - 2) as i32,
            },
            front_fill: Rect {
                left: icon.left,
                top: (icon.top + 2) as i32,
                right: (icon.right - 2) as i32,
                bottom: icon.bottom,
            },
            front_outline: Rect {
                left: icon.left,
                top: (icon.top + 2) as i32,
                right: (icon.right - 2) as i32,
                bottom: icon.bottom,
            },
        }
    } else {
        MaximizeGlyph::Maximize { outline: icon }
    }
}

/// Computes the maximize button's glyph rectangles for the live maximized
/// state.
pub fn maximize_glyph(bounds: Rect, is_maximized: bool) -> (g: MaximizeGlyph)
    requires
        ICON_DIMENSION <= bounds.width() <= i32::MAX,
        ICON_DIMENSION <= bounds.height() <= i32::MAX,
    ensures
        g == spec_maximize_glyph(bounds, is_maximized),
{
    let mut icon = Rect { left: 0, top: 0, right: ICON_DIMENSION, bottom: ICON_DIMENSION };
    center_rect_in_rect(&mut icon, &bounds);
    if is_maximized {
        let front = Rect {
            left: icon.left,
            top: icon.top + 2,
            right: icon.right - 2,
            bottom: icon.bottom,
        };
        MaximizeGlyph::Restore {
            back_outline: Rect {
                left: icon.left + 2,
                top: icon.top,
                right: icon.right,
                bottom: icon.bottom - 2,
            },
            front_fill: front,
            front_outline: front,
        }
    } else {
        MaximizeGlyph::Maximize { outline: icon }
    }
}

/// The close glyph: the two diagonals of the centered
/// [`ICON_DIMENSION`]-sided square.
#[derive(Clone, Copy, Debug, PartialEq, Eq, Structural)]
pub struct CloseGlyph {
    pub first_start: Point,
    pub first_end: Point,
    pub second_start: Point,
    pub second_end: Point,
}

/// One diagonal runs top-left to bottom-right, the other bottom-left to
/// top-right.
pub open spec fn spec_close_glyph(bounds: Rect) -> CloseGlyph {
    let icon = spec_centered(
        Rect { left: 0, top: 0, right: ICON_DIMENSION, bottom: ICON_DIMENSION },
        bounds,
    );
    CloseGlyph {
        first_start: Point { x: icon.left, y: icon.top },
        first_end: Point { x: icon.right, y: icon.bottom },
        second_start: Point { x: icon.left, y: icon.bottom },
        second_end: Point { x: icon.right, y: icon.top },
    }
}

/// Computes the close button's cross endpoints.
pub fn close_glyph(bounds: Rect) -> (g: CloseGlyph)
    requires
        ICON_DIMENSION <= bounds.width() <= i32::MAX,
        ICON_DIMENSION <= bounds.height() <= i32::MAX,
    ensures
        g == spec_close_glyph(bounds),
{
    let mut icon = Rect { left: 0, top: 0, right: ICON_DIMENSION, bottom: ICON_DIMENSION };
    center_rect_in_rect(&mut icon, &bounds);
    CloseGlyph {
        first_start: Point { x: icon.left, y: icon.top },
        first_end: Point { x: icon.right, y: icon.bottom },
        second_start: Point { x: icon.left, y: icon.bottom },
        second_end: Point { x: icon.right, y: icon.top },
    }
}

/// The window some host state maps to after one reposition: the layout is
/// a function of the measured inputs alone, the controls untouched.
pub open spec fn spec_repositioned(
    w: Window,
    client: Rect,
    caption_height: int,
    dpi: int,
) -> Window {
    Window { layout: spec_chrome_layout(client, caption_height, dpi), ..w }
}

/// Repositioning is idempotent: with no intervening resize — the same
/// client rectangle, caption height and DPI — a second run computes
/// identical child rectangles and changes nothing.
pub proof fn lemma_reposition_idempotent(w: Window, client: Rect, caption_height: int, dpi: int)
    ensures
        spec_repositioned(
            spec_repositioned(w, client, caption_height, dpi),
            client,
            caption_height,
            dpi,
        ) == spec_repositioned(w, client, caption_height, dpi),
{
}

/// A press and release on the maximize button with the cursor inside at
/// both events yields exactly one platform action for the pair: none at
/// the press, one toggle of the live maximized state at the release.
pub proof fn lemma_maximize_click_pair_toggles_once(b: Button, is_maximized: bool)
    ensures
        (if spec_response(b, MouseEvent::PrimaryButtonDown).clicked {
            Option::Some(spec_chrome_click_action(ChromeButtonId::Maximize, is_maximized))
        } else {
            Option::<ChromeAction>::None
        }) == Option::<ChromeAction>::None,
        (if spec_response(
            spec_step(b, MouseEvent::PrimaryButtonDown),
            MouseEvent::PrimaryButtonUp { inside: true },
        ).clicked {
            Option::Some(spec_chrome_click_action(ChromeButtonId::Maximize, is_maximized))
        } else {
            Option::<ChromeAction>::None
        }) == Option::Some(ChromeAction::SetMaximized(!is_maximized)),
{
}

} // verus!
