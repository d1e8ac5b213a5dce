//! The tab strip: a growable, left-to-right ordered row of toggle buttons
//! plus a trailing add button.
//!
//! Tabs are append-only: each gets the next monotonically increasing id,
//! and the order list holds exactly the ids of the owned buttons, in
//! insertion order.  With ids dense from zero, a tab's id equals its
//! position, and the button with id `n` sits at index `n`.

use vstd::prelude::*;

use crate::button::Button;
use crate::button::ButtonResponse;
use crate::button::MouseEvent;
use crate::button::ToggleButton;
use crate::button::spec_new_button;
use crate::button::spec_new_toggle_button;
use crate::button::spec_response;
use crate::button::spec_step;
use crate::button::spec_toggle_step;
use crate::color::Color;
use crate::color::color_from_colorref;
use crate::color::rgb;
use crate::color::spec_color_from_colorref;
use crate::color::spec_rgb;
use crate::geometry::Rect;

verus! {

/// Left edge of the first tab, in the strip's client coordinates.
pub const TAB_LEFT_MARGIN: i32 = 4;

/// Width of one tab button.
pub const TAB_WIDTH: i32 = 10;

/// Distance from one tab's left edge to the next: the width plus the gap.
pub const TAB_STRIDE: i32 = 12;

/// Height of the band at the strip's bottom that the buttons occupy.
pub const TAB_BAND_HEIGHT: i32 = 40;

/// Extra width the add button gets beyond a tab's width.
pub const ADD_BUTTON_EXTRA_WIDTH: i32 = 30;

/// Cap on the number of tabs, so every laid-out edge fits in `i32`.
pub const MAX_TABS: u32 = 100000000;

/// The tab strip: the owned toggle buttons, their id order, and the add
/// button.
pub struct TabBar {
    pub add_button: Button,
    pub tab_count: u32,
    pub tab_order: Vec<u32>,
    pub tab_buttons: Vec<ToggleButton>,
}

impl TabBar {
    /// The order list holds exactly the ids of the owned buttons, without
    /// duplicates and in insertion order: id `i` at position `i`.
    pub open spec fn wf(self) -> bool {
        &&& self.tab_order@.len() == self.tab_count
        &&& self.tab_buttons@.len() == self.tab_count
        &&& forall|i: int| 0 <= i < self.tab_count ==> self.tab_order@[i] == i as u32
        &&& forall|i: int| 0 <= i < self.tab_count ==> self.tab_buttons@[i].wf()
        &&& self.tab_count <= MAX_TABS
    }

    /// An empty strip with a stock add button.
    pub fn new() -> (t: TabBar)
        ensures
            t.tab_count == 0,
            t.tab_order@.len() == 0,
            t.tab_buttons@.len() == 0,
            t.add_button == spec_new_button(Option::<crate::color::Colors>::None),
            t.wf(),
    {
        TabBar {
            add_button: Button::new(None),
            tab_count: 0,
            tab_order: Vec::new(),
            tab_buttons: Vec::new(),
        }
    }

    /// Appends one tab: the next id joins the order list and a fresh,
    /// untoggled button is created for it.  Returns the new id.  The host
    /// relayouts afterwards.
    pub fn add_item(&mut self) -> (new_id: u32)
        requires
            old(self).wf(),
            old(self).tab_count < MAX_TABS,
        ensures
            final(self).wf(),
            new_id == old(self).tab_count,
            final(self).tab_count == old(self).tab_count + 1,
            final(self).tab_order@ == old(self).tab_order@.push(old(self).tab_count),
            final(self).tab_buttons@ == old(self).tab_buttons@.push(
                spec_new_toggle_button(
                    Option::<crate::color::Colors>::None,
                    Option::<crate::color::Colors>::None,
                ),
            ),
            final(self).add_button == old(self).add_button,
    {
        let new_id = self.tab_count;
        self.tab_order.push(new_id);
        self.tab_buttons.push(ToggleButton::new(None, None));
        self.tab_count = self.tab_count + 1;
        new_id
    }

    /// Dispatches a mouse event to the add button; a completed click is the
    /// request to append a tab.
    pub fn handle_add_button_event(&mut self, event: MouseEvent) -> (r: (
        ButtonResponse,
        bool,
    ))
        ensures
            final(self).add_button == spec_step(old(self).add_button, event),
            final(self).tab_count == old(self).tab_count,
            final(self).tab_order@ == old(self).tab_order@,
            final(self).tab_buttons@ == old(self).tab_buttons@,
            r.0 == spec_response(old(self).add_button, event),
            r.1 == r.0.clicked,
    {
        let response = self.add_button.handle_event(event);
        (response, response.clicked)
    }

    /// Dispatches a mouse event to the tab at `index`; a completed click
    /// reports the clicked tab's id.
    pub fn handle_tab_event(&mut self, index: usize, event: MouseEvent) -> (r: (
        ButtonResponse,
        Option<u32>,
    ))
        requires
            old(self).wf(),
            index < old(self).tab_count,
        ensures
            final(self).wf(),
            final(self).tab_buttons@ == old(self).tab_buttons@.update(
                index as int,
                spec_toggle_step(old(self).tab_buttons@[index as int], event),
            ),
            final(self).tab_count == old(self).tab_count,
            final(self).tab_order@ == old(self).tab_order@,
            final(self).add_button == old(self).add_button,
            r.0 == spec_response(old(self).tab_buttons@[index as int].button, event),
            r.1 == (if r.0.clicked {
                Option::Some(index as u32)
            } else {
                Option::<u32>::None
            }),
    {
        let mut tab = self.tab_buttons[index];
        let response = tab.handle_event(event);
        self.tab_buttons[index] = tab;
        proof {
            crate::button::lemma_toggle_step_preserves_wf(
                old(self).tab_buttons@[index as int],
                event,
            );
        }
        let id = if response.clicked {
            Option::Some(index as u32)
        } else {
            Option::None
        };
        (response, id)
    }
}

/// The white fill of the strip's own window, behind the buttons.
pub open spec fn spec_strip_background_color() -> Color {
    spec_color_from_colorref(spec_rgb(255, 255, 255))
}

/// The fill color of the strip's own window.
pub fn strip_background_color() -> (c: Color)
    ensures
        c == spec_strip_background_color(),
{
    color_from_colorref(rgb(255, 255, 255))
}

/// The tab at position `i`: one stride right of its predecessor, pinned to
/// the band at the strip's bottom.
pub open spec fn spec_tab_rect(i: int, client: Rect) -> Rect {
    Rect {
        left: (TAB_LEFT_MARGIN + TAB_STRIDE * i) as i32,
        top: (client.bottom - TAB_BAND_HEIGHT) as i32,
        right: (TAB_LEFT_MARGIN + TAB_STRIDE * i + TAB_WIDTH) as i32,
        bottom: client.bottom,
    }
}

/// The add button: immediately after the last tab, a tab's width plus the
/// extra add-button width wide.
pub open spec fn spec_add_button_rect(tab_count: int, client: Rect) -> Rect {
    Rect {
        left: (TAB_LEFT_MARGIN + TAB_STRIDE * tab_count) as i32,
        top: (client.bottom - TAB_BAND_HEIGHT) as i32,
        right: (TAB_LEFT_MARGIN + TAB_STRIDE * tab_count + TAB_WIDTH
            + ADD_BUTTON_EXTRA_WIDTH) as i32,
        bottom: client.bottom,
    }
}

impl TabBar {
    /// Computes every tab's rectangle, in order, and the add button's, from
    /// the strip's client rectangle.  The host moves the native windows to
    /// these.
    pub fn reposition_components(&self, client: Rect) -> (r: (Vec<Rect>, Rect))
        requires
            self.wf(),
            i32::MIN <= client.bottom - TAB_BAND_HEIGHT,
        ensures
            r.0@.len() == self.tab_count,
            forall|i: int| 0 <= i < self.tab_count ==> r.0@[i] == spec_tab_rect(i, client),
            r.1 == spec_add_button_rect(self.tab_count as int, client),
    {
        let mut rects: Vec<Rect> = Vec::new();
        let mut i: u32 = 0;
        let top = client.bottom - TAB_BAND_HEIGHT;
        while i < self.tab_count
            invariant
                i <= self.tab_count,
                self.tab_count <= MAX_TABS,
                top == client.bottom - TAB_BAND_HEIGHT,
                i32::MIN <= client.bottom - TAB_BAND_HEIGHT,
                rects@.len() == i,
                forall|j: int| 0 <= j < i ==> rects@[j] == spec_tab_rect(j, client),
            decreases self.tab_count - i,
        {
            let left = TAB_LEFT_MARGIN + TAB_STRIDE * (i as i32);
            rects.push(
                Rect { left, top, right: left + TAB_WIDTH, bottom: client.bottom },
            );
            i = i + 1;
        }
        let add_left = TAB_LEFT_MARGIN + TAB_STRIDE * (self.tab_count as i32);
        let add_rect = Rect {
            left: add_left,
            top,
            right: add_left + TAB_WIDTH + ADD_BUTTON_EXTRA_WIDTH,
            bottom: client.bottom,
        };
        (rects, add_rect)
    }
}

/// Appending one tab moves the add button's left edge right by exactly one
/// tab stride — a tab's width plus the gap — whatever the strip's size.
pub proof fn lemma_add_button_shifts_by_one_stride(tab_count: int, client: Rect)
    requires
        0 <= tab_count,
        TAB_LEFT_MARGIN + TAB_STRIDE * (tab_count + 1) + TAB_WIDTH + ADD_BUTTON_EXTRA_WIDTH
            <= i32::MAX,
    ensures
        spec_add_button_rect(tab_count + 1, client).left == spec_add_button_rect(
            tab_count,
            client,
        ).left + TAB_STRIDE,
{
}

} // verus!
