//! The button interaction state machine.
//!
//! A button owns a hover/press state driven by mouse events.  The host
//! routes each native input message here as a [`MouseEvent`] and receives a
//! [`ButtonResponse`] telling it what to do: repaint, acquire or release
//! mouse capture, re-arm the leave notification, and whether a completed
//! click must be reported to the owner.  A [`ToggleButton`] composes a plain
//! button and flips a persistent on/off flag once per completed click.

use vstd::prelude::*;

use crate::color::Color;
use crate::color::Colors;
use crate::color::color_from_colorref;
use crate::color::rgb;
use crate::color::spec_color_from_colorref;
use crate::color::spec_rgb;
use crate::color::spec_stock_button_colors;
use crate::color::spec_stock_toggled_colors;
use crate::color::stock_button_colors;
use crate::color::stock_toggled_colors;
use crate::geometry::Rect;

verus! {

/// The interaction state of a button.
#[derive(Clone, Copy, Debug, PartialEq, Eq, Structural)]
pub enum State {
    /// The cursor is elsewhere and no press is shown.
    Idle,
    /// The cursor rests on the button.
    Hover,
    /// The button is shown pressed.
    Down,
}

/// A mouse event routed to one button, with the facts the transition needs
/// already measured by the host: whether the cursor lies inside the
/// button's client rectangle, and whether the primary button is held.
#[derive(Clone, Copy, Debug, PartialEq, Eq, Structural)]
pub enum MouseEvent {
    MouseMove { inside: bool, primary_held: bool },
    MouseLeave,
    PrimaryButtonDown,
    PrimaryButtonUp { inside: bool },
}

/// What the host must do after a transition.
#[derive(Clone, Copy, Debug, PartialEq, Eq, Structural)]
pub struct ButtonResponse {
    /// Request a repaint of the button.
    pub redraw: bool,
    /// A completed click: notify the owner exactly once.
    pub clicked: bool,
    /// Acquire exclusive mouse capture for this button.
    pub acquire_capture: bool,
    /// Release mouse capture.
    pub release_capture: bool,
    /// Register for a one-shot leave notification.
    pub arm_leave_tracking: bool,
    /// Report the input as handled, suppressing the platform's default
    /// focus behavior for the press.
    pub suppress_default: bool,
}

/// A button's interaction state and its three state colors.
///
/// The paint callbacks of the two-phase paint contract are not stored
/// here: the host keeps them and consults [`Button::paint_plan`].
#[derive(Clone, Copy, Debug, PartialEq, Eq, Structural)]
pub struct Button {
    pub state: State,
    pub track_mouse_leave: bool,
    pub is_down: bool,
    pub has_capture: bool,
    pub colors: Colors,
}

/// The state after `event` is dispatched to `b`.
pub open spec fn spec_step(b: Button, event: MouseEvent) -> Button {
    match event {
        MouseEvent::MouseMove { inside, primary_held } => Button {
            track_mouse_leave: true,
            state: if inside && b.is_down {
                if primary_held {
                    State::Down
                } else {
                    State::Hover
                }
            } else {
                State::Hover
            },
            ..b
        },
        MouseEvent::MouseLeave => Button { track_mouse_leave: false, state: State::Idle, ..b },
        MouseEvent::PrimaryButtonDown => Button {
            state: State::Down,
            is_down: true,
            has_capture: true,
            ..b
        },
        MouseEvent::PrimaryButtonUp { inside } => Button {
            state: if inside {
                State::Hover
            } else {
                State::Idle
            },
            is_down: false,
            has_capture: false,
            ..b
        },
    }
}

/// The actions owed to the host when `event` is dispatched to `b`.
pub open spec fn spec_response(b: Button, event: MouseEvent) -> ButtonResponse {
    match event {
        MouseEvent::MouseMove { inside: _, primary_held: _ } => ButtonResponse {
            redraw: spec_step(b, event).state != b.state,
            clicked: false,
            acquire_capture: false,
            release_capture: false,
            arm_leave_tracking: !b.track_mouse_leave,
            suppress_default: false,
        },
        MouseEvent::MouseLeave => ButtonResponse {
            redraw: true,
            clicked: false,
            acquire_capture: false,
            release_capture: false,
            arm_leave_tracking: false,
            suppress_default: false,
        },
        MouseEvent::PrimaryButtonDown => ButtonResponse {
            redraw: true,
            clicked: false,
            acquire_capture: true,
            release_capture: false,
            arm_leave_tracking: false,
            suppress_default: true,
        },
        MouseEvent::PrimaryButtonUp { inside } => ButtonResponse {
            redraw: spec_step(b, event).state != b.state,
            clicked: inside && b.is_down,
            acquire_capture: false,
            release_capture: true,
            arm_leave_tracking: false,
            suppress_default: false,
        },
    }
}

/// The color a button paints in state `s`.
pub open spec fn spec_state_color(s: State, colors: Colors) -> Color {
    match s {
        State::Idle => colors.default,
        State::Hover => colors.hover,
        State::Down => colors.down,
    }
}

/// The value [`Button::new`] returns: idle, tracking nothing, with the
/// given colors or the stock set.
pub open spec fn spec_new_button(colors: Option<Colors>) -> Button {
    Button {
        state: State::Idle,
        track_mouse_leave: false,
        is_down: false,
        has_capture: false,
        colors: match colors {
            Option::Some(c) => c,
            Option::None => spec_stock_button_colors(),
        },
    }
}

impl Button {
    /// A press shown as `Down` goes with a press in progress and with mouse
    /// capture; capture is held exactly while a press is in progress.
    pub open spec fn wf(self) -> bool {
        &&& self.state == State::Down ==> self.is_down && self.has_capture
        &&& self.is_down == self.has_capture
    }

    /// A fresh button: idle, tracking nothing, with the given colors or the
    /// stock set.
    pub fn new(colors: Option<Colors>) -> (b: Button)
        ensures
            b == spec_new_button(colors),
            b.wf(),
    {
        let chosen = match colors {
            Option::Some(c) => c,
            Option::None => stock_button_colors(),
        };
        Button {
            state: State::Idle,
            track_mouse_leave: false,
            is_down: false,
            has_capture: false,
            colors: chosen,
        }
    }

    /// The current interaction state.
    pub fn state(&self) -> (s: State)
        ensures
            s == self.state,
    {
        self.state
    }

    /// The button's color set.
    pub fn colors(&self) -> (c: &Colors)
        ensures
            c == self.colors,
    {
        &self.colors
    }

    /// Replaces the color set; the interaction state is untouched.
    pub fn set_colors(&mut self, colors: &Colors)
        ensures
            *final(self) == (Button { colors: *colors, ..*old(self) }),
    {
        self.colors = *colors;
    }

    /// Dispatches one mouse event, stepping the state machine and returning
    /// the actions owed to the host.
    pub fn handle_event(&mut self, event: MouseEvent) -> (r: ButtonResponse)
        ensures
            *final(self) == spec_step(*old(self), event),
            r == spec_response(*old(self), event),
    {
        match event {
            MouseEvent::MouseMove { inside, primary_held } => {
                let arm = !self.track_mouse_leave;
                self.track_mouse_leave = true;
                let old_state = self.state;
                if inside && self.is_down {
                    if primary_held {
                        self.state = State::Down;
                    } else {
                        self.state = State::Hover;
                    }
                } else {
                    self.state = State::Hover;
                }
                ButtonResponse {
                    redraw: self.state != old_state,
                    clicked: false,
                    acquire_capture: false,
                    release_capture: false,
                    arm_leave_tracking: arm,
                    suppress_default: false,
                }
            }
            MouseEvent::MouseLeave => {
                self.track_mouse_leave = false;
                self.state = State::Idle;
                ButtonResponse {
                    redraw: true,
                    clicked: false,
                    acquire_capture: false,
                    release_capture: false,
                    arm_leave_tracking: false,
                    suppress_default: false,
                }
            }
            MouseEvent::PrimaryButtonDown => {
                self.state = State::Down;
                self.is_down = true;
                self.has_capture = true;
                ButtonResponse {
                    redraw: true,
                    clicked: false,
                    acquire_capture: true,
                    release_capture: false,
                    arm_leave_tracking: false,
                    suppress_default: true,
                }
            }
            MouseEvent::PrimaryButtonUp { inside } => {
                let old_state = self.state;
                let was_down = self.is_down;
                if inside {
                    self.state = State::Hover;
                } else {
                    self.state = State::Idle;
                }
                self.is_down = false;
                self.has_capture = false;
                ButtonResponse {
                    redraw: self.state != old_state,
                    clicked: inside && was_down,
                    acquire_capture: false,
                    release_capture: true,
                    arm_leave_tracking: false,
                    suppress_default: false,
                }
            }
        }
    }

    /// The fill color the default paint uses for the current state.
    pub fn paint_fill_color(&self) -> (c: Color)
        ensures
            c == spec_state_color(self.state, self.colors),
    {
        match self.state {
            State::Idle => self.colors.default,
            State::Hover => self.colors.hover,
            State::Down => self.colors.down,
        }
    }
}

/// The base phase of a paint: a registered custom painter replaces the
/// default state-colored fill entirely.
#[derive(Clone, Copy, Debug, PartialEq, Eq, Structural)]
pub enum PaintBase {
    Custom,
    Fill(Color),
}

/// The two-phase paint: a base (replaceable fill) and then, if registered,
/// an overlay that draws on top without owning the surface.
#[derive(Clone, Copy, Debug, PartialEq, Eq, Structural)]
pub struct PaintPlan {
    pub base: PaintBase,
    pub overlay: bool,
}

impl Button {
    /// Plans a paint given which callbacks the host holds: a custom painter
    /// replaces the base fill, the overlay always runs after the base.
    pub fn paint_plan(&self, has_custom_paint: bool, has_overlay: bool) -> (p: PaintPlan)
        ensures
            p.base == (if has_custom_paint {
                PaintBase::Custom
            } else {
                PaintBase::Fill(spec_state_color(self.state, self.colors))
            }),
            p.overlay == has_overlay,
    {
        let base = if has_custom_paint {
            PaintBase::Custom
        } else {
            PaintBase::Fill(self.paint_fill_color())
        };
        PaintPlan { base, overlay: has_overlay }
    }
}

/// A toggle button: a composed plain button that receives the mouse events,
/// plus a persistent on/off flag and a second color set for the toggled
/// appearance.
#[derive(Clone, Copy, Debug, PartialEq, Eq, Structural)]
pub struct ToggleButton {
    pub button: Button,
    pub is_toggled: bool,
    pub colors: Colors,
    pub toggled_colors: Colors,
}

/// The color painted for a state under a toggle flag: looked up in the
/// toggled set when the flag is on, in the default set otherwise.
pub open spec fn spec_resolved_color(
    s: State,
    is_toggled: bool,
    colors: Colors,
    toggled_colors: Colors,
) -> Color {
    spec_state_color(s, if is_toggled { toggled_colors } else { colors })
}

/// The value [`ToggleButton::new`] returns: off, idle, with the given color
/// sets or the stock ones; the composed button starts on the untoggled set.
pub open spec fn spec_new_toggle_button(
    colors: Option<Colors>,
    toggled_colors: Option<Colors>,
) -> ToggleButton {
    let chosen = match colors {
        Option::Some(c) => c,
        Option::None => spec_stock_button_colors(),
    };
    ToggleButton {
        button: spec_new_button(Option::Some(chosen)),
        is_toggled: false,
        colors: chosen,
        toggled_colors: match toggled_colors {
            Option::Some(c) => c,
            Option::None => spec_stock_toggled_colors(),
        },
    }
}

/// Resolves the paint color for a state under a toggle flag.
pub fn resolved_color(
    s: State,
    is_toggled: bool,
    colors: &Colors,
    toggled_colors: &Colors,
) -> (c: Color)
    ensures
        c == spec_resolved_color(s, is_toggled, *colors, *toggled_colors),
{
    let set = if is_toggled {
        toggled_colors
    } else {
        colors
    };
    match s {
        State::Idle => set.default,
        State::Hover => set.hover,
        State::Down => set.down,
    }
}

impl ToggleButton {
    /// The color set the current toggle flag selects.
    pub open spec fn spec_effective_colors(self) -> Colors {
        if self.is_toggled {
            self.toggled_colors
        } else {
            self.colors
        }
    }

    /// The composed button is well formed and paints with the set the
    /// toggle flag selects.
    pub open spec fn wf(self) -> bool {
        &&& self.button.wf()
        &&& self.button.colors == self.spec_effective_colors()
    }

    /// A fresh toggle button: off, idle, with the given color sets or the
    /// stock ones.
    pub fn new(colors: Option<Colors>, toggled_colors: Option<Colors>) -> (t: ToggleButton)
        ensures
            t == spec_new_toggle_button(colors, toggled_colors),
            t.wf(),
    {
        let chosen = match colors {
            Option::Some(c) => c,
            Option::None => stock_button_colors(),
        };
        let chosen_toggled = match toggled_colors {
            Option::Some(c) => c,
            Option::None => stock_toggled_colors(),
        };
        ToggleButton {
            button: Button::new(Some(chosen)),
            is_toggled: false,
            colors: chosen,
            toggled_colors: chosen_toggled,
        }
    }

    /// The toggle flag.
    pub fn is_toggled(&self) -> (t: bool)
        ensures
            t == self.is_toggled,
    {
        self.is_toggled
    }

    /// The interaction state of the composed button.
    pub fn state(&self) -> (s: State)
        ensures
            s == self.button.state,
    {
        self.button.state
    }

    /// The untoggled color set.
    pub fn colors(&self) -> (c: &Colors)
        ensures
            c == self.colors,
    {
        &self.colors
    }

    /// Flips the toggle flag, points the composed button at the newly
    /// selected color set, and returns the new flag.
    pub fn toggle(&mut self) -> (now_toggled: bool)
        ensures
            final(self).is_toggled == !old(self).is_toggled,
            now_toggled == final(self).is_toggled,
            final(self).colors == old(self).colors,
            final(self).toggled_colors == old(self).toggled_colors,
            final(self).button == (Button {
                colors: final(self).spec_effective_colors(),
                ..old(self).button
            }),
            old(self).wf() ==> final(self).wf(),
    {
        self.is_toggled = !self.is_toggled;
        if self.is_toggled {
            self.button.set_colors(&self.toggled_colors);
        } else {
            self.button.set_colors(&self.colors);
        }
        self.is_toggled
    }
}

/// The pale-pink fill of the toggle button's own window, behind the inset
/// composed button.
pub open spec fn spec_toggle_container_color() -> Color {
    spec_color_from_colorref(spec_rgb(255, 221, 221))
}

/// The fill color of the toggle button's own window.
pub fn toggle_container_color() -> (c: Color)
    ensures
        c == spec_toggle_container_color(),
{
    color_from_colorref(rgb(255, 221, 221))
}

/// The state after `event` is dispatched to the toggle button `t`: the
/// composed button steps, and a completed click additionally flips the flag
/// and re-colors the composed button — before the owner hears of the click.
pub open spec fn spec_toggle_step(t: ToggleButton, event: MouseEvent) -> ToggleButton {
    let stepped = spec_step(t.button, event);
    if spec_response(t.button, event).clicked {
        let flipped = !t.is_toggled;
        ToggleButton {
            button: Button {
                colors: if flipped {
                    t.toggled_colors
                } else {
                    t.colors
                },
                ..stepped
            },
            is_toggled: flipped,
            ..t
        }
    } else {
        ToggleButton { button: stepped, ..t }
    }
}

impl ToggleButton {
    /// Dispatches one mouse event to the composed button; a completed click
    /// flips the toggle flag before it is reported.
    pub fn handle_event(&mut self, event: MouseEvent) -> (r: ButtonResponse)
        ensures
            *final(self) == spec_toggle_step(*old(self), event),
            r == spec_response(old(self).button, event),
    {
        let r = self.button.handle_event(event);
        if r.clicked {
            let _ = self.toggle();
        }
        r
    }

    /// The rectangle of the composed button inside the toggle button's
    /// client rectangle: the full area less the ten-pixel inset at the
    /// right and bottom edges.  The host moves the composed button's
    /// native window there on creation and on every resize.
    pub fn reposition_components(&self, client: Rect) -> (r: Rect)
        requires
            i32::MIN <= client.right - 10,
            i32::MIN <= client.bottom - 10,
        ensures
            r == (Rect {
                left: client.left,
                top: client.top,
                right: (client.right - 10) as i32,
                bottom: (client.bottom - 10) as i32,
            }),
    {
        Rect {
            left: client.left,
            top: client.top,
            right: client.right - 10,
            bottom: client.bottom - 10,
        }
    }

    /// The fill color of the current state under the current toggle flag.
    pub fn paint_fill_color(&self) -> (c: Color)
        ensures
            c == spec_resolved_color(self.button.state, self.is_toggled, self.colors,
                self.toggled_colors),
    {
        if self.is_toggled {
            match self.button.state {
                State::Idle => self.toggled_colors.default,
                State::Hover => self.toggled_colors.hover,
                State::Down => self.toggled_colors.down,
            }
        } else {
            match self.button.state {
                State::Idle => self.colors.default,
                State::Hover => self.colors.hover,
                State::Down => self.colors.down,
            }
        }
    }
}

/// Delay in milliseconds between press-flash repaint ticks.
pub const FLASH_TICK_DELAY_MS: u64 = 10;

/// Minimum visible press-feedback duration in milliseconds.
pub const FLASH_DURATION_MS: u64 = 50;

/// The press-flash state: a pressed button keeps repainting for a minimum
/// visible duration, however quickly the release arrives.  The host owns
/// the timer; this machine only decides.
#[derive(Clone, Copy, Debug, PartialEq, Eq, Structural)]
pub struct PressFlash {
    pub active: bool,
    pub pressed_at_ms: u64,
}

/// What a flash tick owes the host: a repaint now, and another tick after
/// [`FLASH_TICK_DELAY_MS`].
#[derive(Clone, Copy, Debug, PartialEq, Eq, Structural)]
pub struct FlashTick {
    pub redraw: bool,
    pub reschedule: bool,
}

impl PressFlash {
    /// A fresh, inactive flash.
    pub fn new() -> (f: PressFlash)
        ensures
            !f.active,
            f.pressed_at_ms == 0,
    {
        PressFlash { active: false, pressed_at_ms: 0 }
    }

    /// A press starts (or restarts) the flash at the given time; the host
    /// must schedule the first tick.
    pub fn on_press(&mut self, now_ms: u64)
        ensures
            final(self).active,
            final(self).pressed_at_ms == now_ms,
    {
        self.active = true;
        self.pressed_at_ms = now_ms;
    }

    /// One timer tick: while the flash is active and the press is younger
    /// than [`FLASH_DURATION_MS`], repaint and reschedule; otherwise the
    /// flash clears itself and the timer stops.
    pub fn on_tick(&mut self, now_ms: u64) -> (t: FlashTick)
        requires
            old(self).pressed_at_ms <= now_ms,
        ensures
            t.redraw == t.reschedule,
            (old(self).active && now_ms - old(self).pressed_at_ms < FLASH_DURATION_MS) ==> (
            t.redraw && *final(self) == *old(self)),
            !(old(self).active && now_ms - old(self).pressed_at_ms < FLASH_DURATION_MS) ==> (
            !t.redraw && !final(self).active && final(self).pressed_at_ms == old(
                self,
            ).pressed_at_ms),
    {
        if self.active && now_ms - self.pressed_at_ms < FLASH_DURATION_MS {
            FlashTick { redraw: true, reschedule: true }
        } else {
            self.active = false;
            FlashTick { redraw: false, reschedule: false }
        }
    }
}

/// A press with a release inside the bounds reports the click exactly once:
/// not at the press, once at the release; the button then shows hover.
pub proof fn lemma_click_inside_fires_exactly_once(b: Button)
    ensures
        !spec_response(b, MouseEvent::PrimaryButtonDown).clicked,
        spec_response(
            spec_step(b, MouseEvent::PrimaryButtonDown),
            MouseEvent::PrimaryButtonUp { inside: true },
        ).clicked,
        spec_step(
            spec_step(b, MouseEvent::PrimaryButtonDown),
            MouseEvent::PrimaryButtonUp { inside: true },
        ).state == State::Hover,
{
}

/// Over a press/release pair with the release inside the bounds, a toggle
/// button flips its flag exactly once — at the release, not at the press —
/// and the flag is already flipped in the state that accompanies the click
/// report.
pub proof fn lemma_toggle_flips_once_per_click(t: ToggleButton)
    ensures
        spec_toggle_step(t, MouseEvent::PrimaryButtonDown).is_toggled == t.is_toggled,
        !spec_response(t.button, MouseEvent::PrimaryButtonDown).clicked,
        spec_toggle_step(
            spec_toggle_step(t, MouseEvent::PrimaryButtonDown),
            MouseEvent::PrimaryButtonUp { inside: true },
        ).is_toggled == !t.is_toggled,
        spec_response(
            spec_toggle_step(t, MouseEvent::PrimaryButtonDown).button,
            MouseEvent::PrimaryButtonUp { inside: true },
        ).clicked,
{
}

/// A release outside the bounds reports no click and leaves a toggle
/// button's flag unchanged; the button falls back to idle.
pub proof fn lemma_release_outside_no_click(b: Button, t: ToggleButton)
    ensures
        !spec_response(
            spec_step(b, MouseEvent::PrimaryButtonDown),
            MouseEvent::PrimaryButtonUp { inside: false },
        ).clicked,
        spec_step(
            spec_step(b, MouseEvent::PrimaryButtonDown),
            MouseEvent::PrimaryButtonUp { inside: false },
        ).state == State::Idle,
        spec_toggle_step(
            spec_toggle_step(t, MouseEvent::PrimaryButtonDown),
            MouseEvent::PrimaryButtonUp { inside: false },
        ).is_toggled == t.is_toggled,
{
}

/// The state is always one of idle, hover and down, and a leave
/// notification forces idle whatever came before.
pub proof fn lemma_mouse_leave_resets(b: Button, event: MouseEvent)
    ensures
        spec_step(b, MouseEvent::MouseLeave).state == State::Idle,
        spec_step(b, event).state is Idle || spec_step(b, event).state is Hover || spec_step(
            b,
            event,
        ).state is Down,
{
}

/// Every event preserves the button invariant: a button shown pressed holds
/// the press flag and mouse capture.
pub proof fn lemma_step_preserves_wf(b: Button, event: MouseEvent)
    requires
        b.wf(),
    ensures
        spec_step(b, event).wf(),
{
}

/// Every event preserves the toggle-button invariant: the composed button
/// stays well formed and painted with the set the flag selects.
pub proof fn lemma_toggle_step_preserves_wf(t: ToggleButton, event: MouseEvent)
    requires
        t.wf(),
    ensures
        spec_toggle_step(t, event).wf(),
{
}

/// Color selection is total and deterministic: every pair of interaction
/// state and toggle flag resolves to exactly one color, fixed by the pair
/// and the two color sets alone.
pub proof fn lemma_color_selection_total(
    s: State,
    is_toggled: bool,
    colors: Colors,
    toggled_colors: Colors,
)
    ensures
        spec_resolved_color(s, is_toggled, colors, toggled_colors) == (match (s, is_toggled) {
            (State::Idle, false) => colors.default,
            (State::Hover, false) => colors.hover,
            (State::Down, false) => colors.down,
            (State::Idle, true) => toggled_colors.default,
            (State::Hover, true) => toggled_colors.hover,
            (State::Down, true) => toggled_colors.down,
        }),
{
}

/// A well-formed toggle button's composed button paints exactly the
/// resolved color of its state and flag.
pub proof fn lemma_wf_toggle_paints_resolved(t: ToggleButton)
    requires
        t.wf(),
    ensures
        spec_state_color(t.button.state, t.button.colors) == spec_resolved_color(
            t.button.state,
            t.is_toggled,
            t.colors,
            t.toggled_colors,
        ),
{
}

} // verus!
