//! Custom window-chrome logic: button hover/press state machines, toggle
//! buttons, a tab strip, non-client hit testing and DPI-aware layout of the
//! title-bar controls.
//!
//! The crate holds the decision logic only.  The platform's windowing and
//! drawing calls (window creation, the message pump, painting, capture,
//! DPI and theme queries) live outside: a host feeds events and measured
//! values in, and carries the returned actions and rectangles out.

pub mod button;
pub mod chrome;
pub mod color;
pub mod error;
pub mod geometry;
pub mod layout;
pub mod registry;
pub mod tab_bar;
