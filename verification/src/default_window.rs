//! The default behavior handler and its factory.
//!
//! The handler keeps only local state; its drawing at paint time is a
//! direct pass-through to the host and lives in the host glue, outside
//! the verified library.

use vstd::prelude::*;
use crate::window::{Window, WindowFactory};

verus! {

/// The default behavior handler, bound to the handle of the window it
/// serves.
pub struct DefaultWindow {
    /// The handle of the window this handler serves.
    pub hwnd: u64,
    /// Handler-local state.
    pub i: i32,
    /// Handler-local state.
    pub j: i64,
}

impl DefaultWindow {
    /// A handler bound to `hwnd`, with its local state initialized.
    pub fn new(hwnd: u64) -> (w: DefaultWindow)
        ensures
            w.hwnd == hwnd,
            w.i == 5,
            w.j == 6,
    {
        DefaultWindow { hwnd, i: 5, j: 6 }
    }
}

impl Window for DefaultWindow {
    fn on_create(&self) {
    }

    fn on_destroy(&self) {
    }

    fn paint(&self) {
    }
}

/// Produces a `DefaultWindow` for each window.
pub struct DefaultWindowFactory {}

impl DefaultWindowFactory {
    /// A factory with no state of its own.
    pub fn new() -> (f: DefaultWindowFactory) {
        DefaultWindowFactory {}
    }
}

impl WindowFactory<DefaultWindow> for DefaultWindowFactory {
    fn create_window_object(&self, hwnd: u64) -> (w: DefaultWindow)
        ensures
            w.hwnd == hwnd,
            w.i == 5,
            w.j == 6,
    {
        DefaultWindow::new(hwnd)
    }
}

} // verus!
