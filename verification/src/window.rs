//! The windows of the user interface.

use vstd::prelude::*;

verus! {

/// A window of the user interface.
#[derive(Clone, Copy, Debug, PartialEq, Eq, Structural)]
pub enum Window {
    Main,
    Settings,
}

impl Window {
    /// The label of the window.
    pub open spec fn label(self) -> Seq<char> {
        match self {
            Window::Main => "main"@,
            Window::Settings => "settings"@,
        }
    }

    /// The label of the window.
    pub fn as_str(&self) -> (r: &'static str)
        ensures
            r@ == self.label(),
    {
        match self {
            Window::Main => "main",
            Window::Settings => "settings",
        }
    }

    /// The window with the label `label`, if there is one.
    pub fn from_label(label: &str) -> (r: Option<Window>)
        ensures
            match r {
                Some(w) => w.label() == label@,
                None => label@ != "main"@ && label@ != "settings"@,
            },
    {
        let chars = crate::text::chars_of(label);
        if crate::text::same_chars(&chars, &crate::text::chars_of("main")) {
            Some(Window::Main)
        } else if crate::text::same_chars(&chars, &crate::text::chars_of("settings")) {
            Some(Window::Settings)
        } else {
            None
        }
    }
}

} // verus!
