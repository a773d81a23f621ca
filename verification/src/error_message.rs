//! The message of the window that is shown when the program cannot run.

use vstd::prelude::*;

verus! {

/// Width and height of the error window.
pub const ERROR_WINDOW_SIZE: (u32, u32) = (200, 128);

/// The state of the error window: the text it shows.
#[derive(Debug, Clone, PartialEq, Eq)]
pub struct ErrorMessage(pub String);

impl View for ErrorMessage {
    type V = Seq<char>;

    open spec fn view(&self) -> Seq<char> {
        self.0@
    }
}

impl ErrorMessage {
    /// An error window for `message`.
    pub fn new(message: String) -> (r: Self)
        ensures
            r@ == message@,
    {
        ErrorMessage(message)
    }

    /// The text to show.
    pub fn message(&self) -> (text: &str)
        ensures
            text@ == self@,
    {
        self.0.as_str()
    }
}

} // verus!
