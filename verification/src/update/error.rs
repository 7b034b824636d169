use vstd::prelude::*;

verus! {

/// The observable content of an update error: its stable code and its message.
pub struct ErrorView {
    pub code: Seq<char>,
    pub message: Seq<char>,
}

/// Error of the update flow: a stable code plus a message that can be shown to the user.
#[derive(Clone, Debug, Eq, PartialEq)]
pub struct UpdateError {
    code: &'static str,
    message: String,
}

impl View for UpdateError {
    type V = ErrorView;

    closed spec fn view(&self) -> ErrorView {
        ErrorView { code: self.code@, message: self.message@ }
    }
}

impl UpdateError {
    pub fn new(code: &'static str, message: String) -> (r: Self)
        ensures
            r@ == (ErrorView { code: code@, message: message@ }),
    {
        UpdateError { code, message }
    }

    pub fn code(&self) -> (r: &'static str)
        ensures
            r@ == self@.code,
    {
        self.code
    }

    pub fn message(&self) -> (r: &str)
        ensures
            r@ == self@.message,
    {
        self.message.as_str()
    }
}

/// An update error with the given code and message.
pub open spec fn err_view(code: Seq<char>, message: Seq<char>) -> ErrorView {
    ErrorView { code, message }
}

} // verus!
