use vstd::prelude::*;

verus! {

/// What a call into this library can fail with.
#[derive(Debug, Clone, PartialEq, Eq)]
pub enum InputtinoError {
    /// A failure of the native library, represented by an error message.
    Generic(String),
    /// A text argument holds a null byte, so that no null-terminated string
    /// can stand for it.
    InvalidArgument,
}

/// An [`InputtinoError`] with its message as a sequence of characters.
pub enum ErrorView {
    Generic(Seq<char>),
    InvalidArgument,
}

impl View for InputtinoError {
    type V = ErrorView;

    open spec fn view(&self) -> ErrorView {
        match self {
            InputtinoError::Generic(error_message) => ErrorView::Generic(error_message@),
            InputtinoError::InvalidArgument => ErrorView::InvalidArgument,
        }
    }
}

impl ErrorView {
    /// The text shown for this error: the message it carries, or a fixed
    /// description where it carries none.
    pub open spec fn message(self) -> Seq<char> {
        match self {
            ErrorView::Generic(error_message) => error_message,
            ErrorView::InvalidArgument => "text argument contains a null byte"@,
        }
    }
}

impl InputtinoError {
    /// The text shown for this error.
    pub fn message(&self) -> (text: String)
        ensures
            text@ == self@.message(),
    {
        match self {
            InputtinoError::Generic(error_message) => error_message.clone(),
            InputtinoError::InvalidArgument => "text argument contains a null byte".to_owned(),
        }
    }
}

} // verus!
