//! The error of every operation.

use vstd::prelude::*;

verus! {

/// Why an operation did not succeed.
#[derive(Debug, PartialEq, Eq)]
pub enum CodexxError {
    /// Raised here: the text tells the user what stands in the way.
    Config(String),
    /// Raised by the storage layer: the text is how that error displays.
    Storage(String),
}

/// The model of a `CodexxError`.
#[verifier::ext_equal]
pub enum ErrorView {
    Config(Seq<char>),
    Storage(Seq<char>),
}

impl ErrorView {
    /// How the error displays.
    pub open spec fn text(self) -> Seq<char> {
        match self {
            ErrorView::Config(text) => text,
            ErrorView::Storage(text) => text,
        }
    }
}

impl View for CodexxError {
    type V = ErrorView;

    open spec fn view(&self) -> ErrorView {
        match self {
            CodexxError::Config(text) => ErrorView::Config(text@),
            CodexxError::Storage(text) => ErrorView::Storage(text@),
        }
    }
}

impl CodexxError {
    /// How the error displays.
    pub fn message(&self) -> (r: &String)
        ensures
            r@ == self@.text(),
    {
        match self {
            CodexxError::Config(text) => text,
            CodexxError::Storage(text) => text,
        }
    }
}

/// The model of a result that may be a `CodexxError`.
pub open spec fn result_view<T: View>(r: Result<T, CodexxError>) -> Result<T::V, ErrorView> {
    match r {
        Ok(value) => Ok(value@),
        Err(error) => Err(error@),
    }
}

} // verus!
