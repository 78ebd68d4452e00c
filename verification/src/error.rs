//! The errors that reader operations report.

use vstd::prelude::*;

verus! {

/// What went wrong in a reader operation.
#[derive(Debug, PartialEq, Eq)]
pub enum NativeExtensionsError {
    /// The foreign runtime was unavailable or a foreign call failed; the text
    /// describes the failure.
    OtherError(String),
    /// The operation is not offered by this reader. This is distinct from a
    /// failure: the capability does not exist.
    UnsupportedOperation,
}

/// The mathematical value of a [`NativeExtensionsError`].
pub ghost enum ErrorView {
    OtherError(Seq<char>),
    UnsupportedOperation,
}

impl View for NativeExtensionsError {
    type V = ErrorView;

    open spec fn view(&self) -> ErrorView {
        match self {
            NativeExtensionsError::OtherError(text) => ErrorView::OtherError(text@),
            NativeExtensionsError::UnsupportedOperation => ErrorView::UnsupportedOperation,
        }
    }
}

/// The result of a reader operation.
pub type NativeExtensionsResult<T> = Result<T, NativeExtensionsError>;

impl Clone for NativeExtensionsError {
    fn clone(&self) -> (copy: Self)
        ensures
            copy == *self,
    {
        match self {
            NativeExtensionsError::OtherError(text) => NativeExtensionsError::OtherError(
                text.clone(),
            ),
            NativeExtensionsError::UnsupportedOperation => NativeExtensionsError::UnsupportedOperation,
        }
    }
}

impl NativeExtensionsError {
    /// A description of the error for people.
    pub fn message(&self) -> (text: String)
        ensures
            text@ == self.spec_message(),
    {
        match self {
            NativeExtensionsError::OtherError(text) => text.clone(),
            NativeExtensionsError::UnsupportedOperation => "unsupported operation".to_owned(),
        }
    }

    /// The text that [`NativeExtensionsError::message`] returns.
    pub open spec fn spec_message(&self) -> Seq<char> {
        match self {
            NativeExtensionsError::OtherError(text) => text@,
            NativeExtensionsError::UnsupportedOperation => "unsupported operation"@,
        }
    }

    /// Whether this is the error of an operation that the reader does not offer.
    pub fn is_unsupported(&self) -> (b: bool)
        ensures
            b == (self@ == ErrorView::UnsupportedOperation),
    {
        match self {
            NativeExtensionsError::OtherError(_) => false,
            NativeExtensionsError::UnsupportedOperation => true,
        }
    }
}

} // verus!
