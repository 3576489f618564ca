//! The two kinds of failure: one that may pass when the operation is tried
//! again, and one that trying again cannot mend.

use vstd::prelude::*;
use vstd::string::StringExecFns;

verus! {

/// Why an operation failed, and whether trying it again may help.
#[derive(Clone, Debug, PartialEq, Eq)]
pub enum Error {
    /// The failure is expected to pass; the cause is kept.
    Retryable(String),
    /// The failure forces the transfer to be given up; the cause is kept.
    Unrecoverable(String),
}

/// An [`Error`] as a value of mathematics.
pub enum ErrorView {
    Retryable(Seq<char>),
    Unrecoverable(Seq<char>),
}

impl ErrorView {
    /// The cause that the failure carries.
    pub open spec fn cause(self) -> Seq<char> {
        match self {
            ErrorView::Retryable(cause) => cause,
            ErrorView::Unrecoverable(cause) => cause,
        }
    }

    /// The failure in words: its kind, then its cause.
    pub open spec fn message(self) -> Seq<char> {
        match self {
            ErrorView::Retryable(cause) => "Retryable error: "@ + cause,
            ErrorView::Unrecoverable(cause) => "Unrecoverable error: "@ + cause,
        }
    }
}

impl View for Error {
    type V = ErrorView;

    open spec fn view(&self) -> ErrorView {
        match self {
            Error::Retryable(cause) => ErrorView::Retryable(cause@),
            Error::Unrecoverable(cause) => ErrorView::Unrecoverable(cause@),
        }
    }
}

impl Error {
    /// Whether trying again may help.
    pub fn is_retryable(&self) -> (retryable: bool)
        ensures
            retryable == (self@ is Retryable),
    {
        match self {
            Error::Retryable(_) => true,
            Error::Unrecoverable(_) => false,
        }
    }

    /// The cause that the failure carries.
    pub fn cause(&self) -> (cause: &String)
        ensures
            cause@ == self@.cause(),
    {
        match self {
            Error::Retryable(cause) => cause,
            Error::Unrecoverable(cause) => cause,
        }
    }

    /// The failure in words: its kind, then its cause.
    pub fn message(&self) -> (message: String)
        ensures
            message@ == self@.message(),
    {
        match self {
            Error::Retryable(cause) => {
                String::from_str("Retryable error: ").concat(cause.as_str())
            },
            Error::Unrecoverable(cause) => {
                String::from_str("Unrecoverable error: ").concat(cause.as_str())
            },
        }
    }
}

/// Where a failure arose while a part was transferred.
#[derive(Clone, Copy, Debug, PartialEq, Eq)]
pub enum Origin {
    /// At the local file: it could not be opened, or not be set to the
    /// part's offset.
    LocalFile,
    /// At the service: the request failed, or the stream of bytes broke
    /// off.
    Remote,
}

/// The kind of a failure that arose at `origin`: what fails at the local
/// file will fail again, what fails at the service may pass.
pub open spec fn failure_at(origin: Origin, cause: Seq<char>) -> ErrorView {
    match origin {
        Origin::LocalFile => ErrorView::Unrecoverable(cause),
        Origin::Remote => ErrorView::Retryable(cause),
    }
}

/// Classifies a failure that arose at `origin` while a part was
/// transferred.
pub fn classify(origin: Origin, cause: String) -> (error: Error)
    ensures
        error@ == failure_at(origin, cause@),
{
    match origin {
        Origin::LocalFile => Error::Unrecoverable(cause),
        Origin::Remote => Error::Retryable(cause),
    }
}

/// Marks the failure of `result`, if it is one, as worth trying again.
pub fn into_retryable<T>(result: Result<T, String>) -> (marked: Result<T, Error>)
    ensures
        marked == match result {
            Ok(value) => Ok::<T, Error>(value),
            Err(cause) => Err(Error::Retryable(cause)),
        },
{
    match result {
        Ok(value) => Ok(value),
        Err(cause) => Err(Error::Retryable(cause)),
    }
}

/// Marks the failure of `result`, if it is one, as beyond mending.
pub fn into_unrecoverable<T>(result: Result<T, String>) -> (marked: Result<T, Error>)
    ensures
        marked == match result {
            Ok(value) => Ok::<T, Error>(value),
            Err(cause) => Err(Error::Unrecoverable(cause)),
        },
{
    match result {
        Ok(value) => Ok(value),
        Err(cause) => Err(Error::Unrecoverable(cause)),
    }
}

/// Gives up with `message`: a failure that is beyond mending.
pub fn bail<T>(message: &str) -> (failed: Result<T, Error>)
    ensures
        failed matches Err(error) && error@ == ErrorView::Unrecoverable(message@),
{
    Err(Error::Unrecoverable(String::from_str(message)))
}

} // verus!
