//! The errors that the service reports.

use vstd::prelude::*;

verus! {

/// What went wrong inside the service, for the log: the step that failed.
#[derive(Clone, Copy, Debug, PartialEq, Eq)]
pub struct ErrorChain {
    pub context: &'static str,
}

impl ErrorChain {
    /// The failure of the step named `context`.
    pub fn new(context: &'static str) -> (chain: Self)
        ensures
            chain == (ErrorChain { context }),
    {
        ErrorChain { context }
    }
}

/// An error, as the caller of the service sees it.
#[derive(Clone, Copy, Debug, PartialEq, Eq)]
pub enum Error {
    /// A value did not have the shape it must have; the reason says which
    /// rule it broke.
    Validation(&'static str),
    /// An account with this email address exists.
    AccountExists,
    /// The caller is not signed in: no token, an expired or unreadable one,
    /// or the account is gone.
    LoggedOff,
    /// Wrong password or unknown account; the caller cannot tell which.
    InvalidCredentials,
    /// No such resource, or an identifier that names none.
    NotFound,
    /// The caller is known and lacks the right.
    Unauthorized,
    /// A failure inside the service; its detail stays in the log.
    Internal(ErrorChain),
}

impl Error {
    /// The internal error for the failure of the step named `context`.
    pub fn internal(context: &'static str) -> (e: Self)
        ensures
            e == Error::Internal(ErrorChain { context }),
    {
        Error::Internal(ErrorChain::new(context))
    }

    /// The message shown to the caller.
    pub fn message(&self) -> (text: &'static str)
        ensures
            text == match *self {
                Error::Validation(reason) => reason,
                Error::AccountExists => "account already exists",
                Error::LoggedOff => "sign in to continue",
                Error::InvalidCredentials => "wrong email or password",
                Error::NotFound => "requested resource not found",
                Error::Unauthorized => "no permission for the resourse",
                Error::Internal(_) => "an unexpected error occurred",
            },
    {
        match *self {
            Error::Validation(reason) => reason,
            Error::AccountExists => "account already exists",
            Error::LoggedOff => "sign in to continue",
            Error::InvalidCredentials => "wrong email or password",
            Error::NotFound => "requested resource not found",
            Error::Unauthorized => "no permission for the resourse",
            Error::Internal(_) => "an unexpected error occurred",
        }
    }
}

} // verus!
