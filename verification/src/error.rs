//! The failures of discovery.

use vstd::prelude::*;
use crate::text::joined;

verus! {

/// Why the host could not be resolved to a supported vendor.
#[derive(Debug, PartialEq, Eq)]
pub enum Error {
    /// The operating system is none of the supported ones. Holds the
    /// lower-case token that was not recognised.
    UnsupportedSystem(String),
    /// The host is Linux, of a distribution family that is not supported.
    /// Holds the lower-case token that was not recognised.
    UnsupportedDistro(String),
    /// The host could not be queried. Holds the reason.
    Failed(String),
}

/// An [`Error`] with its text as a sequence of characters.
pub enum ErrorView {
    UnsupportedSystem(Seq<char>),
    UnsupportedDistro(Seq<char>),
    Failed(Seq<char>),
}

impl ErrorView {
    /// The sentence that tells a user of the failure.
    pub open spec fn message(self) -> Seq<char> {
        match self {
            ErrorView::UnsupportedSystem(system) => system + " is not supported yet"@,
            ErrorView::UnsupportedDistro(distro) => distro + " is not supported yet"@,
            ErrorView::Failed(reason) => reason,
        }
    }

    /// The kind of failure, in a few fixed words.
    pub open spec fn description(self) -> Seq<char> {
        match self {
            ErrorView::UnsupportedSystem(_) => "unsupported system"@,
            ErrorView::UnsupportedDistro(_) => "unsupported distro"@,
            ErrorView::Failed(_) => "execution failed"@,
        }
    }
}

impl View for Error {
    type V = ErrorView;

    open spec fn view(&self) -> ErrorView {
        match self {
            Error::UnsupportedSystem(system) => ErrorView::UnsupportedSystem(system@),
            Error::UnsupportedDistro(distro) => ErrorView::UnsupportedDistro(distro@),
            Error::Failed(reason) => ErrorView::Failed(reason@),
        }
    }
}

impl Error {
    /// The sentence that tells a user of the failure.
    pub fn message(&self) -> (text: String)
        ensures
            text@ == self@.message(),
    {
        match self {
            Error::UnsupportedSystem(system) => joined(system.as_str(), " is not supported yet"),
            Error::UnsupportedDistro(distro) => joined(distro.as_str(), " is not supported yet"),
            Error::Failed(reason) => reason.clone(),
        }
    }

    /// The kind of failure, in a few fixed words.
    pub fn description(&self) -> (text: &'static str)
        ensures
            text@ == self@.description(),
    {
        match self {
            Error::UnsupportedSystem(_) => "unsupported system",
            Error::UnsupportedDistro(_) => "unsupported distro",
            Error::Failed(_) => "execution failed",
        }
    }
}

/// The outcome of a fallible step, with the failure by its view.
pub open spec fn outcome_view<T>(outcome: Result<T, Error>) -> Result<T, ErrorView> {
    match outcome {
        Ok(value) => Ok(value),
        Err(failure) => Err(failure@),
    }
}

/// What a discovery backend answered, as sequences of characters.
pub open spec fn report_view(report: Result<String, Error>) -> Result<Seq<char>, ErrorView> {
    match report {
        Ok(raw) => Ok(raw@),
        Err(failure) => Err(failure@),
    }
}

} // verus!
