//! What can go wrong while tracing is set up.

use vstd::prelude::*;

verus! {

/// A failure of the set-up, with the words of the part that failed.
#[derive(Debug)]
pub enum Error {
    /// A log file could not be opened or written.
    IoError(String),
    /// The process already has a global subscriber.
    SetGlobalDefaultError,
    /// The trace pipeline could not be built.
    TraceError(String),
    /// An exporter could not be built.
    ExporterBuildError(String),
    /// A filter directive does not parse.
    FilterParseError(String),
}

/// A failure of the set-up, as a mathematical value.
pub enum ErrorView {
    IoError(Seq<char>),
    SetGlobalDefaultError,
    TraceError(Seq<char>),
    ExporterBuildError(Seq<char>),
    FilterParseError(Seq<char>),
}

impl View for Error {
    type V = ErrorView;

    open spec fn view(&self) -> ErrorView {
        match self {
            Error::IoError(m) => ErrorView::IoError(m@),
            Error::SetGlobalDefaultError => ErrorView::SetGlobalDefaultError,
            Error::TraceError(m) => ErrorView::TraceError(m@),
            Error::ExporterBuildError(m) => ErrorView::ExporterBuildError(m@),
            Error::FilterParseError(m) => ErrorView::FilterParseError(m@),
        }
    }
}

impl ErrorView {
    /// The failure in words.
    pub open spec fn message(self) -> Seq<char> {
        match self {
            ErrorView::IoError(m) => m,
            ErrorView::SetGlobalDefaultError =>
                "a global default trace dispatcher has already been set"@,
            ErrorView::TraceError(m) => m,
            ErrorView::ExporterBuildError(m) => m,
            ErrorView::FilterParseError(m) => m,
        }
    }
}

impl Error {
    /// The failure in words.
    pub fn to_string(&self) -> (s: String)
        ensures
            s@ == self@.message(),
    {
        match self {
            Error::IoError(m) => m.clone(),
            Error::SetGlobalDefaultError => "a global default trace dispatcher has already been set".to_owned(),
            Error::TraceError(m) => m.clone(),
            Error::ExporterBuildError(m) => m.clone(),
            Error::FilterParseError(m) => m.clone(),
        }
    }
}

} // verus!
