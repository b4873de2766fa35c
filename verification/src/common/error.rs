//! The error type of every operation of the tool.
use vstd::prelude::*;
use vstd::string::*;

verus! {

/// Errors of the tool. Errors of outside libraries are kept as their message.
#[derive(Clone, Debug)]
pub enum BiError {
    /// A failure described by a message.
    StringError(String),
    /// A request answered with a status outside 200-299: the status code and the body.
    RequestError(u16, String),
    /// A `--filter` argument that cannot be used.
    InvalidFilter(String),
    /// A configuration file that could not be read: its path.
    ConfigFileNotFound(String),
    /// A file that could not be written: its path.
    UnableToWriteFile(String),
    /// A JSON (de)serialization failure: its message.
    SerdeError(String),
    /// A URL that could not be parsed: the parser's message.
    InvalidUrl(String),
    /// A failure of the HTTP client: its message.
    RequestFailed(String),
}

/// A `BiError` with its texts as character sequences.
pub enum BiErrorView {
    StringError(Seq<char>),
    RequestError(u16, Seq<char>),
    InvalidFilter(Seq<char>),
    ConfigFileNotFound(Seq<char>),
    UnableToWriteFile(Seq<char>),
    SerdeError(Seq<char>),
    InvalidUrl(Seq<char>),
    RequestFailed(Seq<char>),
}

impl View for BiError {
    type V = BiErrorView;

    open spec fn view(&self) -> BiErrorView {
        match self {
            BiError::StringError(m) => BiErrorView::StringError(m@),
            BiError::RequestError(s, m) => BiErrorView::RequestError(*s, m@),
            BiError::InvalidFilter(m) => BiErrorView::InvalidFilter(m@),
            BiError::ConfigFileNotFound(m) => BiErrorView::ConfigFileNotFound(m@),
            BiError::UnableToWriteFile(m) => BiErrorView::UnableToWriteFile(m@),
            BiError::SerdeError(m) => BiErrorView::SerdeError(m@),
            BiError::InvalidUrl(m) => BiErrorView::InvalidUrl(m@),
            BiError::RequestFailed(m) => BiErrorView::RequestFailed(m@),
        }
    }
}

/// A `StringError` with the message `m`.
pub fn string_error(m: &str) -> (r: BiError)
    ensures
        r@ == BiErrorView::StringError(m@),
{
    BiError::StringError(String::from_str(m))
}

} // verus!
