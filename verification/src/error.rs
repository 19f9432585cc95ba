//! The failures that a run can meet, from configuration to transport.

use crate::text::{decimal, push_decimal};
use vstd::prelude::*;

verus! {

/// What went wrong.
#[derive(Clone, Debug, PartialEq, Eq)]
pub enum Error {
    /// The configuration cannot be built: no URL, a URL without host or
    /// port, or a method that is no HTTP token.
    Configuration(String),
    /// The URL parser rejected the URL.
    InvalidURL(String),
    /// A TCP, TLS or HTTP transport failure, or a scheme that is neither
    /// `http` nor `https`.
    IO(String),
    /// A response came back in full with a status outside 2xx.
    Http(u16),
}

/// An [`Error`] with its text as a sequence of characters.
pub enum ErrorView {
    Configuration(Seq<char>),
    InvalidURL(Seq<char>),
    IO(Seq<char>),
    Http(u16),
}

impl View for Error {
    type V = ErrorView;

    open spec fn view(&self) -> ErrorView {
        match self {
            Error::Configuration(m) => ErrorView::Configuration(m@),
            Error::InvalidURL(m) => ErrorView::InvalidURL(m@),
            Error::IO(m) => ErrorView::IO(m@),
            Error::Http(status) => ErrorView::Http(*status),
        }
    }
}

impl ErrorView {
    /// The line that reports this error to the operator.
    pub open spec fn text(self) -> Seq<char> {
        match self {
            ErrorView::Configuration(m) => "Configuration error: "@ + m,
            ErrorView::InvalidURL(m) => "Invalid URL: "@ + m,
            ErrorView::IO(m) => "HTTP error: "@ + m,
            ErrorView::Http(status) => "HTTP status "@ + decimal(status as nat),
        }
    }
}

impl Error {
    /// The line that reports this error to the operator.
    pub fn to_string(&self) -> (line: String)
        ensures
            line@ == self@.text(),
    {
        match self {
            Error::Configuration(m) => {
                let mut line = String::from_str("Configuration error: ");
                line.append(m.as_str());
                line
            },
            Error::InvalidURL(m) => {
                let mut line = String::from_str("Invalid URL: ");
                line.append(m.as_str());
                line
            },
            Error::IO(m) => {
                let mut line = String::from_str("HTTP error: ");
                line.append(m.as_str());
                line
            },
            Error::Http(status) => {
                let mut line = String::from_str("HTTP status ");
                push_decimal(&mut line, *status as u128);
                line
            },
        }
    }
}

} // verus!
