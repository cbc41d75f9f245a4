//! Failures of the task crawler.
use vstd::prelude::*;
use vstd::string::*;

verus! {

/// `url::ParseError`, the error of the URL parser, carried as it is.
#[verifier::external_type_specification]
#[verifier::external_body]
pub struct ExParseError(url::ParseError);

/// What went wrong while a task was made or carried out.
#[derive(Debug)]
pub enum ErrorKind {
    /// A failure that is only a message.
    Msg(String),
    /// A text that is no absolute URL.
    Url(url::ParseError),
    /// A failure of the HTTP client, by its message.
    Reqwest(String),
    /// A failure of the filesystem, by its message.
    IO(String),
    /// A failure of the script engine, by its message.
    DukError(String),
    /// A failure of the module loader of the script engine, by its message.
    DukCJSError(String),
    /// An HTTP response that is no success, by its status code.
    Http(u16),
}

#[derive(Debug)]
pub struct Error {
    pub kind: ErrorKind,
}

pub type Result<T> = std::result::Result<T, Error>;

impl Error {
    pub fn new(kind: ErrorKind) -> (r: Error)
        ensures
            r.kind == kind,
    {
        Error { kind }
    }

    /// The failure that is the message `text`.
    pub fn msg(text: &str) -> (r: Error)
        ensures
            r.kind matches ErrorKind::Msg(m) && m@ == text@,
    {
        Error { kind: ErrorKind::Msg(String::from_str(text)) }
    }

    pub fn kind(&self) -> (r: &ErrorKind)
        ensures
            *r == self.kind,
    {
        &self.kind
    }
}

} // verus!
