//! Failure taxonomy of the crawling pipeline.
use vstd::prelude::*;
use vstd::string::*;

verus! {

/// What went wrong. Failures that come from I/O, from deserialization or from
/// the asynchronous substrate are carried as their message text.
#[derive(Debug)]
pub enum CrawlErrorKind {
    Unknown,
    /// A failure surfaced by the substrate that ran an executor.
    Conveyor(String),
    /// An opaque wrapped external failure.
    Error(String),
    /// An unresolved flow name, a missing file or a missing path.
    NotFound(String),
    /// A malformed or unsupported description file, by its path.
    InvalidDescriptionFile(String),
    /// A filesystem or process failure.
    Io(String),
}

/// The mathematical model of a [`CrawlErrorKind`].
pub enum ErrorKindView {
    Unknown,
    Conveyor(Seq<char>),
    Error(Seq<char>),
    NotFound(Seq<char>),
    InvalidDescriptionFile(Seq<char>),
    Io(Seq<char>),
}

impl View for CrawlErrorKind {
    type V = ErrorKindView;

    open spec fn view(&self) -> ErrorKindView {
        match *self {
            CrawlErrorKind::Unknown => ErrorKindView::Unknown,
            CrawlErrorKind::Conveyor(s) => ErrorKindView::Conveyor(s@),
            CrawlErrorKind::Error(s) => ErrorKindView::Error(s@),
            CrawlErrorKind::NotFound(s) => ErrorKindView::NotFound(s@),
            CrawlErrorKind::InvalidDescriptionFile(s) => ErrorKindView::InvalidDescriptionFile(s@),
            CrawlErrorKind::Io(s) => ErrorKindView::Io(s@),
        }
    }
}

#[derive(Debug)]
pub struct CrawlError {
    pub kind: CrawlErrorKind,
}

pub type CrawlResult<T> = Result<T, CrawlError>;

impl View for CrawlError {
    type V = ErrorKindView;

    open spec fn view(&self) -> ErrorKindView {
        self.kind@
    }
}

/// The text that [`CrawlError::message`] renders for an error of the given kind.
pub open spec fn error_text(kind: ErrorKindView) -> Seq<char> {
    match kind {
        ErrorKindView::Conveyor(s) => "CrawlError<Conveyor("@ + s + ")>"@,
        ErrorKindView::NotFound(s) => "CrawlError<NotFound("@ + s + ")>"@,
        _ => "CrawlError<Unknown>"@,
    }
}

impl CrawlError {
    pub fn new(kind: CrawlErrorKind) -> (r: CrawlError)
        ensures
            r.kind == kind,
    {
        CrawlError { kind }
    }

    pub fn kind(&self) -> (r: &CrawlErrorKind)
        ensures
            *r == self.kind,
    {
        &self.kind
    }

    /// An error for a flow name, file or path that could not be resolved.
    pub fn not_found(what: &str) -> (r: CrawlError)
        ensures
            r@ == ErrorKindView::NotFound(what@),
    {
        CrawlError { kind: CrawlErrorKind::NotFound(String::from_str(what)) }
    }

    /// An error for a failure reported by the substrate that ran an executor.
    pub fn conveyor(message: String) -> (r: CrawlError)
        ensures
            r.kind == CrawlErrorKind::Conveyor(message),
    {
        CrawlError { kind: CrawlErrorKind::Conveyor(message) }
    }

    /// Renders the error as text: the kind and its message between angle
    /// brackets for executor and not-found failures, `Unknown` for the rest.
    pub fn message(&self) -> (r: String)
        ensures
            r@ == error_text(self@),
    {
        match &self.kind {
            CrawlErrorKind::Conveyor(s) => {
                let mut out = String::from_str("CrawlError<Conveyor(");
                out.append(s.as_str());
                out.append(")>");
                out
            },
            CrawlErrorKind::NotFound(s) => {
                let mut out = String::from_str("CrawlError<NotFound(");
                out.append(s.as_str());
                out.append(")>");
                out
            },
            _ => String::from_str("CrawlError<Unknown>"),
        }
    }

    /// A copy of the error.
    pub fn duplicate(&self) -> (r: CrawlError)
        ensures
            r == *self,
    {
        let kind = match &self.kind {
            CrawlErrorKind::Unknown => CrawlErrorKind::Unknown,
            CrawlErrorKind::Conveyor(s) => CrawlErrorKind::Conveyor(s.clone()),
            CrawlErrorKind::Error(s) => CrawlErrorKind::Error(s.clone()),
            CrawlErrorKind::NotFound(s) => CrawlErrorKind::NotFound(s.clone()),
            CrawlErrorKind::InvalidDescriptionFile(s) => CrawlErrorKind::InvalidDescriptionFile(
                s.clone(),
            ),
            CrawlErrorKind::Io(s) => CrawlErrorKind::Io(s.clone()),
        };
        CrawlError { kind }
    }
}

impl From<CrawlErrorKind> for CrawlError {
    fn from(error: CrawlErrorKind) -> (r: CrawlError) {
        CrawlError::new(error)
    }
}

impl vstd::std_specs::convert::FromSpecImpl<CrawlErrorKind> for CrawlError {
    open spec fn obeys_from_spec() -> bool {
        true
    }

    open spec fn from_spec(error: CrawlErrorKind) -> CrawlError {
        CrawlError { kind: error }
    }
}

} // verus!
