//! Error types.
use vstd::prelude::*;
use vstd::string::StringExecFns;

verus! {

/// What went wrong, by origin.
#[derive(Clone, Debug)]
pub enum PitchforkErrorKind {
    /// A failure of the HTTP layer (connection, timeout).
    Reqwest,
    /// A failure to serialize rows as CSV.
    Csv,
    /// A failure to serialize or deserialize JSON.
    Serde,
    /// A non-success answer from the server: its status code and body.
    DomoBadRequest(u16, String),
    /// A local I/O failure.
    Io,
    Unknown,
}

/// An error of this crate: its kind and, where there is one, the text of the
/// underlying cause.
#[derive(Clone, Debug)]
pub struct PitchforkError {
    pub kind: PitchforkErrorKind,
    pub source: Option<String>,
}

impl PitchforkError {
    /// An error of unknown kind caused by `e`.
    pub fn from(e: String) -> (r: PitchforkError)
        ensures
            r.kind == PitchforkErrorKind::Unknown,
            r.source == Some(e),
    {
        PitchforkError { kind: PitchforkErrorKind::Unknown, source: Some(e) }
    }

    /// The same error, now caused by `e`.
    pub fn with_source(self, e: String) -> (r: PitchforkError)
        ensures
            r.kind == self.kind,
            r.source == Some(e),
    {
        PitchforkError { source: Some(e), ..self }
    }

    /// An error of unknown kind caused by `e`.
    pub fn new(e: String) -> (r: PitchforkError)
        ensures
            r.kind == PitchforkErrorKind::Unknown,
            r.source == Some(e),
    {
        PitchforkError { kind: PitchforkErrorKind::Unknown, source: Some(e) }
    }

    /// Change the kind, keeping the cause.
    pub fn with_kind(&mut self, k: PitchforkErrorKind)
        ensures
            final(self).kind == k,
            final(self).source == old(self).source,
    {
        self.kind = k;
    }
}

/// A plain error message.
#[derive(Clone, Debug)]
pub struct DomoErr(pub String);

impl DomoErr {
    /// The message as shown to a user.
    pub fn message(&self) -> (r: String)
        ensures
            r@ == "There is an error: "@ + self.0@,
    {
        let mut r = String::from_str("There is an error: ");
        r.append(self.0.as_str());
        r
    }
}

/// The body the server sends with a non-success status.
#[derive(Clone, Debug)]
pub struct DomoApiError {
    pub status: u16,
    pub status_reason: Option<String>,
    pub message: String,
    pub path: Option<String>,
    pub toe: Option<String>,
}

/// Errors of the command-line tool.
#[derive(Clone, Debug)]
pub enum CliError {
    /// A bad command-line flag.
    Flag(String),
    /// A CSV failure, as text.
    Csv(String),
    /// An I/O failure, as text.
    Io(String),
    Other(String),
}

impl CliError {
    /// The message as shown to a user: the text that the variant carries.
    pub fn message(&self) -> (r: String)
        ensures
            r@ == match self {
                CliError::Flag(s) => s@,
                CliError::Csv(s) => s@,
                CliError::Io(s) => s@,
                CliError::Other(s) => s@,
            },
    {
        match self {
            CliError::Flag(s) => s.clone(),
            CliError::Csv(s) => s.clone(),
            CliError::Io(s) => s.clone(),
            CliError::Other(s) => s.clone(),
        }
    }
}

} // verus!
