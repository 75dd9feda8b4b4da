//! The error type of the library.

use vstd::prelude::*;

verus! {

/// What went wrong.
#[derive(Debug, Clone, Copy, PartialEq, Eq, Structural)]
pub enum Kind {
    /// A request could not be put together (for instance an address that does
    /// not parse as a URL).
    Builder,
    /// A response body did not have the expected shape.
    Decode,
    /// The agent answered with something that is not a valid response.
    InvalidResponse,
    /// The requested key does not exist.
    KeyNotFound,
    /// A response that must carry a change index lacked one.
    MissingIndex,
    /// A lock operation was asked for without a session id.
    MissingSessionFlag,
    /// The transport failed to deliver the request or its answer.
    Request,
    /// The requested service does not exist.
    ServiceNotFound,
    /// The agent answered with a status other than success or "not found".
    UnexpectedResponse,
}

/// The short description of each kind of error.
pub open spec fn kind_text(kind: Kind) -> Seq<char> {
    match kind {
        Kind::Builder => "builder error"@,
        Kind::Decode => "decoding error"@,
        Kind::InvalidResponse => "invalid response from server"@,
        Kind::KeyNotFound => "key not found"@,
        Kind::MissingIndex => "missing index"@,
        Kind::MissingSessionFlag => "missing session flag"@,
        Kind::Request => "error sending request"@,
        Kind::ServiceNotFound => "service not found"@,
        Kind::UnexpectedResponse => "unexpected response from server"@,
    }
}

/// An error of the library: its kind, and optionally a text that says more
/// (the body of an unexpected response, the message of a failed decode).
#[derive(Debug, Clone)]
pub struct Error {
    kind: Kind,
    source: Option<String>,
}

impl Error {
    /// The kind of this error.
    pub closed spec fn spec_kind(&self) -> Kind {
        self.kind
    }

    /// The text attached to this error, if any.
    pub closed spec fn spec_source(&self) -> Option<Seq<char>> {
        match self.source {
            Some(s) => Some(s@),
            None => None,
        }
    }

    /// An error of the given kind with no text attached.
    pub fn new(kind: Kind) -> (r: Error)
        ensures
            r.spec_kind() == kind,
            r.spec_source() is None,
    {
        Error { kind, source: None }
    }

    /// The same error with `source` attached as its text.
    pub fn with(self, source: String) -> (r: Error)
        ensures
            r.spec_kind() == self.spec_kind(),
            r.spec_source() == Some(source@),
    {
        Error { kind: self.kind, source: Some(source) }
    }

    /// The kind of this error.
    pub fn kind(&self) -> (r: &Kind)
        ensures
            *r == self.spec_kind(),
    {
        &self.kind
    }

    /// The text attached to this error, if any.
    pub fn source_text(&self) -> (r: Option<&String>)
        ensures
            match r {
                Some(s) => self.spec_source() == Some(s@),
                None => self.spec_source() is None,
            },
    {
        match &self.source {
            Some(s) => Some(s),
            None => None,
        }
    }

    /// The short description of this error's kind.
    pub fn description(&self) -> (r: &'static str)
        ensures
            r@ == kind_text(self.spec_kind()),
    {
        match self.kind {
            Kind::Builder => "builder error",
            Kind::Decode => "decoding error",
            Kind::InvalidResponse => "invalid response from server",
            Kind::KeyNotFound => "key not found",
            Kind::MissingIndex => "missing index",
            Kind::MissingSessionFlag => "missing session flag",
            Kind::Request => "error sending request",
            Kind::ServiceNotFound => "service not found",
            Kind::UnexpectedResponse => "unexpected response from server",
        }
    }

    /// The full message: the description, followed by `": "` and the attached
    /// text when there is one.
    pub fn message(&self) -> (r: String)
        ensures
            r@ == match self.spec_source() {
                Some(s) => kind_text(self.spec_kind()) + ": "@ + s,
                None => kind_text(self.spec_kind()),
            },
    {
        let mut out = String::from_str(self.description());
        match &self.source {
            Some(s) => {
                out.append(": ");
                out.append(s.as_str());
            },
            None => {},
        }
        out
    }
}

/// A request could not be put together.
pub fn builder(source: String) -> (r: Error)
    ensures
        r.spec_kind() == Kind::Builder,
        r.spec_source() == Some(source@),
{
    Error::new(Kind::Builder).with(source)
}

/// A response body did not have the expected shape.
pub fn decode(source: String) -> (r: Error)
    ensures
        r.spec_kind() == Kind::Decode,
        r.spec_source() == Some(source@),
{
    Error::new(Kind::Decode).with(source)
}

/// The agent's answer is not a valid response.
pub fn invalid_response(source: String) -> (r: Error)
    ensures
        r.spec_kind() == Kind::InvalidResponse,
        r.spec_source() == Some(source@),
{
    Error::new(Kind::InvalidResponse).with(source)
}

/// The requested key does not exist.
pub fn key_not_found(source: String) -> (r: Error)
    ensures
        r.spec_kind() == Kind::KeyNotFound,
        r.spec_source() == Some(source@),
{
    Error::new(Kind::KeyNotFound).with(source)
}

/// A response that must carry a change index lacked one.
pub fn missing_index() -> (r: Error)
    ensures
        r.spec_kind() == Kind::MissingIndex,
        r.spec_source() is None,
{
    Error::new(Kind::MissingIndex)
}

/// A lock operation was asked for without a session id.
pub fn missing_session_flag() -> (r: Error)
    ensures
        r.spec_kind() == Kind::MissingSessionFlag,
        r.spec_source() is None,
{
    Error::new(Kind::MissingSessionFlag)
}

/// The transport failed.
pub fn request(source: String) -> (r: Error)
    ensures
        r.spec_kind() == Kind::Request,
        r.spec_source() == Some(source@),
{
    Error::new(Kind::Request).with(source)
}

/// The requested service does not exist.
pub fn service_not_found(source: String) -> (r: Error)
    ensures
        r.spec_kind() == Kind::ServiceNotFound,
        r.spec_source() == Some(source@),
{
    Error::new(Kind::ServiceNotFound).with(source)
}

/// The agent answered with an unexpected status; `body` is what it sent.
pub fn unexpected_response(body: String) -> (r: Error)
    ensures
        r.spec_kind() == Kind::UnexpectedResponse,
        r.spec_source() == Some(body@),
{
    Error::new(Kind::UnexpectedResponse).with(body)
}

} // verus!
