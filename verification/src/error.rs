//! The classification of the decoder's failures.

use vstd::prelude::*;

verus! {

/// The four kinds of failure that a caller can see.
#[derive(Clone, Copy, PartialEq, Eq, Structural, Debug)]
pub enum ErrorKind {
    /// The document decoded to something that is no mapping.
    InvalidXml,
    /// The document ended before a construct was closed.
    UnexpectedEof,
    /// The document breaks the XML syntax.
    MalformedXml,
    /// Any other failure of the decoder.
    UnknownError,
}

/// A failure as the caller sees it: its kind and a detail text.
#[derive(Debug, PartialEq, Eq)]
pub struct ParseError {
    pub kind: ErrorKind,
    pub detail: String,
}

/// The mathematical value of a [`ParseError`].
pub struct Failure {
    pub kind: ErrorKind,
    pub detail: Seq<char>,
}

impl View for ParseError {
    type V = Failure;

    open spec fn view(&self) -> Failure {
        Failure { kind: self.kind, detail: self.detail@ }
    }
}

/// A failure of the decoder, as plain data.
#[derive(Debug, PartialEq, Eq)]
pub enum DecodeError {
    /// The document ended where more of it was expected.
    UnexpectedEof,
    /// The document breaks the XML syntax; the text is the parser's message.
    InvalidXml(String),
    /// Any other failure; the text is the debug rendering of the error.
    Other(String),
}

/// The mathematical value of a [`DecodeError`].
pub enum DecodeFault {
    UnexpectedEof,
    InvalidXml(Seq<char>),
    Other(Seq<char>),
}

impl View for DecodeError {
    type V = DecodeFault;

    open spec fn view(&self) -> DecodeFault {
        match self {
            DecodeError::UnexpectedEof => DecodeFault::UnexpectedEof,
            DecodeError::InvalidXml(message) => DecodeFault::InvalidXml(message@),
            DecodeError::Other(rendering) => DecodeFault::Other(rendering@),
        }
    }
}

impl ErrorKind {
    /// The identifier under which the kind is known to callers.
    pub open spec fn name_spec(self) -> Seq<char> {
        match self {
            ErrorKind::InvalidXml => "invalid_xml"@,
            ErrorKind::UnexpectedEof => "unexpected_eof"@,
            ErrorKind::MalformedXml => "malformed_xml"@,
            ErrorKind::UnknownError => "unknown_error"@,
        }
    }

    /// The identifier under which the kind is known to callers.
    pub fn name(&self) -> (name: &'static str)
        ensures
            name@ == self.name_spec(),
    {
        match self {
            ErrorKind::InvalidXml => "invalid_xml",
            ErrorKind::UnexpectedEof => "unexpected_eof",
            ErrorKind::MalformedXml => "malformed_xml",
            ErrorKind::UnknownError => "unknown_error",
        }
    }
}

/// The detail that stands for a failure which has none of its own.
pub open spec fn no_details() -> Seq<char> {
    "no details"@
}

/// The kind and the detail of a decoder's error: a truncated document is
/// `UnexpectedEof` with the placeholder detail, a syntax error is
/// `MalformedXml` with the parser's message, and anything else is
/// `UnknownError` with the debug rendering of the error.
pub open spec fn classify_spec(fault: DecodeFault) -> Failure {
    match fault {
        DecodeFault::UnexpectedEof => Failure {
            kind: ErrorKind::UnexpectedEof,
            detail: no_details(),
        },
        DecodeFault::InvalidXml(message) => Failure {
            kind: ErrorKind::MalformedXml,
            detail: message,
        },
        DecodeFault::Other(rendering) => Failure {
            kind: ErrorKind::UnknownError,
            detail: rendering,
        },
    }
}

/// Classifies a decoder's error into the kind and detail shown to the caller.
pub fn classify_xml_error(err: DecodeError) -> (failure: ParseError)
    ensures
        failure@ == classify_spec(err@),
{
    match err {
        DecodeError::UnexpectedEof => ParseError {
            kind: ErrorKind::UnexpectedEof,
            detail: "no details".to_owned(),
        },
        DecodeError::InvalidXml(message) => ParseError {
            kind: ErrorKind::MalformedXml,
            detail: message,
        },
        DecodeError::Other(rendering) => ParseError {
            kind: ErrorKind::UnknownError,
            detail: rendering,
        },
    }
}

} // verus!
