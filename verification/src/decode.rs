//! Decoding a document and shaping the outcome.

use vstd::prelude::*;
use crate::bridge::{json_to_term, term_of};
use crate::error::{
    classify_spec, classify_xml_error, DecodeError, DecodeFault, ErrorKind, Failure, ParseError,
};
use crate::json::{json_is_object, json_shape, Json};
use crate::term::{Term, TermView};

verus! {

/// What the decoder makes of a document: the tree it decodes to, or the
/// error it fails with.
pub uninterp spec fn xml_decoding(xml: Seq<char>) -> Result<Json, DecodeFault>;

/// The mathematical content of a decoder's result.
pub open spec fn decoding_shape(parsed: Result<serde_json::Value, DecodeError>) -> Result<
    Json,
    DecodeFault,
> {
    match parsed {
        Ok(value) => Ok(json_shape(value)),
        Err(err) => Err(err@),
    }
}

/// `quick_xml::de::from_str` into a `serde_json::Value`, with the error
/// written as plain data: `DeError::UnexpectedEof` as it is,
/// `DeError::InvalidXml` as the `Display` text of the `quick_xml::Error` that
/// it carries, and every other variant as its `Debug` rendering.
///
/// The result is a function of the document alone. Every arm of that
/// `Display` writes some literal text, so the message is never empty.
#[verifier::external_body]
pub(crate) fn decode(xml: &str) -> (parsed: Result<serde_json::Value, DecodeError>)
    ensures
        decoding_shape(parsed) == xml_decoding(xml@),
        parsed matches Err(DecodeError::InvalidXml(message)) ==> message@.len() > 0,
{
    match quick_xml::de::from_str::<serde_json::Value>(xml) {
        Ok(value) => Ok(value),
        Err(quick_xml::DeError::UnexpectedEof) => Err(DecodeError::UnexpectedEof),
        Err(quick_xml::DeError::InvalidXml(inner)) => Err(DecodeError::InvalidXml(inner.to_string())),
        Err(other) => Err(DecodeError::Other(format!("{:?}", other))),
    }
}

/// The detail of a document that decodes to something other than a mapping.
pub open spec fn missing_node() -> Seq<char> {
    "syntax error: xml must have a node"@
}

/// The outcome of a decoding: a mapping is converted to its host value,
/// any other tree is `InvalidXml`, and an error is classified.
pub open spec fn outcome_spec(decoding: Result<Json, DecodeFault>) -> Result<TermView, Failure> {
    match decoding {
        Ok(shape) => if shape is Object {
            Ok(term_of(shape))
        } else {
            Err(Failure { kind: ErrorKind::InvalidXml, detail: missing_node() })
        },
        Err(fault) => Err(classify_spec(fault)),
    }
}

/// The mathematical value of an outcome.
pub open spec fn outcome_view(outcome: Result<Term, ParseError>) -> Result<TermView, Failure> {
    match outcome {
        Ok(term) => Ok(term@),
        Err(failure) => Err(failure@),
    }
}

/// Shapes the decoder's result into the outcome shown to the caller.
///
/// A decoded mapping is returned as its host value. A decoded value of any
/// other variant is an `InvalidXml` failure with a fixed detail. A decoder's
/// error is returned as classified.
pub fn handle_parsed_value(parsed: Result<serde_json::Value, DecodeError>) -> (outcome:
    Result<Term, ParseError>)
    ensures
        outcome_view(outcome) == outcome_spec(decoding_shape(parsed)),
        outcome matches Ok(term) ==> term.wf() && term@ is Mapping,
{
    match parsed {
        Ok(value) => {
            if json_is_object(&value) {
                Ok(json_to_term(&value))
            } else {
                Err(
                    ParseError {
                        kind: ErrorKind::InvalidXml,
                        detail: "syntax error: xml must have a node".to_owned(),
                    },
                )
            }
        },
        Err(err) => Err(classify_xml_error(err)),
    }
}

/// The outcome of parsing a document.
pub open spec fn parse_spec(xml: Seq<char>) -> Result<TermView, Failure> {
    outcome_spec(xml_decoding(xml))
}

/// Parses an XML document into a host map.
///
/// The outcome is a function of the document alone: the map of the decoded
/// tree where the document decodes to a mapping, and otherwise the failure
/// with its kind and detail.
pub fn parse(xml: String) -> (outcome: Result<Term, ParseError>)
    ensures
        outcome_view(outcome) == parse_spec(xml@),
        outcome matches Ok(term) ==> term.wf() && term@ is Mapping,
        outcome matches Err(failure) ==> (failure.kind is MalformedXml ==> failure.detail@.len() > 0),
{
    let parsed = decode(xml.as_str());
    handle_parsed_value(parsed)
}

} // verus!
