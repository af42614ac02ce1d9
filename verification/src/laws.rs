//! What holds of the outcomes, stated over their mathematical values.

use vstd::prelude::*;
use crate::bridge::{number_term, term_of};
use crate::decode::{missing_node, outcome_spec, outcome_view, parse_spec};
use crate::error::{classify_spec, no_details, DecodeFault, ErrorKind, Failure, ParseError};
use crate::json::{Json, Numeric};
use crate::term::{Term, TermView};

verus! {

/// Parsing has no hidden state: any two outcomes of parsing one document are
/// equal in value.
pub proof fn parse_is_deterministic(
    xml: Seq<char>,
    first: Result<Term, ParseError>,
    second: Result<Term, ParseError>,
)
    requires
        outcome_view(first) == parse_spec(xml),
        outcome_view(second) == parse_spec(xml),
    ensures
        outcome_view(first) == outcome_view(second),
        first is Ok <==> second is Ok,
{
}

/// Parsing succeeds exactly where the decoder succeeds with a mapping.
pub proof fn success_exactly_for_mappings(decoding: Result<Json, DecodeFault>)
    ensures
        outcome_spec(decoding) is Ok <==> (decoding is Ok && decoding->Ok_0 is Object),
{
}

/// A document that decodes to a mapping is accepted, and the map mirrors the
/// mapping: it has the same keys in the same places, and under each key the
/// host value of what the mapping holds there.
pub proof fn mapping_is_mirrored(shape: Json)
    requires
        shape is Object,
    ensures
        outcome_spec(Ok(shape)) is Ok,
        outcome_spec(Ok(shape))->Ok_0 is Mapping,
        outcome_spec(Ok(shape))->Ok_0->Mapping_0 == shape->Object_0,
        outcome_spec(Ok(shape))->Ok_0->Mapping_1.len() == shape->Object_1.len(),
        forall|i: int|
            0 <= i < shape->Object_1.len() ==> outcome_spec(Ok(shape))->Ok_0->Mapping_1[i]
                == term_of(#[trigger] shape->Object_1[i]),
{
    reveal_with_fuel(term_of, 2);
}

/// A list mirrors the array it comes from: as many items, each the host value
/// of the item in its place.
pub proof fn array_is_mirrored(items: Seq<Json>)
    ensures
        term_of(Json::Array(items)) is List,
        term_of(Json::Array(items))->List_0.len() == items.len(),
        forall|i: int|
            0 <= i < items.len() ==> term_of(Json::Array(items))->List_0[i] == term_of(
                #[trigger] items[i],
            ),
{
    reveal_with_fuel(term_of, 2);
}

/// A document that decodes to anything but a mapping is rejected as
/// `InvalidXml`, with the same detail whatever it decoded to.
pub proof fn non_mapping_is_invalid_xml(shape: Json)
    requires
        !(shape is Object),
    ensures
        outcome_spec(Ok(shape)) == Err::<TermView, Failure>(
            Failure { kind: ErrorKind::InvalidXml, detail: missing_node() },
        ),
{
}

/// The classification maps each variant of the decoder's error to a kind of
/// its own, never to `InvalidXml`, and gives each its detail: the placeholder
/// for a truncated document, the parser's message for a syntax error, and the
/// debug rendering for anything else.
pub proof fn classification_is_one_to_one(fault: DecodeFault)
    ensures
        classify_spec(fault).kind is UnexpectedEof <==> fault is UnexpectedEof,
        classify_spec(fault).kind is MalformedXml <==> fault is InvalidXml,
        classify_spec(fault).kind is UnknownError <==> fault is Other,
        !(classify_spec(fault).kind is InvalidXml),
        fault is UnexpectedEof ==> classify_spec(fault).detail == no_details(),
        fault is InvalidXml ==> classify_spec(fault).detail == fault->InvalidXml_0,
        fault is Other ==> classify_spec(fault).detail == fault->Other_0,
{
}

/// A failed decoding is never reported as a success: its outcome is the
/// failure that the classification gives.
pub proof fn failure_is_reported(fault: DecodeFault)
    ensures
        outcome_spec(Err(fault)) == Err::<TermView, Failure>(classify_spec(fault)),
{
}

/// A number that is an integer of 64 bits never becomes a float: it is a
/// signed integer where it has a signed reading, and an unsigned integer
/// where it has only an unsigned one.
pub proof fn integers_stay_integers(n: Numeric)
    ensures
        n.signed is Some ==> number_term(n) == TermView::Int(n.signed->Some_0),
        n.signed is None && n.unsigned is Some ==> number_term(n) == TermView::UInt(
            n.unsigned->Some_0,
        ),
        number_term(n) is Float ==> n.signed is None && n.unsigned is None && n.float_bits
            == Some(number_term(n)->Float_0),
        term_of(Json::Number(n)) == number_term(n),
{
}

/// Text is carried over unchanged.
pub proof fn text_is_preserved(text: Seq<char>)
    ensures
        term_of(Json::Text(text)) == TermView::Str(text),
{
}

} // verus!
