//! The conversion of a decoded tree into a host value.

use vstd::prelude::*;
use vstd::pervasive::unreached;
use crate::json::{
    json_as_array, json_as_bool, json_as_f64_bits, json_as_i64, json_as_str, json_as_u64,
    json_is_i64, json_is_u64, json_kind, json_object_keys, json_object_values, json_shape,
    shapes, shapes_of_refs, texts, Json, JsonKind, Numeric,
};
use crate::term::{Term, TermView};

verus! {

/// The host value of a number: a signed integer where the number is one, else
/// an unsigned integer where it is one, else a float. An integer reading is
/// always preferred to the float one.
pub open spec fn number_term(n: Numeric) -> TermView {
    match n.signed {
        Some(i) => TermView::Int(i),
        None => match n.unsigned {
            Some(u) => TermView::UInt(u),
            None => match n.float_bits {
                Some(bits) => TermView::Float(bits),
                None => TermView::Nil,
            },
        },
    }
}

/// The host value of a decoded tree.
pub open spec fn term_of(shape: Json) -> TermView
    decreases shape,
{
    match shape {
        Json::Null => TermView::Nil,
        Json::Bool(b) => TermView::Bool(b),
        Json::Number(n) => number_term(n),
        Json::Text(s) => TermView::Str(s),
        Json::Array(items) => TermView::List(terms_of(items)),
        Json::Object(keys, values) => TermView::Mapping(keys, terms_of(values)),
    }
}

/// The host values of a sequence of trees, in their order.
pub open spec fn terms_of(items: Seq<Json>) -> Seq<TermView>
    decreases items,
{
    Seq::new(
        items.len(),
        |i: int|
            if 0 <= i < items.len() {
                term_of(items[i])
            } else {
                TermView::Nil
            },
    )
}

/// Converts a number: the signed reading is preferred to the unsigned one,
/// and that to the float.
fn number_to_term(value: &serde_json::Value) -> (term: Term)
    requires
        json_shape(*value) is Number,
    ensures
        term@ == number_term(json_shape(*value)->Number_0),
        term.wf(),
{
    if json_is_i64(value) {
        match json_as_i64(value) {
            Some(i) => Term::Int(i),
            None => unreached(),
        }
    } else if json_is_u64(value) {
        match json_as_u64(value) {
            Some(u) => Term::UInt(u),
            None => unreached(),
        }
    } else {
        match json_as_f64_bits(value) {
            Some(bits) => Term::Float(bits),
            // A number without a float reading has no value for the host.
            None => Term::Nil,
        }
    }
}

/// Converts a decoded value into the host value that stands for it.
///
/// Null becomes the host's "no value"; a boolean, a string and a number keep
/// their value, a number as the narrowest of signed integer, unsigned integer
/// and float; an array becomes a list of the converted items in their order;
/// an object becomes a map from its keys to the converted values.
pub fn json_to_term(value: &serde_json::Value) -> (term: Term)
    ensures
        term@ == term_of(json_shape(*value)),
        term.wf(),
    decreases json_shape(*value),
{
    match json_kind(value) {
        JsonKind::Null => Term::Nil,
        JsonKind::Bool => match json_as_bool(value) {
            Some(b) => Term::Bool(b),
            None => unreached(),
        },
        JsonKind::Number => number_to_term(value),
        JsonKind::Text => match json_as_str(value) {
            Some(s) => Term::Str(s.to_owned()),
            None => unreached(),
        },
        JsonKind::Array => match json_as_array(value) {
            Some(items) => {
                let mut out: Vec<Term> = Vec::new();
                let mut i: usize = 0;
                while i < items.len()
                    invariant
                        i <= items.len(),
                        out.len() == i,
                        json_shape(*value) == Json::Array(shapes(items@)),
                        forall|j: int|
                            0 <= j < i ==> (#[trigger] out@[j])@ == term_of(json_shape(items@[j]))
                                && out@[j].wf(),
                    decreases items.len() - i,
                {
                    proof {
                        let ghost whole = json_shape(*value);
                        let ghost parts = whole->Array_0;
                        assert(parts[i as int] == json_shape(items@[i as int]));
                        assert(decreases_to!(whole => parts));
                        assert(decreases_to!(parts => parts[i as int]));
                    }
                    let item = json_to_term(&items[i]);
                    out.push(item);
                    i = i + 1;
                }
                let term = Term::List(out);
                assert(term@->List_0 =~= terms_of(shapes(items@)));
                term
            },
            None => unreached(),
        },
        JsonKind::Object => match (json_object_keys(value), json_object_values(value)) {
            (Some(keys), Some(members)) => {
                let mut out: Vec<(String, Term)> = Vec::new();
                let mut i: usize = 0;
                while i < keys.len()
                    invariant
                        i <= keys.len(),
                        keys.len() == members.len(),
                        out.len() == i,
                        json_shape(*value) == Json::Object(texts(keys@), shapes_of_refs(members@)),
                        forall|j: int|
                            0 <= j < i ==> (#[trigger] out@[j]).0@ == keys@[j]@
                                && out@[j].1@ == term_of(json_shape(*members@[j]))
                                && out@[j].1.wf(),
                    decreases keys.len() - i,
                {
                    proof {
                        let ghost whole = json_shape(*value);
                        let ghost parts = whole->Object_1;
                        assert(parts[i as int] == json_shape(*members@[i as int]));
                        assert(decreases_to!(whole => parts));
                        assert(decreases_to!(parts => parts[i as int]));
                    }
                    let member = json_to_term(members[i]);
                    out.push((keys[i].clone(), member));
                    i = i + 1;
                }
                let term = Term::Mapping(out);
                assert(term@->Mapping_0 =~= texts(keys@));
                assert(term@->Mapping_1 =~= terms_of(shapes_of_refs(members@)));
                term
            },
            _ => unreached(),
        },
    }
}

} // verus!
