//! Laws relating the two converters.

use crate::convert::{float_bits_of_i64, inbound, outbound};
use crate::model::{
    fits_narrow, float_is_finite, float_representable, narrow_document, same_document,
    well_formed_document, well_formed_value, Document, EngineValue, Number,
};
use vstd::prelude::*;

verus! {

broadcast use vstd::std_specs::vec::group_vec_axioms;

/// A document made only of null, booleans, strings, arrays, objects and
/// integers of the engine's native width is value-equal to itself after a
/// conversion into the engine and back.
pub proof fn lemma_round_trip(d: Document, v: EngineValue, back: Document)
    requires
        narrow_document(d),
        inbound(d, v),
        outbound(v, back),
    ensures
        same_document(d, back),
    decreases d,
{
    match d {
        Document::Array(xs) => {
            if let (EngineValue::Array(ys), Document::Array(zs)) = (v, back) {
                assert forall|i: int| #![trigger xs@[i]] 0 <= i < xs.len() implies same_document(
                    xs@[i],
                    zs@[i],
                ) by {
                    assert(decreases_to!(d => xs@[i]));
                    lemma_round_trip(xs@[i], ys@[i], zs@[i]);
                }
            }
        },
        Document::Object(xs) => {
            if let (EngineValue::Object(ys), Document::Object(zs)) = (v, back) {
                assert forall|i: int| #![trigger xs@[i]] 0 <= i < xs.len() implies xs@[i].0@
                    == zs@[i].0@ && same_document(xs@[i].1, zs@[i].1) by {
                    assert(decreases_to!(d => xs@[i].1));
                    lemma_round_trip(xs@[i].1, ys@[i].1, zs@[i].1);
                }
            }
        },
        _ => {},
    }
}

/// An integer outside the engine's native width enters the engine as a
/// float and comes back as that float (as null, were that float not
/// finite); it is value-equal to the original integer only if the integer is
/// exactly representable as a binary64 float.
pub proof fn lemma_wide_integer_round_trip(n: i64, v: EngineValue, back: Document)
    requires
        !fits_narrow(n as int),
        inbound(Document::Number(Number::Int(n)), v),
        outbound(v, back),
    ensures
        back == if float_is_finite(float_bits_of_i64(n as int)) {
            Document::Number(Number::Float(float_bits_of_i64(n as int)))
        } else {
            Document::Null
        },
        same_document(Document::Number(Number::Int(n)), back) ==> float_representable(n as int),
{
}

/// Converting a well-formed document into the engine gives a well-formed
/// engine value: the keys of every map stay distinct.
pub proof fn lemma_inbound_well_formed(d: Document, v: EngineValue)
    requires
        well_formed_document(d),
        inbound(d, v),
    ensures
        well_formed_value(v),
    decreases d,
{
    match d {
        Document::Array(xs) => {
            if let EngineValue::Array(ys) = v {
                assert forall|i: int| #![trigger ys@[i]] 0 <= i < ys.len() implies well_formed_value(
                    ys@[i],
                ) by {
                    assert(decreases_to!(d => xs@[i]));
                    lemma_inbound_well_formed(xs@[i], ys@[i]);
                }
            }
        },
        Document::Object(xs) => {
            if let EngineValue::Object(ys) = v {
                assert forall|i: int, j: int|
                    #![trigger ys@[i], ys@[j]]
                    0 <= i < ys.len() && 0 <= j < ys.len() && i != j implies ys@[i].0@
                    != ys@[j].0@ by {
                    assert(xs@[i].0@ == ys@[i].0@);
                    assert(xs@[j].0@ == ys@[j].0@);
                }
                assert forall|i: int| #![trigger ys@[i]] 0 <= i < ys.len() implies well_formed_value(
                    ys@[i].1,
                ) by {
                    assert(decreases_to!(d => xs@[i].1));
                    lemma_inbound_well_formed(xs@[i].1, ys@[i].1);
                }
            }
        },
        _ => {},
    }
}

/// Converting a well-formed engine value into a document gives a
/// well-formed document: the keys of every object stay distinct, and no
/// float in it is NaN or infinite.
pub proof fn lemma_outbound_well_formed(v: EngineValue, d: Document)
    requires
        well_formed_value(v),
        outbound(v, d),
    ensures
        well_formed_document(d),
    decreases v,
{
    match v {
        EngineValue::Array(xs) => {
            if let Document::Array(ys) = d {
                assert forall|i: int| #![trigger ys@[i]] 0 <= i < ys.len() implies well_formed_document(
                    ys@[i],
                ) by {
                    assert(decreases_to!(v => xs@[i]));
                    lemma_outbound_well_formed(xs@[i], ys@[i]);
                }
            }
        },
        EngineValue::Object(xs) => {
            if let Document::Object(ys) = d {
                assert forall|i: int, j: int|
                    #![trigger ys@[i], ys@[j]]
                    0 <= i < ys.len() && 0 <= j < ys.len() && i != j implies ys@[i].0@
                    != ys@[j].0@ by {
                    assert(xs@[i].0@ == ys@[i].0@);
                    assert(xs@[j].0@ == ys@[j].0@);
                }
                assert forall|i: int| #![trigger ys@[i]] 0 <= i < ys.len() implies well_formed_document(
                    ys@[i].1,
                ) by {
                    assert(decreases_to!(v => xs@[i].1));
                    lemma_outbound_well_formed(xs@[i].1, ys@[i].1);
                }
            }
        },
        _ => {},
    }
}

} // verus!
