//! The two value universes: documents, as exchanged with the host, and the
//! dynamic values of the scripting engine.

use vstd::arithmetic::power2::pow2;
use vstd::prelude::*;

verus! {

/// A document number. A float is held as the bit pattern of an IEEE-754
/// binary64 value; in a well-formed document that value is finite (neither
/// NaN nor infinite), since the document format has no such numbers.
#[derive(Clone, Copy, Debug, PartialEq)]
pub enum Number {
    Int(i64),
    Float(u64),
}

/// A structured document value. Object entries keep the order in which they
/// were given; that order carries no meaning.
#[derive(Debug, PartialEq)]
pub enum Document {
    Null,
    Bool(bool),
    Number(Number),
    Str(String),
    Array(Vec<Document>),
    Object(Vec<(String, Document)>),
}

/// A dynamic value of the scripting engine. `Int` is the engine's native
/// (narrow) integer, `Wide` a wider integer, `Float` the bit pattern of a
/// binary64 float. `Opaque` is any other engine value, held as the engine's
/// human-readable rendering of it.
#[derive(Debug, PartialEq)]
pub enum EngineValue {
    Unit,
    Bool(bool),
    Int(i32),
    Wide(i64),
    Float(u64),
    Str(String),
    Array(Vec<EngineValue>),
    Object(Vec<(String, EngineValue)>),
    Opaque(String),
}

/// Whether `i` fits the engine's native integer width.
pub open spec fn fits_narrow(i: int) -> bool {
    i32::MIN <= i <= i32::MAX
}

/// 2^52: the weight of the implicit leading bit of a binary64 significand.
pub open spec fn significand_unit() -> int {
    0x10_0000_0000_0000
}

/// Whether the binary64 bit pattern `bits` denotes a finite value: its
/// exponent field is not all ones.
pub open spec fn float_is_finite(bits: u64) -> bool {
    (bits as int / significand_unit()) % 0x800 != 0x7ff
}

/// Whether the keys of `entries` are pairwise distinct.
pub open spec fn distinct_keys<V>(entries: Seq<(String, V)>) -> bool {
    forall|i: int, j: int|
        #![trigger entries[i], entries[j]]
        0 <= i < entries.len() && 0 <= j < entries.len() && i != j ==> entries[i].0@
            != entries[j].0@
}

/// A well-formed document: every object has distinct keys and every float
/// is finite.
pub open spec fn well_formed_document(d: Document) -> bool
    decreases d,
{
    match d {
        Document::Number(Number::Float(bits)) => float_is_finite(bits),
        Document::Array(xs) => forall|i: int|
            #![trigger xs@[i]]
            0 <= i < xs.len() ==> well_formed_document(xs@[i]),
        Document::Object(xs) => {
            &&& distinct_keys(xs@)
            &&& forall|i: int|
                #![trigger xs@[i]]
                0 <= i < xs.len() ==> well_formed_document(xs@[i].1)
        },
        _ => true,
    }
}

/// A well-formed engine value: every map has distinct keys.
pub open spec fn well_formed_value(v: EngineValue) -> bool
    decreases v,
{
    match v {
        EngineValue::Array(xs) => forall|i: int|
            #![trigger xs@[i]]
            0 <= i < xs.len() ==> well_formed_value(xs@[i]),
        EngineValue::Object(xs) => {
            &&& distinct_keys(xs@)
            &&& forall|i: int|
                #![trigger xs@[i]]
                0 <= i < xs.len() ==> well_formed_value(xs@[i].1)
        },
        _ => true,
    }
}

/// The integer that the binary64 bit pattern `bits` denotes, if it denotes
/// a finite integral value.
pub open spec fn float_integer_value(bits: u64) -> Option<int> {
    let exponent = (bits as int / significand_unit()) % 0x800;
    let fraction = bits as int % significand_unit();
    let magnitude = if exponent == 0x7ff {
        None
    } else if exponent == 0 {
        if fraction == 0 {
            Some(0int)
        } else {
            None
        }
    } else {
        let m = fraction + significand_unit();
        if exponent >= 1075 {
            Some(m * pow2((exponent - 1075) as nat))
        } else if m % (pow2((1075 - exponent) as nat) as int) == 0 {
            Some(m / (pow2((1075 - exponent) as nat) as int))
        } else {
            None
        }
    };
    match magnitude {
        Some(m) => Some(
            if bits >= 0x8000_0000_0000_0000u64 {
                -m
            } else {
                m
            },
        ),
        None => None,
    }
}

/// Whether some binary64 value denotes exactly the integer `n`.
pub open spec fn float_representable(n: int) -> bool {
    exists|bits: u64| float_integer_value(bits) == Some(n)
}

/// Two numbers are value-equal when they denote the same value, whatever
/// their representation.
pub open spec fn same_number(a: Number, b: Number) -> bool {
    match (a, b) {
        (Number::Int(x), Number::Int(y)) => x == y,
        (Number::Int(x), Number::Float(y)) => float_integer_value(y) == Some(x as int),
        (Number::Float(x), Number::Int(y)) => float_integer_value(x) == Some(y as int),
        (Number::Float(x), Number::Float(y)) => x == y,
    }
}

/// Value equality of documents: numbers by value, strings and keys by
/// content, arrays and objects element by element.
pub open spec fn same_document(a: Document, b: Document) -> bool
    decreases a,
{
    match (a, b) {
        (Document::Null, Document::Null) => true,
        (Document::Bool(x), Document::Bool(y)) => x == y,
        (Document::Number(x), Document::Number(y)) => same_number(x, y),
        (Document::Str(x), Document::Str(y)) => x@ == y@,
        (Document::Array(xs), Document::Array(ys)) => {
            &&& xs.len() == ys.len()
            &&& forall|i: int|
                #![trigger xs@[i]]
                0 <= i < xs.len() ==> same_document(xs@[i], ys@[i])
        },
        (Document::Object(xs), Document::Object(ys)) => {
            &&& xs.len() == ys.len()
            &&& forall|i: int|
                #![trigger xs@[i]]
                0 <= i < xs.len() ==> xs@[i].0@ == ys@[i].0@ && same_document(xs@[i].1, ys@[i].1)
        },
        _ => false,
    }
}

/// A document built from null, booleans, strings, arrays, objects and
/// integers of the engine's native width only.
pub open spec fn narrow_document(d: Document) -> bool
    decreases d,
{
    match d {
        Document::Number(Number::Int(i)) => fits_narrow(i as int),
        Document::Number(Number::Float(_)) => false,
        Document::Array(xs) => forall|i: int|
            #![trigger xs@[i]]
            0 <= i < xs.len() ==> narrow_document(xs@[i]),
        Document::Object(xs) => forall|i: int|
            #![trigger xs@[i]]
            0 <= i < xs.len() ==> narrow_document(xs@[i].1),
        _ => true,
    }
}

} // verus!
