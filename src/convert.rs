//! The two converters between documents and engine values.

use crate::laws::{lemma_inbound_well_formed, lemma_outbound_well_formed};
use crate::model::{
    fits_narrow, float_is_finite, well_formed_document, well_formed_value, Document, EngineValue,
    Number,
};
use vstd::prelude::*;

verus! {

broadcast use vstd::std_specs::vec::group_vec_axioms;

/// The bit pattern of the binary64 value that an integer is converted to.
pub uninterp spec fn float_bits_of_i64(i: int) -> u64;

/// Relies on `serde_json::Number::as_f64` for a number made from an `i64`:
/// its source returns `Some(i as f64)` for every integer, here handed back as
/// the float's bit pattern.
#[verifier::external_body]
fn float_bits_of_int(i: i64) -> (r: Option<u64>)
    ensures
        r == Some(float_bits_of_i64(i as int)),
{
    serde_json::Number::from(i).as_f64().map(|x| x.to_bits())
}

/// `v` is the engine value that the document `d` converts to: null becomes
/// unit, an integer of native width an engine integer, any other number an
/// engine float, and arrays and objects are converted element by element,
/// in order, with keys unchanged.
pub open spec fn inbound(d: Document, v: EngineValue) -> bool
    decreases d,
{
    match d {
        Document::Null => v == EngineValue::Unit,
        Document::Bool(b) => v == EngineValue::Bool(b),
        Document::Number(Number::Int(i)) => if fits_narrow(i as int) {
            v == EngineValue::Int(i as i32)
        } else {
            v == EngineValue::Float(float_bits_of_i64(i as int))
        },
        Document::Number(Number::Float(bits)) => v == EngineValue::Float(bits),
        Document::Str(s) => match v {
            EngineValue::Str(t) => t@ == s@,
            _ => false,
        },
        Document::Array(xs) => match v {
            EngineValue::Array(ys) => {
                &&& ys.len() == xs.len()
                &&& forall|i: int|
                    #![trigger xs@[i]]
                    0 <= i < xs.len() ==> inbound(xs@[i], ys@[i])
            },
            _ => false,
        },
        Document::Object(xs) => match v {
            EngineValue::Object(ys) => {
                &&& ys.len() == xs.len()
                &&& forall|i: int|
                    #![trigger xs@[i]]
                    0 <= i < xs.len() ==> ys@[i].0@ == xs@[i].0@ && inbound(xs@[i].1, ys@[i].1)
            },
            _ => false,
        },
    }
}

/// `d` is the document that the engine value `v` converts to: unit becomes
/// null, integers of either width and finite floats become numbers of the
/// same value, a NaN or infinite float becomes null, arrays and maps are converted element by element, in order, with
/// keys unchanged, and any other engine value becomes its rendering as a
/// string.
pub open spec fn outbound(v: EngineValue, d: Document) -> bool
    decreases v,
{
    match v {
        EngineValue::Unit => d == Document::Null,
        EngineValue::Bool(b) => d == Document::Bool(b),
        EngineValue::Int(i) => d == Document::Number(Number::Int(i as i64)),
        EngineValue::Wide(i) => d == Document::Number(Number::Int(i)),
        EngineValue::Float(bits) => d == if float_is_finite(bits) {
            Document::Number(Number::Float(bits))
        } else {
            Document::Null
        },
        EngineValue::Str(s) => match d {
            Document::Str(t) => t@ == s@,
            _ => false,
        },
        EngineValue::Array(xs) => match d {
            Document::Array(ys) => {
                &&& ys.len() == xs.len()
                &&& forall|i: int|
                    #![trigger xs@[i]]
                    0 <= i < xs.len() ==> outbound(xs@[i], ys@[i])
            },
            _ => false,
        },
        EngineValue::Object(xs) => match d {
            Document::Object(ys) => {
                &&& ys.len() == xs.len()
                &&& forall|i: int|
                    #![trigger xs@[i]]
                    0 <= i < xs.len() ==> ys@[i].0@ == xs@[i].0@ && outbound(xs@[i].1, ys@[i].1)
            },
            _ => false,
        },
        EngineValue::Opaque(s) => match d {
            Document::Str(t) => t@ == s@,
            _ => false,
        },
    }
}

/// Converts a document into an engine value. Never fails, and keeps the
/// keys of every object distinct.
#[verifier::loop_isolation(false)]
pub fn rhai_json_to_dynamic(value: &Document) -> (r: EngineValue)
    ensures
        inbound(*value, r),
        well_formed_document(*value) ==> well_formed_value(r),
    decreases value,
{
    let r = match value {
        Document::Null => EngineValue::Unit,
        Document::Bool(b) => EngineValue::Bool(*b),
        Document::Number(Number::Int(i)) => {
            if i32::MIN as i64 <= *i && *i <= i32::MAX as i64 {
                EngineValue::Int(*i as i32)
            } else {
                EngineValue::Float(float_bits_of_int(*i).unwrap())
            }
        },
        Document::Number(Number::Float(bits)) => EngineValue::Float(*bits),
        Document::Str(s) => EngineValue::Str(s.clone()),
        Document::Array(items) => {
            let mut out: Vec<EngineValue> = Vec::new();
            let mut k: usize = 0;
            while k < items.len()
                invariant
                    k <= items.len(),
                    out.len() == k,
                    forall|j: int| 0 <= j < k ==> inbound(#[trigger] items@[j], out@[j]),
                decreases items.len() - k,
            {
                proof {
                    assert(decreases_to!(*value => items[k as int]));
                }
                let e = rhai_json_to_dynamic(&items[k]);
                out.push(e);
                k += 1;
            }
            EngineValue::Array(out)
        },
        Document::Object(entries) => {
            let mut out: Vec<(String, EngineValue)> = Vec::new();
            let mut k: usize = 0;
            while k < entries.len()
                invariant
                    k <= entries.len(),
                    out.len() == k,
                    forall|j: int|
                        #![trigger entries@[j]]
                        0 <= j < k ==> out@[j].0@ == entries@[j].0@ && inbound(
                            entries@[j].1,
                            out@[j].1,
                        ),
                decreases entries.len() - k,
            {
                proof {
                    assert(decreases_to!(*value => entries[k as int].1));
                }
                let e = rhai_json_to_dynamic(&entries[k].1);
                out.push((entries[k].0.clone(), e));
                k += 1;
            }
            EngineValue::Object(out)
        },
    };
    proof {
        if well_formed_document(*value) {
            lemma_inbound_well_formed(*value, r);
        }
    }
    r
}

/// Converts an engine value into a document. The failure channel carries a
/// nested failure outward; no engine value fails, an unrecognised one
/// becomes its rendering as a string.
#[verifier::loop_isolation(false)]
pub fn rhai_dynamic_to_json(value: &EngineValue) -> (r: Result<Document, String>)
    ensures
        r is Ok,
        outbound(*value, r->Ok_0),
        well_formed_value(*value) ==> well_formed_document(r->Ok_0),
    decreases value,
{
    let r = match value {
        EngineValue::Unit => Ok(Document::Null),
        EngineValue::Int(i) => Ok(Document::Number(Number::Int(*i as i64))),
        EngineValue::Wide(i) => Ok(Document::Number(Number::Int(*i))),
        EngineValue::Float(bits) => {
            if (*bits / 0x10_0000_0000_0000) % 0x800 != 0x7ff {
                Ok(Document::Number(Number::Float(*bits)))
            } else {
                Ok(Document::Null)
            }
        },
        EngineValue::Bool(b) => Ok(Document::Bool(*b)),
        EngineValue::Str(s) => Ok(Document::Str(s.clone())),
        EngineValue::Array(items) => {
            let mut out: Vec<Document> = Vec::new();
            let mut k: usize = 0;
            while k < items.len()
                invariant
                    k <= items.len(),
                    out.len() == k,
                    forall|j: int| 0 <= j < k ==> outbound(#[trigger] items@[j], out@[j]),
                decreases items.len() - k,
            {
                proof {
                    assert(decreases_to!(*value => items[k as int]));
                }
                match rhai_dynamic_to_json(&items[k]) {
                    Ok(d) => out.push(d),
                    Err(e) => return Err(e),
                }
                k += 1;
            }
            Ok(Document::Array(out))
        },
        EngineValue::Object(entries) => {
            let mut out: Vec<(String, Document)> = Vec::new();
            let mut k: usize = 0;
            while k < entries.len()
                invariant
                    k <= entries.len(),
                    out.len() == k,
                    forall|j: int|
                        #![trigger entries@[j]]
                        0 <= j < k ==> out@[j].0@ == entries@[j].0@ && outbound(
                            entries@[j].1,
                            out@[j].1,
                        ),
                decreases entries.len() - k,
            {
                proof {
                    assert(decreases_to!(*value => entries[k as int].1));
                }
                match rhai_dynamic_to_json(&entries[k].1) {
                    Ok(d) => out.push((entries[k].0.clone(), d)),
                    Err(e) => return Err(e),
                }
                k += 1;
            }
            Ok(Document::Object(out))
        },
        EngineValue::Opaque(rendered) => Ok(Document::Str(rendered.clone())),
    };
    proof {
        if well_formed_value(*value) {
            lemma_outbound_well_formed(*value, r->Ok_0);
        }
    }
    r
}

} // verus!
