use rhai_json::convert::{rhai_dynamic_to_json, rhai_json_to_dynamic};
use rhai_json::model::{Document, EngineValue, Number};

fn s(text: &str) -> String {
    text.to_string()
}

#[test]
fn inbound_null_becomes_unit() {
    assert_eq!(rhai_json_to_dynamic(&Document::Null), EngineValue::Unit);
}

#[test]
fn inbound_bool_and_string() {
    assert_eq!(rhai_json_to_dynamic(&Document::Bool(true)), EngineValue::Bool(true));
    assert_eq!(rhai_json_to_dynamic(&Document::Str(s("Alice"))), EngineValue::Str(s("Alice")));
}

#[test]
fn inbound_narrow_integers_stay_integers() {
    assert_eq!(rhai_json_to_dynamic(&Document::Number(Number::Int(30))), EngineValue::Int(30));
    assert_eq!(
        rhai_json_to_dynamic(&Document::Number(Number::Int(i32::MAX as i64))),
        EngineValue::Int(i32::MAX)
    );
    assert_eq!(
        rhai_json_to_dynamic(&Document::Number(Number::Int(i32::MIN as i64))),
        EngineValue::Int(i32::MIN)
    );
}

#[test]
fn inbound_wide_integers_become_floats() {
    let above = i32::MAX as i64 + 1;
    assert_eq!(
        rhai_json_to_dynamic(&Document::Number(Number::Int(above))),
        EngineValue::Float(2147483648.0f64.to_bits())
    );
    let below = i32::MIN as i64 - 1;
    assert_eq!(
        rhai_json_to_dynamic(&Document::Number(Number::Int(below))),
        EngineValue::Float((-2147483649.0f64).to_bits())
    );
    assert_eq!(
        rhai_json_to_dynamic(&Document::Number(Number::Int(i64::MAX))),
        EngineValue::Float((i64::MAX as f64).to_bits())
    );
}

#[test]
fn inbound_float_is_kept() {
    let bits = 1.5f64.to_bits();
    assert_eq!(rhai_json_to_dynamic(&Document::Number(Number::Float(bits))), EngineValue::Float(bits));
}

#[test]
fn inbound_containers_keep_order_and_keys() {
    let doc = Document::Object(vec![
        (s("items"), Document::Array(vec![
            Document::Number(Number::Int(1)),
            Document::Number(Number::Int(2)),
            Document::Number(Number::Int(3)),
        ])),
        (s("metadata"), Document::Null),
    ]);
    let expected = EngineValue::Object(vec![
        (s("items"), EngineValue::Array(vec![
            EngineValue::Int(1),
            EngineValue::Int(2),
            EngineValue::Int(3),
        ])),
        (s("metadata"), EngineValue::Unit),
    ]);
    assert_eq!(rhai_json_to_dynamic(&doc), expected);
}

#[test]
fn inbound_empty_containers() {
    assert_eq!(rhai_json_to_dynamic(&Document::Array(vec![])), EngineValue::Array(vec![]));
    assert_eq!(rhai_json_to_dynamic(&Document::Object(vec![])), EngineValue::Object(vec![]));
}

#[test]
fn outbound_scalars() {
    assert_eq!(rhai_dynamic_to_json(&EngineValue::Unit), Ok(Document::Null));
    assert_eq!(rhai_dynamic_to_json(&EngineValue::Bool(false)), Ok(Document::Bool(false)));
    assert_eq!(rhai_dynamic_to_json(&EngineValue::Int(43)), Ok(Document::Number(Number::Int(43))));
    assert_eq!(
        rhai_dynamic_to_json(&EngineValue::Wide(1i64 << 40)),
        Ok(Document::Number(Number::Int(1i64 << 40)))
    );
    let bits = 0.25f64.to_bits();
    assert_eq!(rhai_dynamic_to_json(&EngineValue::Float(bits)), Ok(Document::Number(Number::Float(bits))));
    assert_eq!(rhai_dynamic_to_json(&EngineValue::Str(s("x"))), Ok(Document::Str(s("x"))));
}

#[test]
fn outbound_opaque_value_is_rendered_as_string() {
    assert_eq!(
        rhai_dynamic_to_json(&EngineValue::Opaque(s("<custom object>"))),
        Ok(Document::Str(s("<custom object>")))
    );
}

#[test]
fn outbound_containers_are_converted_in_order() {
    let value = EngineValue::Object(vec![
        (s("id"), EngineValue::Int(43)),
        (s("tags"), EngineValue::Array(vec![EngineValue::Str(s("a")), EngineValue::Opaque(s("b"))])),
    ]);
    let expected = Document::Object(vec![
        (s("id"), Document::Number(Number::Int(43))),
        (s("tags"), Document::Array(vec![Document::Str(s("a")), Document::Str(s("b"))])),
    ]);
    assert_eq!(rhai_dynamic_to_json(&value), Ok(expected));
}

fn sample_document() -> Document {
    Document::Object(vec![
        (s("user"), Document::Object(vec![
            (s("name"), Document::Str(s("Alice"))),
            (s("age"), Document::Number(Number::Int(30))),
            (s("active"), Document::Bool(true)),
        ])),
        (s("items"), Document::Array(vec![
            Document::Number(Number::Int(1)),
            Document::Number(Number::Int(-2)),
            Document::Number(Number::Int(3)),
        ])),
        (s("metadata"), Document::Null),
    ])
}

#[test]
fn round_trip_of_narrow_document_is_identity() {
    let back = rhai_dynamic_to_json(&rhai_json_to_dynamic(&sample_document()));
    assert_eq!(back, Ok(sample_document()));
}

#[test]
fn wide_integer_comes_back_as_float() {
    let exact = 1i64 << 40;
    let back = rhai_dynamic_to_json(&rhai_json_to_dynamic(&Document::Number(Number::Int(exact))));
    assert_eq!(back, Ok(Document::Number(Number::Float((exact as f64).to_bits()))));
    assert_eq!(f64::from_bits(1099511627776.0f64.to_bits()) as i64, exact);

    let inexact = (1i64 << 53) + 1;
    let back = rhai_dynamic_to_json(&rhai_json_to_dynamic(&Document::Number(Number::Int(inexact))));
    match back {
        Ok(Document::Number(Number::Float(bits))) => {
            assert_eq!(f64::from_bits(bits), 9007199254740992.0);
            assert_ne!(f64::from_bits(bits) as i64, inexact);
        }
        other => panic!("unexpected {:?}", other),
    }
}

#[test]
fn outbound_non_finite_float_becomes_null() {
    assert_eq!(rhai_dynamic_to_json(&EngineValue::Float(f64::NAN.to_bits())), Ok(Document::Null));
    assert_eq!(rhai_dynamic_to_json(&EngineValue::Float(f64::INFINITY.to_bits())), Ok(Document::Null));
    assert_eq!(
        rhai_dynamic_to_json(&EngineValue::Float(f64::NEG_INFINITY.to_bits())),
        Ok(Document::Null)
    );
    let nested = EngineValue::Array(vec![EngineValue::Float(f64::NAN.to_bits()), EngineValue::Int(1)]);
    assert_eq!(
        rhai_dynamic_to_json(&nested),
        Ok(Document::Array(vec![Document::Null, Document::Number(Number::Int(1))]))
    );
}

#[test]
fn outbound_largest_finite_float_is_kept() {
    let bits = f64::MAX.to_bits();
    assert_eq!(rhai_dynamic_to_json(&EngineValue::Float(bits)), Ok(Document::Number(Number::Float(bits))));
}
