use embedding_router::error::ErrorType;
use embedding_router::input::{normalize, PredictInput, RawValue, Sequence, ShapeError};

fn text(s: &str) -> RawValue {
    RawValue::Text(s.to_string())
}

fn list(items: Vec<RawValue>) -> RawValue {
    RawValue::List(items)
}

fn single_text(r: Result<PredictInput, ShapeError>) -> String {
    match r {
        Ok(PredictInput::Single(Sequence::Single(s))) => s,
        other => panic!("expected a single sequence, got {:?}", other),
    }
}

#[test]
fn bare_text_is_single() {
    assert_eq!(single_text(normalize(&text("hello"))), "hello");
}

#[test]
fn list_of_one_text_is_single() {
    assert_eq!(single_text(normalize(&list(vec![text("hello")]))), "hello");
}

#[test]
fn list_of_two_texts_is_ordered_pair() {
    match normalize(&list(vec![text("first"), text("second")])) {
        Ok(PredictInput::Single(Sequence::Pair(a, b))) => {
            assert_eq!(a, "first");
            assert_eq!(b, "second");
        }
        other => panic!("expected a pair, got {:?}", other),
    }
}

#[test]
fn empty_list_is_length_error() {
    assert_eq!(normalize(&list(vec![])).unwrap_err(), ShapeError::InvalidLength { len: 0 });
}

#[test]
fn three_texts_is_length_error() {
    let r = normalize(&list(vec![text("a"), text("b"), text("c")]));
    assert_eq!(r.unwrap_err(), ShapeError::InvalidLength { len: 3 });
    let r = normalize(&list(vec![text("a"), text("b"), text("c"), text("d")]));
    assert_eq!(r.unwrap_err(), ShapeError::InvalidLength { len: 4 });
}

#[test]
fn mixed_batch_keeps_order() {
    let v = list(vec![
        list(vec![text("a")]),
        list(vec![text("b"), text("c")]),
        list(vec![text("d")]),
    ]);
    match normalize(&v) {
        Ok(PredictInput::Batch(b)) => {
            assert_eq!(b.len(), 3);
            assert!(matches!(&b[0], Sequence::Single(a) if a == "a"));
            assert!(matches!(&b[1], Sequence::Pair(x, y) if x == "b" && y == "c"));
            assert!(matches!(&b[2], Sequence::Single(d) if d == "d"));
        }
        other => panic!("expected a batch, got {:?}", other),
    }
}

#[test]
fn batch_element_of_three_is_length_error_at_second() {
    let v = list(vec![list(vec![text("a")]), list(vec![text("b"), text("c"), text("d")])]);
    assert_eq!(
        normalize(&v).unwrap_err(),
        ShapeError::InvalidElementLength { index: 1, len: 3 }
    );
}

#[test]
fn empty_first_batch_element_is_length_error() {
    let v = list(vec![list(vec![]), list(vec![text("b")])]);
    assert_eq!(
        normalize(&v).unwrap_err(),
        ShapeError::InvalidElementLength { index: 0, len: 0 }
    );
}

#[test]
fn first_bad_element_decides_error() {
    let v = list(vec![
        list(vec![text("a")]),
        text("b"),
        list(vec![text("c"), text("d"), text("e")]),
    ]);
    assert_eq!(normalize(&v).unwrap_err(), ShapeError::InvalidType);
}

#[test]
fn wrong_kinds_are_type_errors() {
    assert_eq!(normalize(&RawValue::Other).unwrap_err(), ShapeError::InvalidType);
    assert_eq!(normalize(&list(vec![RawValue::Other])).unwrap_err(), ShapeError::InvalidType);
    assert_eq!(
        normalize(&list(vec![text("a"), list(vec![text("b")])])).unwrap_err(),
        ShapeError::InvalidType
    );
    assert_eq!(
        normalize(&list(vec![list(vec![text("a"), RawValue::Other])])).unwrap_err(),
        ShapeError::InvalidType
    );
}

#[test]
fn count_chars_counts_characters() {
    assert_eq!(Sequence::Single("héllo".to_string()).count_chars(), 5);
    assert_eq!(Sequence::Pair("ab".to_string(), "çde".to_string()).count_chars(), 5);
}

#[test]
fn shape_errors_are_validation_errors() {
    let r = ShapeError::InvalidType.to_response();
    assert_eq!(r.error_type, ErrorType::Validation);
    assert!(!r.error.is_empty());
    let o = r.to_openai(413);
    assert_eq!(o.code, 413);
    assert_eq!(o.error_type, ErrorType::Validation);
}

#[test]
fn normalize_defaults_to_true() {
    assert!(embedding_router::default_normalize());
}
