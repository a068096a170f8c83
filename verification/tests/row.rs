use polars_serde::de::any_value::Visit;
use polars_serde::de::row::Row;
use polars_serde::de::{BorrowedRowDeserializer, RowDeserializer, Shape, Value};

#[test]
fn a_row_becomes_a_record_in_column_order() {
    let row = Row(vec![Value::String("Atlantic"), Value::UInt64(106_460_000)]);
    let entries = RowDeserializer::new(vec!["Ocean", "Area"], row).deserialize_any();
    assert_eq!(entries.len(), 2);
    let mut entries = entries.into_iter();
    let first = entries.next().unwrap();
    assert!(matches!(first.key, Visit::Str(ref key) if key == "Ocean"));
    assert!(matches!(first.value.deserialize_any(), Ok(Visit::Str(ref text)) if text == "Atlantic"));
    let second = entries.next().unwrap();
    assert!(matches!(second.key, Visit::Str(ref key) if key == "Area"));
    assert!(matches!(second.value.deserialize_any(), Ok(Visit::U64(106_460_000))));
}

#[test]
fn a_borrowed_row_hands_out_names_and_text() {
    let names = vec![String::from("Ocean"), String::from("Area")];
    let stored = String::from("Indian");
    let row = Row(vec![Value::String(&stored), Value::UInt64(70_560_000)]);
    let keys: Vec<&str> = names.iter().map(|name| name.as_str()).collect();
    let entries = BorrowedRowDeserializer::new(keys, row).deserialize_any();
    assert_eq!(entries.len(), 2);
    let mut entries = entries.into_iter();
    let first = entries.next().unwrap();
    match first.key {
        Visit::BorrowedStr(key) => {
            assert_eq!(key, "Ocean");
            assert_eq!(key.as_ptr(), names[0].as_ptr());
        },
        other => panic!("{other:?}"),
    }
    match first.value.deserialize_any() {
        Ok(Visit::BorrowedStr(text)) => {
            assert_eq!(text, "Indian");
            assert_eq!(text.as_ptr(), stored.as_ptr());
        },
        other => panic!("{other:?}"),
    }
    let second = entries.next().unwrap();
    assert!(matches!(second.key, Visit::BorrowedStr("Area")));
    assert!(matches!(second.value.deserialize_any(), Ok(Visit::U64(70_560_000))));
}

#[test]
fn names_without_a_cell_are_dropped() {
    let row = Row(vec![Value::Int32(1)]);
    let entries = RowDeserializer::new(vec!["a", "b", "c"], row).deserialize_any();
    assert_eq!(entries.len(), 1);
    assert!(matches!(entries[0].key, Visit::Str(ref key) if key == "a"));
}

#[test]
fn cells_without_a_name_are_dropped() {
    let row = Row(vec![Value::Int32(1), Value::Int32(2), Value::Int32(3)]);
    let entries = BorrowedRowDeserializer::new(vec!["a", "b"], row).deserialize_any();
    assert_eq!(entries.len(), 2);
    let mut entries = entries.into_iter();
    let first = entries.next().unwrap();
    assert!(matches!(first.key, Visit::BorrowedStr("a")));
    assert!(matches!(first.value.deserialize_any(), Ok(Visit::I32(1))));
    let second = entries.next().unwrap();
    assert!(matches!(second.key, Visit::BorrowedStr("b")));
    assert!(matches!(second.value.deserialize_any(), Ok(Visit::I32(2))));
}

#[test]
fn an_empty_row_is_an_empty_record() {
    assert!(RowDeserializer::new(vec!["a"], Row(Vec::new())).deserialize_any().is_empty());
    assert!(RowDeserializer::new(Vec::new(), Row(vec![Value::Null])).deserialize_any().is_empty());
    assert!(BorrowedRowDeserializer::new(Vec::new(), Row(Vec::new())).deserialize_any().is_empty());
}

#[test]
fn names_that_occur_twice_stay_twice() {
    let row = Row(vec![Value::Int8(1), Value::Int8(2)]);
    let entries = RowDeserializer::new(vec!["x", "x"], row).deserialize_any();
    assert_eq!(entries.len(), 2);
    assert!(entries.iter().all(|entry| matches!(entry.key, Visit::Str(ref key) if key == "x")));
}

#[test]
fn a_row_is_a_record_whatever_shape_is_asked_for() {
    for shape in [Shape::Any, Shape::Sequence, Shape::Tuple, Shape::U8] {
        let row = Row(vec![Value::Boolean(true)]);
        let entries = RowDeserializer::new(vec!["flag"], row).deserialize(shape);
        assert_eq!(entries.len(), 1);
        assert!(matches!(entries[0].key, Visit::Str(ref key) if key == "flag"));
    }
    let row = Row(vec![Value::Boolean(true)]);
    let entries = BorrowedRowDeserializer::new(vec!["flag"], row).deserialize(Shape::Record);
    assert!(matches!(entries[0].key, Visit::BorrowedStr("flag")));
}
