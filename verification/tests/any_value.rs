use polars_core::datatypes::FrozenCategories;
use polars_serde::de::any_value::{dispatch, Mode, Visit};
use polars_serde::de::{
    AnyValueDeserializer, BorrowedAnyValueDeserializer, Error, Shape, Value,
};
use std::sync::Arc;

fn oceans() -> Arc<FrozenCategories> {
    FrozenCategories::new(["Atlantic", "Indian"]).unwrap()
}

#[test]
fn null_is_answered_with_none() {
    assert!(matches!(dispatch(Value::Null, Mode::Owned), Ok(Visit::Null)));
    assert!(matches!(dispatch(Value::Null, Mode::Borrowed), Ok(Visit::Null)));
}

#[test]
fn a_boolean_is_answered_with_itself() {
    assert!(matches!(dispatch(Value::Boolean(true), Mode::Owned), Ok(Visit::Bool(true))));
    assert!(matches!(dispatch(Value::Boolean(false), Mode::Borrowed), Ok(Visit::Bool(false))));
}

#[test]
fn unsigned_integers_keep_their_width() {
    assert!(matches!(dispatch(Value::UInt8(255), Mode::Owned), Ok(Visit::U8(255))));
    assert!(matches!(dispatch(Value::UInt16(65_535), Mode::Owned), Ok(Visit::U16(65_535))));
    assert!(matches!(
        dispatch(Value::UInt32(4_294_967_295), Mode::Owned),
        Ok(Visit::U32(4_294_967_295))
    ));
    assert!(matches!(
        dispatch(Value::UInt64(18_446_744_073_709_551_615), Mode::Borrowed),
        Ok(Visit::U64(18_446_744_073_709_551_615))
    ));
}

#[test]
fn signed_integers_keep_their_width() {
    assert!(matches!(dispatch(Value::Int8(-128), Mode::Owned), Ok(Visit::I8(-128))));
    assert!(matches!(dispatch(Value::Int16(-32_768), Mode::Owned), Ok(Visit::I16(-32_768))));
    assert!(matches!(dispatch(Value::Int32(70_560_000), Mode::Owned), Ok(Visit::I32(70_560_000))));
    assert!(matches!(dispatch(Value::Int64(-1), Mode::Borrowed), Ok(Visit::I64(-1))));
    assert!(matches!(
        dispatch(Value::Int128(-170_141_183_460_469_231_731_687_303_715_884_105_728), Mode::Owned),
        Ok(Visit::I128(-170_141_183_460_469_231_731_687_303_715_884_105_728))
    ));
}

#[test]
fn floats_keep_their_bits() {
    let single = 1.5f32.to_bits();
    let double = (-0.25f64).to_bits();
    match dispatch(Value::Float32(single), Mode::Owned) {
        Ok(Visit::F32(bits)) => assert_eq!(f32::from_bits(bits), 1.5f32),
        other => panic!("{other:?}"),
    }
    match dispatch(Value::Float64(double), Mode::Borrowed) {
        Ok(Visit::F64(bits)) => assert_eq!(f64::from_bits(bits), -0.25f64),
        other => panic!("{other:?}"),
    }
    let nan = f64::NAN.to_bits();
    assert!(matches!(dispatch(Value::Float64(nan), Mode::Owned), Ok(Visit::F64(bits)) if bits == nan));
}

#[test]
fn borrowed_text_is_lent_by_the_plain_bridge() {
    match AnyValueDeserializer::new(Value::String("Atlantic")).deserialize_any() {
        Ok(Visit::Str(text)) => assert_eq!(text, "Atlantic"),
        other => panic!("{other:?}"),
    }
}

#[test]
fn borrowed_text_is_handed_out_by_the_borrowing_bridge() {
    let stored = String::from("Atlantic");
    match BorrowedAnyValueDeserializer::new(Value::String(&stored)).deserialize_any() {
        Ok(Visit::BorrowedStr(text)) => {
            assert_eq!(text, "Atlantic");
            assert_eq!(text.as_ptr(), stored.as_ptr());
            assert_eq!(text.len(), stored.len());
        },
        other => panic!("{other:?}"),
    }
}

#[test]
fn owned_text_is_given_away_in_both_modes() {
    match dispatch(Value::StringOwned(String::from("Indian")), Mode::Owned) {
        Ok(Visit::String(text)) => assert_eq!(text, "Indian"),
        other => panic!("{other:?}"),
    }
    match dispatch(Value::StringOwned(String::from("Indian")), Mode::Borrowed) {
        Ok(Visit::String(text)) => assert_eq!(text, "Indian"),
        other => panic!("{other:?}"),
    }
}

#[test]
fn borrowed_bytes_follow_the_mode() {
    let stored: Vec<u8> = vec![0, 159, 146, 150];
    match dispatch(Value::Binary(&stored), Mode::Owned) {
        Ok(Visit::Bytes(bytes)) => assert_eq!(bytes, &[0, 159, 146, 150]),
        other => panic!("{other:?}"),
    }
    match dispatch(Value::Binary(&stored), Mode::Borrowed) {
        Ok(Visit::BorrowedBytes(bytes)) => {
            assert_eq!(bytes, &[0, 159, 146, 150]);
            assert_eq!(bytes.as_ptr(), stored.as_ptr());
        },
        other => panic!("{other:?}"),
    }
}

#[test]
fn owned_bytes_are_given_away_in_both_modes() {
    match dispatch(Value::BinaryOwned(vec![1, 2, 3]), Mode::Owned) {
        Ok(Visit::ByteBuf(bytes)) => assert_eq!(bytes, vec![1, 2, 3]),
        other => panic!("{other:?}"),
    }
    match dispatch(Value::BinaryOwned(Vec::new()), Mode::Borrowed) {
        Ok(Visit::ByteBuf(bytes)) => assert!(bytes.is_empty()),
        other => panic!("{other:?}"),
    }
}

#[test]
fn a_resolved_code_decodes_like_its_text() {
    let frozen = oceans();
    let mapping = frozen.mapping();
    let code = mapping.get_cat("Atlantic").unwrap();
    let from_code = dispatch(Value::Categorical(code, mapping), Mode::Owned);
    let from_text = dispatch(Value::String("Atlantic"), Mode::Owned);
    match (from_code, from_text) {
        (Ok(Visit::Str(a)), Ok(Visit::Str(b))) => {
            assert_eq!(a, "Atlantic");
            assert_eq!(a, b);
        },
        other => panic!("{other:?}"),
    }
    let from_code = dispatch(Value::Enum(code, mapping), Mode::Borrowed);
    let from_text = dispatch(Value::String("Atlantic"), Mode::Borrowed);
    match (from_code, from_text) {
        (Ok(Visit::BorrowedStr(a)), Ok(Visit::BorrowedStr(b))) => {
            assert_eq!(a, "Atlantic");
            assert_eq!(a, b);
        },
        other => panic!("{other:?}"),
    }
}

#[test]
fn the_second_code_resolves_to_the_second_text() {
    let frozen = oceans();
    let mapping = frozen.mapping();
    let code = mapping.get_cat("Indian").unwrap();
    match dispatch(Value::Categorical(code, mapping), Mode::Borrowed) {
        Ok(Visit::BorrowedStr(text)) => assert_eq!(text, "Indian"),
        other => panic!("{other:?}"),
    }
}

#[test]
fn a_code_of_an_owned_dictionary_is_never_handed_out() {
    let frozen = oceans();
    let code = frozen.mapping().get_cat("Indian").unwrap();
    match dispatch(Value::CategoricalOwned(code, frozen.mapping().clone()), Mode::Borrowed) {
        Ok(Visit::Str(text)) => assert_eq!(text, "Indian"),
        other => panic!("{other:?}"),
    }
    match dispatch(Value::EnumOwned(code, frozen.mapping().clone()), Mode::Owned) {
        Ok(Visit::Str(text)) => assert_eq!(text, "Indian"),
        other => panic!("{other:?}"),
    }
}

#[test]
fn an_unknown_code_is_reported_with_its_dictionary() {
    let frozen = oceans();
    let mapping = frozen.mapping();
    match dispatch(Value::Categorical(7, mapping), Mode::Owned) {
        Err(Error::InvalidCategoricalId(code, carried)) => {
            assert_eq!(code, 7);
            assert!(Arc::ptr_eq(&carried, mapping));
        },
        other => panic!("{other:?}"),
    }
    match dispatch(Value::Enum(2, mapping), Mode::Borrowed) {
        Err(Error::InvalidCategoricalId(code, carried)) => {
            assert_eq!(code, 2);
            assert!(Arc::ptr_eq(&carried, mapping));
        },
        other => panic!("{other:?}"),
    }
    match dispatch(Value::CategoricalOwned(4_000_000_000, mapping.clone()), Mode::Borrowed) {
        Err(Error::InvalidCategoricalId(code, carried)) => {
            assert_eq!(code, 4_000_000_000);
            assert!(Arc::ptr_eq(&carried, mapping));
        },
        other => panic!("{other:?}"),
    }
    match dispatch(Value::EnumOwned(2, mapping.clone()), Mode::Owned) {
        Err(Error::InvalidCategoricalId(code, carried)) => {
            assert_eq!(code, 2);
            assert!(Arc::ptr_eq(&carried, mapping));
        },
        other => panic!("{other:?}"),
    }
}

#[test]
fn a_list_becomes_a_sequence_of_bridges_in_order() {
    let list = Value::List(vec![Value::Int32(1), Value::Null, Value::String("x")]);
    let items = match dispatch(list, Mode::Borrowed) {
        Ok(Visit::Sequence(items)) => items,
        other => panic!("{other:?}"),
    };
    assert_eq!(items.len(), 3);
    let mut items = items.into_iter();
    assert!(matches!(items.next().unwrap().deserialize_any(), Ok(Visit::I32(1))));
    assert!(matches!(items.next().unwrap().deserialize_any(), Ok(Visit::Null)));
    match items.next().unwrap().deserialize_any() {
        Ok(Visit::Str(text)) => assert_eq!(text, "x"),
        other => panic!("{other:?}"),
    }
    assert!(items.next().is_none());
}

#[test]
fn an_array_becomes_a_sequence_like_a_list() {
    let array = Value::Array(vec![Value::UInt8(1), Value::UInt8(2)], 2);
    let items = match dispatch(array, Mode::Owned) {
        Ok(Visit::Sequence(items)) => items,
        other => panic!("{other:?}"),
    };
    assert_eq!(items.len(), 2);
    let mut items = items.into_iter();
    assert!(matches!(items.next().unwrap().deserialize_any(), Ok(Visit::U8(1))));
    assert!(matches!(items.next().unwrap().deserialize_any(), Ok(Visit::U8(2))));
}

#[test]
fn an_empty_list_is_an_empty_sequence() {
    match dispatch(Value::List(Vec::new()), Mode::Owned) {
        Ok(Visit::Sequence(items)) => assert!(items.is_empty()),
        other => panic!("{other:?}"),
    }
}

#[test]
fn lists_nest() {
    let inner = Value::List(vec![Value::Boolean(true)]);
    let outer = Value::List(vec![inner]);
    let items = match dispatch(outer, Mode::Owned) {
        Ok(Visit::Sequence(items)) => items,
        other => panic!("{other:?}"),
    };
    let first = items.into_iter().next().unwrap();
    let nested = match first.deserialize_any() {
        Ok(Visit::Sequence(items)) => items,
        other => panic!("{other:?}"),
    };
    assert_eq!(nested.len(), 1);
    let only = nested.into_iter().next().unwrap();
    assert!(matches!(only.deserialize_any(), Ok(Visit::Bool(true))));
}

#[test]
fn an_error_inside_a_list_waits_for_its_element() {
    let frozen = oceans();
    let mapping = frozen.mapping();
    let list = Value::List(vec![Value::Int8(1), Value::Categorical(9, mapping)]);
    let items = match dispatch(list, Mode::Owned) {
        Ok(Visit::Sequence(items)) => items,
        other => panic!("{other:?}"),
    };
    let mut items = items.into_iter();
    assert!(matches!(items.next().unwrap().deserialize_any(), Ok(Visit::I8(1))));
    assert!(matches!(
        items.next().unwrap().deserialize_any(),
        Err(Error::InvalidCategoricalId(9, _))
    ));
}

#[test]
fn a_value_without_a_call_comes_back() {
    match dispatch(Value::UInt128(340_282_366_920_938_463_463_374_607_431_768_211_455), Mode::Owned)
    {
        Err(Error::UnknownDataType(Value::UInt128(v))) => {
            assert_eq!(v, 340_282_366_920_938_463_463_374_607_431_768_211_455)
        },
        other => panic!("{other:?}"),
    }
    match dispatch(Value::Float16(0x3c00), Mode::Borrowed) {
        Err(Error::UnknownDataType(Value::Float16(bits))) => assert_eq!(bits, 0x3c00),
        other => panic!("{other:?}"),
    }
}

#[test]
fn into_static_makes_borrowed_text_and_bytes_owned() {
    let text = String::from("Atlantic");
    let bytes: Vec<u8> = vec![7, 8];
    match Value::String(&text).into_static() {
        Value::StringOwned(owned) => assert_eq!(owned, "Atlantic"),
        other => panic!("{other:?}"),
    }
    match Value::Binary(&bytes).into_static() {
        Value::BinaryOwned(owned) => assert_eq!(owned, vec![7, 8]),
        other => panic!("{other:?}"),
    }
}

#[test]
fn into_static_shares_a_borrowed_dictionary() {
    let frozen = oceans();
    let mapping = frozen.mapping();
    match Value::Categorical(1, mapping).into_static() {
        Value::CategoricalOwned(code, shared) => {
            assert_eq!(code, 1);
            assert!(Arc::ptr_eq(&shared, mapping));
        },
        other => panic!("{other:?}"),
    }
    match Value::Enum(0, mapping).into_static() {
        Value::EnumOwned(code, shared) => {
            assert_eq!(code, 0);
            assert!(Arc::ptr_eq(&shared, mapping));
        },
        other => panic!("{other:?}"),
    }
}

#[test]
fn into_static_reaches_into_lists() {
    let text = String::from("deep");
    let list = Value::List(vec![Value::Array(vec![Value::String(&text)], 1), Value::Int64(5)]);
    let owned = list.into_static();
    drop(text);
    match owned {
        Value::List(items) => {
            assert_eq!(items.len(), 2);
            match &items[0] {
                Value::Array(inner, 1) => {
                    assert!(matches!(&inner[..], [Value::StringOwned(s)] if s == "deep"))
                },
                other => panic!("{other:?}"),
            }
            assert!(matches!(items[1], Value::Int64(5)));
        },
        other => panic!("{other:?}"),
    }
}

#[test]
fn into_static_leaves_owned_values_alone() {
    assert!(matches!(Value::Null.into_static(), Value::Null));
    assert!(matches!(Value::UInt64(3).into_static(), Value::UInt64(3)));
    assert!(matches!(Value::Float32(9).into_static(), Value::Float32(9)));
    assert!(matches!(Value::StringOwned(String::from("a")).into_static(), Value::StringOwned(s) if s == "a"));
    assert!(matches!(Value::BinaryOwned(vec![1]).into_static(), Value::BinaryOwned(b) if b == [1]));
}

#[test]
fn a_custom_error_keeps_its_message() {
    match Error::custom("missing field `ocean`") {
        Error::Custom(message) => assert_eq!(message, "missing field `ocean`"),
        other => panic!("{other:?}"),
    }
}

#[test]
fn the_value_decides_whatever_shape_is_asked_for() {
    let stored = 2.5f64.to_bits();
    for shape in [Shape::Any, Shape::I64, Shape::Str, Shape::Struct, Shape::IgnoredAny] {
        match AnyValueDeserializer::new(Value::Float64(stored)).deserialize(shape) {
            Ok(Visit::F64(bits)) => assert_eq!(f64::from_bits(bits), 2.5f64),
            other => panic!("{other:?}"),
        }
    }
    for shape in [Shape::Bool, Shape::Sequence, Shape::Optional] {
        match BorrowedAnyValueDeserializer::new(Value::String("text")).deserialize(shape) {
            Ok(Visit::BorrowedStr(text)) => assert_eq!(text, "text"),
            other => panic!("{other:?}"),
        }
    }
}

#[test]
fn a_request_for_a_shape_fails_as_a_request_for_anything_does() {
    let answer = AnyValueDeserializer::new(Value::UInt128(1)).deserialize(Shape::U64);
    assert!(matches!(answer, Err(Error::UnknownDataType(Value::UInt128(1)))));
}
