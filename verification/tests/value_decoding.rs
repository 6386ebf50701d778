use toy_bytecode::decode::MAX_VALUE_DEPTH;
use toy_bytecode::decode::TValueDeserializeResult;
use toy_bytecode::decode::decode_value;
use toy_bytecode::decode::decode_values;
use toy_bytecode::error::DecodeError;
use toy_bytecode::value::Value;
use toy_bytecode::value::ValueKind;
use toy_bytecode::value::int_to_bool;

#[test]
fn long_value() {
    let words: Vec<i64> = vec![0, 42];
    assert_eq!(decode_value(&words, 0), Ok((Value::Long(42), 2)));
}

#[test]
fn long_value_extremes() {
    let words: Vec<i64> = vec![0, i64::MIN];
    assert_eq!(decode_value(&words, 0), Ok((Value::Long(i64::MIN), 2)));
    let words: Vec<i64> = vec![0, i64::MAX];
    assert_eq!(decode_value(&words, 0), Ok((Value::Long(i64::MAX), 2)));
}

#[test]
fn bool_inverted_polarity() {
    let words: Vec<i64> = vec![2, 0];
    assert_eq!(decode_value(&words, 0), Ok((Value::Bool(true), 2)));
    let words: Vec<i64> = vec![2, 1];
    assert_eq!(decode_value(&words, 0), Ok((Value::Bool(false), 2)));
}

#[test]
fn bool_invalid_word() {
    let words: Vec<i64> = vec![2, 2];
    assert_eq!(
        decode_value(&words, 0),
        Err(DecodeError::InvalidBool { offset: 1, word: 2 })
    );
}

#[test]
fn empty_string() {
    let words: Vec<i64> = vec![1, 0];
    assert_eq!(decode_value(&words, 0), Ok((Value::Str(vec![]), 2)));
}

#[test]
fn string_foo() {
    let words: Vec<i64> = vec![1, 3, 102, 111, 111];
    assert_eq!(
        decode_value(&words, 0),
        Ok((Value::Str(vec!['f', 'o', 'o']), 5))
    );
}

#[test]
fn string_surrogate_is_invalid_scalar() {
    let words: Vec<i64> = vec![1, 2, 97, 0xD800];
    assert_eq!(
        decode_value(&words, 0),
        Err(DecodeError::InvalidScalar { offset: 3, word: 0xD800 })
    );
}

#[test]
fn string_word_beyond_code_points_is_invalid_scalar() {
    let words: Vec<i64> = vec![1, 1, 0x110000];
    assert_eq!(
        decode_value(&words, 0),
        Err(DecodeError::InvalidScalar { offset: 2, word: 0x110000 })
    );
    let words: Vec<i64> = vec![1, 1, -1];
    assert_eq!(
        decode_value(&words, 0),
        Err(DecodeError::InvalidScalar { offset: 2, word: -1 })
    );
}

#[test]
fn array_of_longs() {
    let words: Vec<i64> = vec![3, 2, 0, 65, 0, 66];
    assert_eq!(
        decode_value(&words, 0),
        Ok((Value::Array(vec![Value::Long(65), Value::Long(66)]), 6))
    );
}

#[test]
fn nested_arrays_keep_order_and_values() {
    // three levels of nesting: [[ [7, 8] ], [9]]
    let words: Vec<i64> = vec![3, 2, 3, 1, 3, 2, 0, 7, 0, 8, 3, 1, 0, 9];
    let inner = Value::Array(vec![Value::Long(7), Value::Long(8)]);
    let mid = Value::Array(vec![inner]);
    let right = Value::Array(vec![Value::Long(9)]);
    assert_eq!(
        decode_value(&words, 0),
        Ok((Value::Array(vec![mid, right]), 14))
    );
}

#[test]
fn function_tag_has_no_payload_encoding() {
    let words: Vec<i64> = vec![4];
    assert_eq!(
        decode_value(&words, 0),
        Err(DecodeError::UnsupportedValueTag { offset: 0, tag: 4 })
    );
}

#[test]
fn null_tag_has_no_payload_encoding() {
    let words: Vec<i64> = vec![5, 0];
    assert_eq!(
        decode_value(&words, 0),
        Err(DecodeError::UnsupportedValueTag { offset: 0, tag: 5 })
    );
}

#[test]
fn unknown_value_tag() {
    let words: Vec<i64> = vec![6, 1];
    assert_eq!(
        decode_value(&words, 0),
        Err(DecodeError::UnknownTag { offset: 0, tag: 6 })
    );
}

#[test]
fn value_at_end_of_stream() {
    let words: Vec<i64> = vec![0, 1];
    assert_eq!(
        decode_value(&words, 2),
        Err(DecodeError::TruncatedInput { offset: 2 })
    );
}

#[test]
fn long_missing_payload() {
    let words: Vec<i64> = vec![0];
    assert_eq!(
        decode_value(&words, 0),
        Err(DecodeError::TruncatedInput { offset: 1 })
    );
}

#[test]
fn string_length_exceeds_remaining_words() {
    let words: Vec<i64> = vec![1, 5, 65];
    assert_eq!(
        decode_value(&words, 0),
        Err(DecodeError::TruncatedInput { offset: 1 })
    );
}

#[test]
fn array_length_exceeds_remaining_words() {
    let words: Vec<i64> = vec![3, 9];
    assert_eq!(
        decode_value(&words, 0),
        Err(DecodeError::TruncatedInput { offset: 1 })
    );
}

#[test]
fn negative_declared_length() {
    let words: Vec<i64> = vec![1, -1];
    assert_eq!(
        decode_value(&words, 0),
        Err(DecodeError::TruncatedInput { offset: 1 })
    );
    let words: Vec<i64> = vec![3, -3, 0, 1];
    assert_eq!(
        decode_value(&words, 0),
        Err(DecodeError::TruncatedInput { offset: 1 })
    );
}

#[test]
fn nesting_beyond_the_depth_guard() {
    let levels = MAX_VALUE_DEPTH as usize + 1;
    let mut words: Vec<i64> = Vec::new();
    for _ in 0..levels {
        words.push(3);
        words.push(1);
    }
    words.push(0);
    words.push(7);
    let offending = 2 * (levels - 1);
    assert_eq!(
        decode_value(&words, 0),
        Err(DecodeError::TooDeep { offset: offending })
    );
}

#[test]
fn nesting_at_the_depth_guard_still_decodes() {
    let levels = MAX_VALUE_DEPTH as usize;
    let mut words: Vec<i64> = Vec::new();
    for _ in 0..levels {
        words.push(3);
        words.push(1);
    }
    words.push(0);
    words.push(7);
    let (v, n) = decode_value(&words, 0).expect("nesting at the bound must decode");
    assert_eq!(n, words.len());
    let mut cur = v;
    for _ in 0..levels {
        match cur {
            Value::Array(mut items) => {
                assert_eq!(items.len(), 1);
                cur = items.pop().unwrap();
            }
            other => panic!("expected an array, got {:?}", other),
        }
    }
    assert_eq!(cur, Value::Long(7));
}

#[test]
fn batch_of_values() {
    let words: Vec<i64> = vec![0, 1, 2, 0, 1, 1, 97];
    let res = decode_values(&words, 0, 3, MAX_VALUE_DEPTH).unwrap();
    assert_eq!(
        res.array,
        vec![Value::Long(1), Value::Bool(true), Value::Str(vec!['a'])]
    );
    assert_eq!(res.idx, 7);
}

#[test]
fn batch_stops_on_first_error() {
    let words: Vec<i64> = vec![0, 1, 2, 7];
    assert_eq!(
        decode_values(&words, 0, 2, MAX_VALUE_DEPTH),
        Err(DecodeError::InvalidBool { offset: 3, word: 7 })
    );
}

#[test]
fn deserialize_result_new_keeps_fields() {
    let r = TValueDeserializeResult::new(vec![Value::Null, Value::Function], 9);
    assert_eq!(r.array, vec![Value::Null, Value::Function]);
    assert_eq!(r.idx, 9);
}

#[test]
fn bool_words_decode_inverted() {
    assert!(int_to_bool(0));
    assert!(!int_to_bool(1));
}

#[test]
fn value_kinds_from_words() {
    assert_eq!(ValueKind::from_word(0), Some(ValueKind::Long));
    assert_eq!(ValueKind::from_word(1), Some(ValueKind::Str));
    assert_eq!(ValueKind::from_word(2), Some(ValueKind::Bool));
    assert_eq!(ValueKind::from_word(3), Some(ValueKind::Array));
    assert_eq!(ValueKind::from_word(4), Some(ValueKind::Function));
    assert_eq!(ValueKind::from_word(5), Some(ValueKind::Null));
    assert_eq!(ValueKind::from_word(6), None);
    assert_eq!(ValueKind::from_word(-1), None);
}

#[test]
fn kind_of_each_value() {
    assert_eq!(Value::Long(3).kind(), ValueKind::Long);
    assert_eq!(Value::Str(vec![]).kind(), ValueKind::Str);
    assert_eq!(Value::Bool(false).kind(), ValueKind::Bool);
    assert_eq!(Value::Array(vec![]).kind(), ValueKind::Array);
    assert_eq!(Value::Function.kind(), ValueKind::Function);
    assert_eq!(Value::Null.kind(), ValueKind::Null);
}
