use schematics::nbt::{
    byte_data, byte_or, compound_or, find_string, int_or, opt_string, string_or, take_fields,
    NbtValue,
};

fn sample_pairs() -> Vec<(String, NbtValue)> {
    vec![
        ("alpha".to_string(), NbtValue::Byte(7)),
        ("beta".to_string(), NbtValue::Str("two".to_string())),
        ("alpha".to_string(), NbtValue::Byte(9)),
        ("gamma".to_string(), NbtValue::Int(3)),
    ]
}

#[test]
fn take_fields_takes_first_match() {
    let keys = vec!["alpha".to_string(), "delta".to_string()];
    let slots = take_fields(sample_pairs(), &keys);
    assert_eq!(slots.len(), 2);
    assert_eq!(slots[0], Some(NbtValue::Byte(7)));
    assert_eq!(slots[1], None);
}

#[test]
fn find_string_reads_without_consuming() {
    let pairs = sample_pairs();
    let found = find_string(&pairs, &"beta".to_string());
    assert_eq!(found, Some("two".to_string()));
    let not_string = find_string(&pairs, &"gamma".to_string());
    assert_eq!(not_string, None);
    let absent = find_string(&pairs, &"delta".to_string());
    assert_eq!(absent, None);
    assert_eq!(pairs.len(), 4);
}

#[test]
fn typed_getters_default_on_mismatch() {
    assert_eq!(byte_or(Some(NbtValue::Byte(5)), 1), 5);
    assert_eq!(byte_or(Some(NbtValue::Int(5)), 1), 1);
    assert_eq!(byte_or(None, 1), 1);
    assert_eq!(int_or(Some(NbtValue::Int(-4)), 0), -4);
    assert_eq!(int_or(Some(NbtValue::Short(-4)), 0), 0);
    assert_eq!(
        opt_string(Some(NbtValue::Str("x".to_string()))),
        Some("x".to_string())
    );
    assert_eq!(opt_string(Some(NbtValue::Byte(0))), None);
    assert_eq!(
        string_or(Some(NbtValue::Byte(0)), "fallback".to_string()),
        "fallback"
    );
    assert!(compound_or(Some(NbtValue::Int(1))).is_empty());
}

#[test]
fn byte_data_accepts_both_wire_shapes() {
    let raw = byte_data(Some(NbtValue::ByteArray(vec![1, -2, 3]))).unwrap();
    let listed = byte_data(Some(NbtValue::List(vec![
        NbtValue::Byte(1),
        NbtValue::Byte(-2),
        NbtValue::Byte(3),
    ])))
    .unwrap();
    assert_eq!(raw, vec![1, -2, 3]);
    assert_eq!(raw, listed);
}

#[test]
fn byte_data_rejects_mixed_lists() {
    let mixed = byte_data(Some(NbtValue::List(vec![
        NbtValue::Byte(1),
        NbtValue::Int(2),
    ])));
    assert_eq!(mixed, None);
    assert_eq!(byte_data(Some(NbtValue::Int(1))), None);
    assert_eq!(byte_data(None), None);
}

#[test]
fn empty_byte_list_decodes_empty() {
    assert_eq!(byte_data(Some(NbtValue::List(vec![]))), Some(vec![]));
    assert_eq!(byte_data(Some(NbtValue::ByteArray(vec![]))), Some(vec![]));
}
